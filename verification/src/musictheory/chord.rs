use vstd::prelude::*;
use vstd::string::*;

use crate::error::MusicError;
use super::eq_ignore_case;
use super::spec_upper_seq;
use super::interval::Interval;
use super::piano_key::PianoKey;
use super::pitch::{spec_key_micro_hz, Pitch};

verus! {

/// A harmonic quality: each named chord type maps to a fixed list of
/// intervals stacked above the root; a custom chord carries its own.
#[derive(Debug, Clone, Copy, PartialEq, Eq, Structural)]
pub enum ChordType {
    MajorTriad,
    MajorSixth,
    DominantSeventh,
    AugmentedTriad,
    AugmentedSeventh,
    MinorTriad,
    MinorSixth,
    MinorSeventh,
    MinorMajorSeventh,
    DiminishedTriad,
    DiminishedSeventh,
    HalfDiminishedSeventh,
    PowerDiad,
    PowerTriad,
    CustomChord,
}

impl ChordType {
    /// The intervals above the root for each named quality; a custom
    /// chord contributes none of its own.
    pub open spec fn spec_intervals(self) -> Seq<Interval> {
        match self {
            ChordType::MajorTriad => seq![Interval::Maj3, Interval::Perfect5],
            ChordType::MajorSixth => seq![Interval::Maj3, Interval::Perfect5, Interval::Maj6],
            ChordType::DominantSeventh => seq![
                Interval::Maj3,
                Interval::Perfect5,
                Interval::Min7,
            ],
            ChordType::AugmentedTriad => seq![Interval::Maj3, Interval::Min6],
            ChordType::AugmentedSeventh => seq![Interval::Maj3, Interval::Min6, Interval::Min7],
            ChordType::MinorTriad => seq![Interval::Min3, Interval::Perfect5],
            ChordType::MinorSixth => seq![Interval::Min3, Interval::Perfect5, Interval::Maj6],
            ChordType::MinorSeventh => seq![Interval::Min3, Interval::Perfect5, Interval::Min7],
            ChordType::MinorMajorSeventh => seq![
                Interval::Min3,
                Interval::Perfect5,
                Interval::Maj7,
            ],
            ChordType::DiminishedTriad => seq![Interval::Min3, Interval::Tritone],
            ChordType::DiminishedSeventh => seq![Interval::Min3, Interval::Tritone, Interval::Maj6],
            ChordType::HalfDiminishedSeventh => seq![
                Interval::Min3,
                Interval::Tritone,
                Interval::Min7,
            ],
            ChordType::PowerDiad => seq![Interval::Perfect5],
            ChordType::PowerTriad => seq![Interval::Perfect5, Interval::Octave],
            ChordType::CustomChord => Seq::empty(),
        }
    }

    /// Builds the interval list of a named quality.
    pub fn get_intervals(self) -> (r: Vec<Interval>)
        ensures
            r@ == self.spec_intervals(),
    {
        let mut r: Vec<Interval> = Vec::new();
        match self {
            ChordType::MajorTriad => {
                r.push(Interval::Maj3);
                r.push(Interval::Perfect5);
            },
            ChordType::MajorSixth => {
                r.push(Interval::Maj3);
                r.push(Interval::Perfect5);
                r.push(Interval::Maj6);
            },
            ChordType::DominantSeventh => {
                r.push(Interval::Maj3);
                r.push(Interval::Perfect5);
                r.push(Interval::Min7);
            },
            ChordType::AugmentedTriad => {
                r.push(Interval::Maj3);
                r.push(Interval::Min6);
            },
            ChordType::AugmentedSeventh => {
                r.push(Interval::Maj3);
                r.push(Interval::Min6);
                r.push(Interval::Min7);
            },
            ChordType::MinorTriad => {
                r.push(Interval::Min3);
                r.push(Interval::Perfect5);
            },
            ChordType::MinorSixth => {
                r.push(Interval::Min3);
                r.push(Interval::Perfect5);
                r.push(Interval::Maj6);
            },
            ChordType::MinorSeventh => {
                r.push(Interval::Min3);
                r.push(Interval::Perfect5);
                r.push(Interval::Min7);
            },
            ChordType::MinorMajorSeventh => {
                r.push(Interval::Min3);
                r.push(Interval::Perfect5);
                r.push(Interval::Maj7);
            },
            ChordType::DiminishedTriad => {
                r.push(Interval::Min3);
                r.push(Interval::Tritone);
            },
            ChordType::DiminishedSeventh => {
                r.push(Interval::Min3);
                r.push(Interval::Tritone);
                r.push(Interval::Maj6);
            },
            ChordType::HalfDiminishedSeventh => {
                r.push(Interval::Min3);
                r.push(Interval::Tritone);
                r.push(Interval::Min7);
            },
            ChordType::PowerDiad => {
                r.push(Interval::Perfect5);
            },
            ChordType::PowerTriad => {
                r.push(Interval::Perfect5);
                r.push(Interval::Octave);
            },
            ChordType::CustomChord => {},
        }
        proof {
            assert(r@ =~= self.spec_intervals());
        }
        r
    }

    /// How a chord-type name parses, after folding to upper case.
    pub open spec fn spec_parse(s: Seq<char>) -> Option<ChordType> {
        let u = spec_upper_seq(s);
        if u == "MAJ"@ {
            Some(ChordType::MajorTriad)
        } else if u == "MAJ6"@ {
            Some(ChordType::MajorSixth)
        } else if u == "DOM7"@ {
            Some(ChordType::DominantSeventh)
        } else if u == "AUG"@ {
            Some(ChordType::AugmentedTriad)
        } else if u == "AUG7"@ {
            Some(ChordType::AugmentedSeventh)
        } else if u == "MIN"@ {
            Some(ChordType::MinorTriad)
        } else if u == "MIN6"@ {
            Some(ChordType::MinorSixth)
        } else if u == "MIN7"@ {
            Some(ChordType::MinorSeventh)
        } else if u == "MINMAJ7"@ {
            Some(ChordType::MinorMajorSeventh)
        } else if u == "DIM"@ {
            Some(ChordType::DiminishedTriad)
        } else if u == "DIM7"@ {
            Some(ChordType::DiminishedSeventh)
        } else if u == "HDIM7"@ {
            Some(ChordType::HalfDiminishedSeventh)
        } else if u == "POW2"@ {
            Some(ChordType::PowerDiad)
        } else if u == "POW3"@ {
            Some(ChordType::PowerTriad)
        } else {
            None
        }
    }

    /// Reads a chord-type name, case-insensitively; a failure carries
    /// the rejected name.
    pub fn from_str(s: &str) -> (r: Result<Self, MusicError>)
        ensures
            r is Ok <==> ChordType::spec_parse(s@) is Some,
            r is Ok ==> r->Ok_0 == ChordType::spec_parse(s@)->Some_0,
            r is Err ==> (r matches Err(e) && e matches MusicError::UnknownChordType(t) && t@
                == s@),
    {
        if eq_ignore_case(s, "MAJ") {
            Ok(ChordType::MajorTriad)
        } else if eq_ignore_case(s, "MAJ6") {
            Ok(ChordType::MajorSixth)
        } else if eq_ignore_case(s, "DOM7") {
            Ok(ChordType::DominantSeventh)
        } else if eq_ignore_case(s, "AUG") {
            Ok(ChordType::AugmentedTriad)
        } else if eq_ignore_case(s, "AUG7") {
            Ok(ChordType::AugmentedSeventh)
        } else if eq_ignore_case(s, "MIN") {
            Ok(ChordType::MinorTriad)
        } else if eq_ignore_case(s, "MIN6") {
            Ok(ChordType::MinorSixth)
        } else if eq_ignore_case(s, "MIN7") {
            Ok(ChordType::MinorSeventh)
        } else if eq_ignore_case(s, "MINMAJ7") {
            Ok(ChordType::MinorMajorSeventh)
        } else if eq_ignore_case(s, "DIM") {
            Ok(ChordType::DiminishedTriad)
        } else if eq_ignore_case(s, "DIM7") {
            Ok(ChordType::DiminishedSeventh)
        } else if eq_ignore_case(s, "HDIM7") {
            Ok(ChordType::HalfDiminishedSeventh)
        } else if eq_ignore_case(s, "POW2") {
            Ok(ChordType::PowerDiad)
        } else if eq_ignore_case(s, "POW3") {
            Ok(ChordType::PowerTriad)
        } else {
            Err(MusicError::UnknownChordType(String::from_str(s)))
        }
    }

    /// The quality's short name, as written after a root note.
    pub open spec fn spec_display_name(self) -> Seq<char> {
        match self {
            ChordType::MajorTriad => "maj"@,
            ChordType::MajorSixth => "maj6"@,
            ChordType::DominantSeventh => "dom7"@,
            ChordType::AugmentedTriad => "aug"@,
            ChordType::AugmentedSeventh => "aug7"@,
            ChordType::MinorTriad => "min"@,
            ChordType::MinorSixth => "min6"@,
            ChordType::MinorSeventh => "min7"@,
            ChordType::MinorMajorSeventh => "minmaj7"@,
            ChordType::DiminishedTriad => "dim"@,
            ChordType::DiminishedSeventh => "dim7"@,
            ChordType::HalfDiminishedSeventh => "hdim7"@,
            ChordType::PowerDiad => "pow2"@,
            ChordType::PowerTriad => "pow3"@,
            ChordType::CustomChord => "custom"@,
        }
    }

    /// Writes the quality's short name, such as `maj` or `dim7`.
    pub fn name_str(self) -> (r: &'static str)
        ensures
            r@ == self.spec_display_name(),
    {
        match self {
            ChordType::MajorTriad => "maj",
            ChordType::MajorSixth => "maj6",
            ChordType::DominantSeventh => "dom7",
            ChordType::AugmentedTriad => "aug",
            ChordType::AugmentedSeventh => "aug7",
            ChordType::MinorTriad => "min",
            ChordType::MinorSixth => "min6",
            ChordType::MinorSeventh => "min7",
            ChordType::MinorMajorSeventh => "minmaj7",
            ChordType::DiminishedTriad => "dim",
            ChordType::DiminishedSeventh => "dim7",
            ChordType::HalfDiminishedSeventh => "hdim7",
            ChordType::PowerDiad => "pow2",
            ChordType::PowerTriad => "pow3",
            ChordType::CustomChord => "custom",
        }
    }
}

impl Default for ChordType {
    /// The default quality is the major triad.
    fn default() -> (r: Self)
        ensures
            r == ChordType::MajorTriad,
    {
        ChordType::MajorTriad
    }
}

/// Which chord tone is voiced lowest: the root, or the first, second
/// or third tone above it.
#[derive(Debug, Clone, Copy, PartialEq, Eq, Structural)]
pub enum ChordInversion {
    Root,
    First,
    Second,
    Third,
}

impl ChordInversion {
    /// How many places the chord tones rotate left.
    pub open spec fn spec_ordinal(self) -> int {
        match self {
            ChordInversion::Root => 0,
            ChordInversion::First => 1,
            ChordInversion::Second => 2,
            ChordInversion::Third => 3,
        }
    }

    /// How many places the chord tones rotate left.
    pub fn ordinal(self) -> (r: u8)
        ensures
            r == self.spec_ordinal(),
    {
        match self {
            ChordInversion::Root => 0,
            ChordInversion::First => 1,
            ChordInversion::Second => 2,
            ChordInversion::Third => 3,
        }
    }
}

impl Default for ChordInversion {
    /// The default inversion is root position.
    fn default() -> (r: Self)
        ensures
            r == ChordInversion::Root,
    {
        ChordInversion::Root
    }
}

/// A concrete chord: a root key, a quality, an inversion, and, for a
/// custom quality, its own interval list.
#[derive(Debug, Clone, PartialEq)]
pub struct Chord {
    pub base_note: PianoKey,
    pub chord_type: ChordType,
    pub inversion: ChordInversion,
    pub intervals: Option<Vec<Interval>>,
}

impl Chord {
    /// The intervals this chord stacks above its root: its own list
    /// for a custom chord, the quality's fixed list otherwise.
    pub open spec fn spec_intervals_of(self) -> Seq<Interval> {
        if self.chord_type == ChordType::CustomChord {
            match self.intervals {
                Some(v) => v@,
                None => Seq::empty(),
            }
        } else {
            self.chord_type.spec_intervals()
        }
    }

    /// How many keys the chord sounds.
    pub open spec fn spec_n_keys(self) -> int {
        1 + self.spec_intervals_of().len() as int
    }

    /// The chord tones before inversion: the root, then the root
    /// raised by each interval in turn.
    pub open spec fn spec_raw_keys(self) -> Seq<PianoKey> {
        Seq::new(
            self.spec_n_keys() as nat,
            |i: int|
                if i == 0 {
                    self.base_note
                } else {
                    PianoKey::spec_add_steps(
                        self.base_note,
                        self.spec_intervals_of()[i - 1].spec_semitones() as nat,
                    )
                },
        )
    }

    /// A chord that can be spelled out: a custom chord carries its
    /// intervals; the root lies on the keyboard; the inversion does
    /// not exceed the number of tones; and an inversion that starts on
    /// a tone of the next octave leaves room to shift every tone one
    /// octave down.
    pub open spec fn spec_wf(self) -> bool {
        &&& self.chord_type == ChordType::CustomChord ==> self.intervals is Some
        &&& self.base_note.octave <= 8
        &&& self.inversion.spec_ordinal() <= self.spec_n_keys()
        &&& {
            let k = self.inversion.spec_ordinal();
            k == 0 || k == self.spec_n_keys() || self.spec_raw_keys()[k].octave
                <= self.base_note.octave || self.base_note.octave >= 1
        }
    }

    /// Builds a chord in the given quality and inversion over a root.
    pub fn new(chord_type: ChordType, base_note: PianoKey, inversion: ChordInversion) -> (r: Self)
        ensures
            r.base_note == base_note,
            r.chord_type == chord_type,
            r.inversion == inversion,
            r.intervals is None,
    {
        Chord { base_note, chord_type, inversion, intervals: None }
    }

    /// Gives a custom chord its interval list.
    pub fn set_intervals(self, intervals: Vec<Interval>) -> (r: Self)
        ensures
            r.base_note == self.base_note,
            r.chord_type == self.chord_type,
            r.inversion == self.inversion,
            r.intervals matches Some(v) && v@ == intervals@,
    {
        Chord {
            base_note: self.base_note,
            chord_type: self.chord_type,
            inversion: self.inversion,
            intervals: Some(intervals),
        }
    }

    /// One step of the octave correction: a tone whose octave fell
    /// below the previous tone's is pulled up to it, and a tone that
    /// would still sound below the previous one is pushed one octave
    /// higher.
    pub open spec fn spec_fix(prev: PianoKey, k: PianoKey) -> PianoKey {
        if k.octave < prev.octave {
            PianoKey { note: k.note, octave: prev.octave }
        } else if spec_key_micro_hz(k) < spec_key_micro_hz(prev) {
            PianoKey { note: k.note, octave: (prev.octave + 1) as u8 }
        } else {
            k
        }
    }

    /// The first `n` tones after the octave correction has run over
    /// them from left to right.
    pub open spec fn spec_corrected(s: Seq<PianoKey>, n: int) -> Seq<PianoKey>
        decreases n,
    {
        if n <= 1 {
            s.subrange(0, if n < 0 {
                0
            } else {
                n
            })
        } else {
            let prev = Chord::spec_corrected(s, n - 1);
            prev.push(Chord::spec_fix(prev.last(), s[n - 1]))
        }
    }

    /// The chord tones after inversion: the raw tones rotated left,
    /// shifted down an octave when the rotation starts above the root,
    /// then corrected so each tone sounds at or above its predecessor.
    pub open spec fn spec_keys(self) -> Seq<PianoKey> {
        let raw = self.spec_raw_keys();
        let k = self.inversion.spec_ordinal();
        let n = self.spec_n_keys();
        let rot = raw.subrange(k, n) + raw.subrange(0, k);
        let shifted = if rot[0].octave > self.base_note.octave {
            let diff = rot[0].octave - self.base_note.octave;
            Seq::new(n as nat, |i: int| PianoKey { note: rot[i].note, octave: (rot[i].octave - diff) as u8 })
        } else {
            rot
        };
        Chord::spec_corrected(shifted, n)
    }

    /// Builds the raw stack of tones: the root, then the root raised
    /// by each interval in turn.
    #[verifier::loop_isolation(false)]
    fn spell_raw(&self) -> (r: Vec<PianoKey>)
        requires
            self.chord_type == ChordType::CustomChord ==> self.intervals is Some,
            self.base_note.octave <= 8,
        ensures
            r@ == self.spec_raw_keys(),
            r@.len() == self.spec_n_keys(),
    {
        let ivs: Vec<Interval> = match &self.intervals {
            Some(v) => {
                if matches!(self.chord_type, ChordType::CustomChord) {
                    v.clone()
                } else {
                    self.chord_type.get_intervals()
                }
            },
            None => self.chord_type.get_intervals(),
        };
        proof {
            assert(ivs@ =~= self.spec_intervals_of());
        }
        let mut raw: Vec<PianoKey> = Vec::new();
        raw.push(self.base_note);
        let mut i: usize = 0;
        while i < ivs.len()
            invariant
                raw@.len() == i + 1,
                i <= ivs@.len(),
                forall|j: int| 0 <= j <= i ==> raw@[j] == self.spec_raw_keys()[j],
            decreases ivs@.len() - i,
        {
            raw.push(self.base_note.add_interval(ivs[i]));
            i = i + 1;
        }
        proof {
            assert(raw@ =~= self.spec_raw_keys());
        }
        raw
    }

    /// Rotates a run of keys left by `k` places.
    #[verifier::loop_isolation(false)]
    fn rotate_left_keys(raw: &Vec<PianoKey>, k: usize) -> (r: Vec<PianoKey>)
        requires
            k <= raw@.len(),
        ensures
            r@ == raw@.subrange(k as int, raw@.len() as int) + raw@.subrange(0, k as int),
            r@.len() == raw@.len(),
    {
        let n = raw.len();
        let mut rot: Vec<PianoKey> = Vec::new();
        let mut i: usize = k;
        while i < n
            invariant
                k <= i <= n,
                rot@ =~= raw@.subrange(k as int, i as int),
            decreases n - i,
        {
            rot.push(raw[i]);
            i = i + 1;
        }
        let mut i: usize = 0;
        while i < k
            invariant
                i <= k,
                rot@ =~= raw@.subrange(k as int, n as int) + raw@.subrange(0, i as int),
            decreases k - i,
        {
            rot.push(raw[i]);
            i = i + 1;
        }
        rot
    }

    /// Walks a run of tones left to right, pulling each tone's octave
    /// up to its predecessor's, or one above it, whenever it would
    /// otherwise sound below the predecessor.
    #[verifier::loop_isolation(false)]
    fn correct_octaves(keys: Vec<PianoKey>) -> (r: Vec<PianoKey>)
        requires
            keys@.len() >= 1,
            forall|j: int| 0 <= j < keys@.len() ==> (#[trigger] keys@[j]).octave <= 9,
        ensures
            r@ == Chord::spec_corrected(keys@, keys@.len() as int),
            r@.len() == keys@.len(),
            forall|i: int| 0 <= i < r@.len() ==> (#[trigger] r@[i]).octave <= 10,
    {
        let ghost shifted = keys@;
        let n = keys.len();
        let mut rot = keys;
        let mut i: usize = 1;
        while i < n
            invariant
                1 <= i <= n,
                rot@.len() == n,
                rot@.subrange(0, i as int) =~= Chord::spec_corrected(shifted, i as int),
                forall|j: int| i <= j < n ==> rot@[j] == shifted[j],
                forall|j: int| 0 <= j < i ==> (#[trigger] rot@[j]).octave <= 10,
            decreases n - i,
        {
            let prev = rot[i - 1];
            let cur = rot[i];
            proof {
                assert(prev == Chord::spec_corrected(shifted, i as int).last());
                assert(cur == keys@[i as int]);
                assert(cur.octave <= 9);
            }
            if cur.octave < prev.octave {
                rot.set(i, PianoKey { note: cur.note, octave: prev.octave });
            } else {
                let cur_hz = Pitch::from_piano_key(cur);
                let prev_hz = Pitch::from_piano_key(prev);
                if cur_hz.micro_hz() < prev_hz.micro_hz() {
                    proof {
                        if cur.octave > prev.octave {
                            crate::musictheory::pitch::lemma_higher_octave_higher_pitch(prev, cur);
                        }
                        assert(cur.octave == prev.octave);
                    }
                    rot.set(i, PianoKey { note: cur.note, octave: prev.octave + 1 });
                }
            }
            proof {
                assert(rot@.subrange(0, i as int + 1) =~= Chord::spec_corrected(
                    shifted,
                    i as int + 1,
                ));
            }
            i = i + 1;
        }
        proof {
            assert(rot@ =~= Chord::spec_corrected(shifted, n as int));
        }
        rot
    }

    /// Spells out the chord's keys, lowest voice first: the raw tones
    /// rotated by the inversion, shifted back down when the rotation
    /// starts above the root's octave, then octave-corrected so the
    /// voices never descend.
    #[verifier::loop_isolation(false)]
    #[verifier::rlimit(60)]
    pub fn get_keys(&self) -> (r: Vec<PianoKey>)
        requires
            self.spec_wf(),
        ensures
            r@ == self.spec_keys(),
            r@.len() == self.spec_n_keys(),
            forall|i: int| 0 <= i < r@.len() ==> (#[trigger] r@[i]).octave <= 10,
    {
        let raw = self.spell_raw();
        let n = raw.len();
        let k = self.inversion.ordinal() as usize;
        let mut rot = Chord::rotate_left_keys(&raw, k);
        let ghost rot_spec = self.spec_raw_keys().subrange(
            self.inversion.spec_ordinal(),
            self.spec_n_keys(),
        ) + self.spec_raw_keys().subrange(0, self.inversion.spec_ordinal());
        proof {
            assert(rot@ =~= rot_spec);
            assert forall|j: int| 0 <= j < n implies self.base_note.octave <= (
            #[trigger] rot_spec[j]).octave <= self.base_note.octave + 1 by {
                if j < n - k {
                    assert(rot_spec[j] == self.spec_raw_keys()[k + j]);
                    if k + j >= 1 {
                        lemma_raw_key_octave(*self, k + j);
                    }
                } else {
                    assert(rot_spec[j] == self.spec_raw_keys()[j - (n - k)]);
                    if j - (n - k) >= 1 {
                        lemma_raw_key_octave(*self, j - (n - k));
                    }
                }
            }
        }
        if rot[0].octave > self.base_note.octave {
            proof {
                if k == 0 || k == n {
                    assert(rot@[0] == self.spec_raw_keys()[0]);
                    assert(false);
                }
                assert(self.base_note.octave >= 1);
            }
            let diff = rot[0].octave - self.base_note.octave;
            let mut i: usize = 0;
            let ghost before = rot@;
            while i < n
                invariant
                    i <= n,
                    rot@.len() == n,
                    diff == 1,
                    forall|j: int|
                        0 <= j < n ==> (#[trigger] before[j]).octave >= self.base_note.octave,
                    self.base_note.octave >= 1,
                    forall|j: int| i <= j < n ==> rot@[j] == before[j],
                    forall|j: int|
                        0 <= j < i ==> rot@[j] == (PianoKey {
                            note: before[j].note,
                            octave: (before[j].octave - diff) as u8,
                        }),
                decreases n - i,
            {
                let cur = rot[i];
                rot.set(i, PianoKey { note: cur.note, octave: cur.octave - diff });
                i = i + 1;
            }
            proof {
                assert(rot@ =~= Seq::new(
                    n as nat,
                    |j: int| PianoKey {
                        note: before[j].note,
                        octave: (before[j].octave - diff) as u8,
                    },
                ));
            }
        }
        let ghost shifted = rot@;
        proof {
            assert(forall|j: int| 0 <= j < n ==> (#[trigger] shifted[j]).octave <= 9);
            assert(shifted =~= (if rot_spec[0].octave > self.base_note.octave {
                let diff = rot_spec[0].octave - self.base_note.octave;
                Seq::new(
                    n as nat,
                    |i: int| PianoKey {
                        note: rot_spec[i].note,
                        octave: (rot_spec[i].octave - diff) as u8,
                    },
                )
            } else {
                rot_spec
            }));
        }
        let r = Chord::correct_octaves(rot);
        proof {
            assert(r@ == self.spec_keys());
        }
        r
    }

    /// The names of a run of keys, each followed by one space.
    pub open spec fn spec_key_names_prefix(keys: Seq<PianoKey>, n: nat) -> Seq<char>
        decreases n,
    {
        if n == 0 || n > keys.len() {
            Seq::empty()
        } else {
            Chord::spec_key_names_prefix(keys, (n - 1) as nat) + keys[n - 1].spec_name() + seq![' ']
        }
    }

    /// Writes the chord's keys between bars, such as `| C4 E4 G4 |`.
    #[verifier::loop_isolation(false)]
    pub fn get_keys_string(&self) -> (r: String)
        requires
            self.spec_wf(),
        ensures
            r@ == "| "@ + Chord::spec_key_names_prefix(
                self.spec_keys(),
                self.spec_keys().len() as nat,
            ) + "|"@,
    {
        let keys = self.get_keys();
        let mut r = String::from_str("| ");
        let mut i: usize = 0;
        while i < keys.len()
            invariant
                i <= keys@.len(),
                r@ == "| "@ + Chord::spec_key_names_prefix(keys@, i as nat),
            decreases keys@.len() - i,
        {
            let name = keys[i].name_string();
            r.append(name.as_str());
            r.append(" ");
            proof {
                reveal_strlit(" ");
                assert(r@ =~= "| "@ + Chord::spec_key_names_prefix(keys@, (i + 1) as nat));
            }
            i = i + 1;
        }
        r.append("|");
        r
    }
}

impl Default for Chord {
    /// The default chord is a major triad on the lowest C, in root
    /// position.
    fn default() -> (r: Self)
        ensures
            r.base_note == (PianoKey {
                note: crate::musictheory::note::Note {
                    accidental: None,
                    letter: crate::musictheory::note::NoteLetter::C,
                },
                octave: 0,
            }),
            r.chord_type == ChordType::MajorTriad,
            r.inversion == ChordInversion::Root,
            r.intervals is None,
    {
        Chord {
            base_note: PianoKey::default(),
            chord_type: ChordType::MajorTriad,
            inversion: ChordInversion::Root,
            intervals: None,
        }
    }
}

/// Raising the root by at most one octave's worth of semitones lands
/// between the root's octave and one octave up.
proof fn lemma_raw_key_octave(c: Chord, i: int)
    requires
        1 <= i < c.spec_n_keys(),
        c.base_note.octave <= 8,
    ensures
        c.spec_raw_keys()[i].octave <= c.base_note.octave + 1,
        c.spec_raw_keys()[i].octave >= c.base_note.octave,
{
    let iv = c.spec_intervals_of()[i - 1];
    let steps = iv.spec_semitones() as nat;
    lemma_add_steps_pos(c.base_note, steps);
    let k = c.spec_raw_keys()[i];
    assert(k == PianoKey::spec_add_steps(c.base_note, steps));
    if steps == 0 {
        assert(k == c.base_note);
    } else {
        assert(k.spec_canonical());
        assert(0 <= k.note.spec_pc() < 12);
        assert(12 * k.octave <= k.spec_pos());
        assert(k.spec_pos() <= c.base_note.spec_pos() + 12);
        assert(-1 <= c.base_note.note.spec_pc() < 12);
    }
}

/// A chromatic walk of `n` steps raises the position by at most `n`,
/// never lowers it or the octave, and for at least one step always
/// lands on a canonical key.
proof fn lemma_add_steps_pos(k: PianoKey, n: nat)
    requires
        k.octave <= 16,
        n <= 12,
    ensures
        PianoKey::spec_add_steps(k, n).spec_pos() <= k.spec_pos() + n,
        PianoKey::spec_add_steps(k, n).spec_pos() >= k.spec_pos(),
        PianoKey::spec_add_steps(k, n).octave >= k.octave,
        n >= 1 ==> PianoKey::spec_add_steps(k, n).spec_canonical(),
    decreases n,
{
    if n > 0 {
        lemma_add_steps_pos(k, (n - 1) as nat);
        let prev = PianoKey::spec_add_steps(k, (n - 1) as nat);
        assert(-1 <= prev.note.spec_pc() < 12);
        assert(12 * prev.octave <= prev.spec_pos() + 1);
        super::piano_key::lemma_inc_key(prev);
    }
}

} // verus!
