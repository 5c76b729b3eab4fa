use vstd::prelude::*;
use vstd::string::*;

use super::interval::Interval;
use super::piano_key::PianoKey;
use super::mode::{Mode, PentatonicMode};
use super::scale::Scale;

verus! {

/// A concrete scale instance: a base key, a scale, and how many
/// octaves the key spans.
#[derive(Debug, Clone, Copy, PartialEq, Eq, Structural)]
pub struct Key {
    pub scale: Scale,
    pub base_note: PianoKey,
    pub octaves: u8,
}

/// The total width of the first `k` steps of a pattern, in semitones.
pub open spec fn spec_prefix_span(ivs: Seq<Interval>, k: int) -> int
    decreases k,
{
    if k <= 0 {
        0
    } else {
        spec_prefix_span(ivs, k - 1) + ivs[k - 1].spec_semitones()
    }
}

/// A prefix of non-negative steps spans no less than nothing and no
/// more than any longer prefix.
proof fn lemma_prefix_mono(ivs: Seq<Interval>, k: int, m: int)
    requires
        0 <= k <= m <= ivs.len(),
    ensures
        spec_prefix_span(ivs, k) <= spec_prefix_span(ivs, m),
        0 <= spec_prefix_span(ivs, k),
    decreases m,
{
    if m > k {
        lemma_prefix_mono(ivs, k, m - 1);
        assert(ivs[m - 1].spec_semitones() >= 0);
    } else if k > 0 {
        lemma_prefix_mono(ivs, k - 1, k - 1);
        assert(ivs[k - 1].spec_semitones() >= 0);
    }
}

/// No prefix of any scale pattern spans more than one octave: the
/// step patterns all add up to at most twelve semitones.
#[verifier::rlimit(100)]
pub proof fn lemma_scale_prefix_span(s: Scale, k: int)
    requires
        0 <= k <= s.spec_intervals().len(),
    ensures
        0 <= spec_prefix_span(s.spec_intervals(), k) <= 12,
{
    let ivs = s.spec_intervals();
    lemma_prefix_mono(ivs, k, ivs.len() as int);
    assert(spec_prefix_span(ivs, ivs.len() as int) <= 12) by {
        reveal_with_fuel(spec_prefix_span, 13);
        match s {
            Scale::Chromatic => {
                assert(spec_prefix_span(ivs, 12) == 12);
            },
            Scale::Tetratonic => {
                assert(spec_prefix_span(ivs, 4) == 12);
            },
            Scale::Diatonic(mode) => {
                match mode {
                    Mode::Ionian => {
                        assert(spec_prefix_span(ivs, 7) == 12);
                    },
                    Mode::Dorian => {
                        assert(spec_prefix_span(ivs, 7) == 12);
                    },
                    Mode::Phrygian => {
                        assert(spec_prefix_span(ivs, 7) == 12);
                    },
                    Mode::Lydian => {
                        assert(spec_prefix_span(ivs, 7) == 12);
                    },
                    Mode::Mixolydian => {
                        assert(spec_prefix_span(ivs, 7) == 12);
                    },
                    Mode::Aeolian => {
                        assert(spec_prefix_span(ivs, 7) == 12);
                    },
                    Mode::Locrian => {
                        assert(spec_prefix_span(ivs, 7) == 12);
                    },
                }
            },
            Scale::Pentatonic(mode) => {
                match mode {
                    PentatonicMode::Major => {
                        assert(spec_prefix_span(ivs, 5) == 12);
                    },
                    PentatonicMode::Suspended => {
                        assert(spec_prefix_span(ivs, 5) == 12);
                    },
                    PentatonicMode::BluesMinor => {
                        assert(spec_prefix_span(ivs, 5) == 12);
                    },
                    PentatonicMode::BluesMajor => {
                        assert(spec_prefix_span(ivs, 5) == 12);
                    },
                    PentatonicMode::Minor => {
                        assert(spec_prefix_span(ivs, 5) == 12);
                    },
                }
            },
        }
    };
}

/// Every step of every scale pattern is at least one semitone wide.
pub proof fn lemma_scale_steps_positive(s: Scale)
    ensures
        forall|i: int|
            0 <= i < s.spec_intervals().len() ==> #[trigger] s.spec_intervals()[i].spec_semitones()
                >= 1,
{
    assert forall|i: int|
        0 <= i < s.spec_intervals().len() implies #[trigger] s.spec_intervals()[i].spec_semitones()
        >= 1 by {
        match s {
            Scale::Chromatic => {},
            Scale::Tetratonic => {},
            Scale::Diatonic(mode) => {
                let k = (i + mode.spec_ordinal()) % 7;
                assert(0 <= k < 7);
            },
            Scale::Pentatonic(mode) => {
                let k = (i + mode.spec_ordinal()) % 5;
                assert(0 <= k < 5);
            },
        }
    }
}

impl Key {
    /// The walk that spells out a key: the base key, then for each of
    /// `n` steps the previous key raised by the scale's next interval,
    /// cycling through the pattern once per octave.
    pub open spec fn spec_walk(base: PianoKey, ivs: Seq<Interval>, n: nat) -> Seq<PianoKey>
        decreases n,
    {
        if n == 0 {
            seq![base]
        } else {
            let prev = Key::spec_walk(base, ivs, (n - 1) as nat);
            if ivs.len() == 0 {
                prev
            } else {
                prev.push(
                    PianoKey::spec_add_steps(
                        prev.last(),
                        ivs[((n - 1) as int) % (ivs.len() as int)].spec_semitones() as nat,
                    ),
                )
            }
        }
    }

    /// The full sequence of keys this key spells: one walk step per
    /// scale interval per octave, ending on the octave-shifted root.
    pub open spec fn spec_all_keys(self) -> Seq<PianoKey> {
        Key::spec_walk(
            self.base_note,
            self.scale.spec_intervals(),
            (self.octaves as nat) * self.scale.spec_intervals().len() as nat,
        )
    }

    /// Builds a key from its scale, base note, and octave span.
    pub fn new(scale: Scale, base_note: PianoKey, octaves: u8) -> (r: Self)
        ensures
            r == (Key { scale, base_note, octaves }),
    {
        Key { scale, base_note, octaves }
    }

    /// Spells out the key: an ordered sequence of piano keys that
    /// walks the base note up by the scale's successive intervals,
    /// once per octave, closing with one terminal key one octave
    /// above the previous cycle's start.  No spelled key rises more
    /// than the requested octave span above the base.
    #[verifier::rlimit(100)]
    pub fn all_keys(&self) -> (r: Vec<PianoKey>)
        requires
            self.base_note.octave as int + self.octaves as int <= 9,
        ensures
            r@ == self.spec_all_keys(),
            r@.len() == 1 + (self.octaves as int) * self.scale.spec_intervals().len(),
            r@[0] == self.base_note,
            self.base_note.spec_canonical() ==> forall|i: int|
                0 <= i < r@.len() ==> (#[trigger] r@[i]).spec_canonical(),
            forall|i: int|
                1 <= i < r@.len() ==> (#[trigger] r@[i]).spec_canonical(),
            forall|i: int|
                0 <= i < r@.len() ==> (#[trigger] r@[i]).octave as int <= self.base_note.octave
                    + self.octaves,
    {
        let ivs = self.scale.get_intervals();
        proof {
            lemma_scale_steps_positive(self.scale);
            match self.scale {
                Scale::Chromatic => {
                    assert(self.scale.spec_intervals().len() == 12);
                },
                Scale::Tetratonic => {
                    assert(self.scale.spec_intervals().len() == 4);
                },
                Scale::Diatonic(mode) => {
                    assert(self.scale.spec_intervals().len() == 7);
                },
                Scale::Pentatonic(mode) => {
                    assert(self.scale.spec_intervals().len() == 5);
                },
            }
        }
        let len = ivs.len();
        let ghost bound = self.base_note.spec_pos() + 12 * (self.octaves as int);
        let mut r: Vec<PianoKey> = Vec::new();
        r.push(self.base_note);
        let mut count: usize = 0;
        let mut o: u8 = 0;
        while o < self.octaves
            invariant
                ivs@ == self.scale.spec_intervals(),
                len == ivs@.len(),
                0 < len <= 12,
                bound == self.base_note.spec_pos() + 12 * (self.octaves as int),
                self.base_note.octave as int + self.octaves as int <= 9,
                forall|j: int|
                    0 <= j < ivs@.len() ==> #[trigger] ivs@[j].spec_semitones() >= 1,
                o <= self.octaves,
                count == o as int * len,
                r@ == Key::spec_walk(self.base_note, ivs@, count as nat),
                r@.len() == count + 1,
                r@[0] == self.base_note,
                r@[r@.len() - 1].spec_pos() <= self.base_note.spec_pos() + 12 * o,
                forall|j: int| 0 <= j < r@.len() ==> (#[trigger] r@[j]).spec_pos() <= bound,
                forall|j: int| 1 <= j < r@.len() ==> (#[trigger] r@[j]).spec_canonical(),
            decreases self.octaves - o,
        {
            let mut k: usize = 0;
            while k < len
                invariant
                    ivs@ == self.scale.spec_intervals(),
                    len == ivs@.len(),
                    0 < len <= 12,
                    bound == self.base_note.spec_pos() + 12 * (self.octaves as int),
                    self.base_note.octave as int + self.octaves as int <= 9,
                    forall|j: int|
                        0 <= j < ivs@.len() ==> #[trigger] ivs@[j].spec_semitones() >= 1,
                    o < self.octaves,
                    k <= len,
                    count == o as int * len + k,
                    r@ == Key::spec_walk(self.base_note, ivs@, count as nat),
                    r@.len() == count + 1,
                    r@[0] == self.base_note,
                    r@[r@.len() - 1].spec_pos() <= self.base_note.spec_pos() + 12 * o
                        + spec_prefix_span(ivs@, k as int),
                    forall|j: int| 0 <= j < r@.len() ==> (#[trigger] r@[j]).spec_pos() <= bound,
                    forall|j: int| 1 <= j < r@.len() ==> (#[trigger] r@[j]).spec_canonical(),
                decreases len - k,
            {
                let last = r[r.len() - 1];
                proof {
                    lemma_scale_prefix_span(self.scale, k as int);
                    lemma_scale_prefix_span(self.scale, k as int + 1);
                    assert(-1 <= last.note.spec_pc() < 12);
                    assert(12 * last.octave <= last.spec_pos() + 1);
                    assert(last.octave < 254);
                }
                let next = last.add_interval(ivs[k]);
                r.push(next);
                proof {
                    vstd::arithmetic::div_mod::lemma_mod_multiples_vanish(
                        o as int,
                        k as int,
                        len as int,
                    );
                    vstd::arithmetic::div_mod::lemma_small_mod(k as nat, len as nat);
                    vstd::arithmetic::mul::lemma_mul_is_commutative(o as int, len as int);
                    assert(count as int % len as int == k as int);
                    assert(next.spec_pos() <= self.base_note.spec_pos() + 12 * o
                        + spec_prefix_span(ivs@, k as int + 1));
                    assert(next.spec_pos() <= bound);
                    assert(next.spec_canonical());
                }
                count = count + 1;
                k = k + 1;
            }
            proof {
                lemma_scale_prefix_span(self.scale, len as int);
                vstd::arithmetic::mul::lemma_mul_is_distributive_add_other_way(
                    len as int,
                    o as int,
                    1,
                );
                vstd::arithmetic::mul::lemma_mul_basics(len as int);
            }
            o = o + 1;
        }
        proof {
            lemma_walk_octave_bound(r@, self.base_note, self.octaves as int);
        }
        r
    }

    /// The names of a run of keys, each followed by one space.
    pub open spec fn spec_names_prefix(keys: Seq<PianoKey>, n: nat) -> Seq<char>
        decreases n,
    {
        if n == 0 || n > keys.len() {
            Seq::empty()
        } else {
            Key::spec_names_prefix(keys, (n - 1) as nat) + keys[n - 1].note.spec_name() + seq![' ']
        }
    }

    /// Writes the key's spelled-out note names, such as
    /// `[ C D E F G A B C ]`.
    pub fn name_string(&self) -> (r: String)
        requires
            self.base_note.octave as int + self.octaves as int <= 9,
        ensures
            r@ == "[ "@ + Key::spec_names_prefix(
                self.spec_all_keys(),
                self.spec_all_keys().len(),
            ) + "]"@,
    {
        let keys = self.all_keys();
        let mut r = String::from_str("[ ");
        let mut i: usize = 0;
        while i < keys.len()
            invariant
                keys@ == self.spec_all_keys(),
                i <= keys@.len(),
                r@ == "[ "@ + Key::spec_names_prefix(keys@, i as nat),
            decreases keys@.len() - i,
        {
            let name = keys[i].note.name_string();
            r.append(name.as_str());
            r.append(" ");
            proof {
                reveal_strlit(" ");
                assert(r@ =~= "[ "@ + Key::spec_names_prefix(keys@, (i + 1) as nat));
            }
            i = i + 1;
        }
        r.append("]");
        r
    }
}

impl Default for Key {
    /// The default key is one octave of C major from middle C.
    fn default() -> (r: Self)
        ensures
            r.scale == Scale::Diatonic(crate::musictheory::mode::Mode::Ionian),
            r.base_note == (PianoKey {
                note: crate::musictheory::note::Note {
                    accidental: None,
                    letter: crate::musictheory::note::NoteLetter::C,
                },
                octave: 4,
            }),
            r.octaves == 1,
    {
        let base = PianoKey {
            note: crate::musictheory::note::Note {
                accidental: None,
                letter: crate::musictheory::note::NoteLetter::C,
            },
            octave: 4,
        };
        Key {
            scale: Scale::Diatonic(crate::musictheory::mode::Mode::Ionian),
            base_note: base,
            octaves: 1,
        }
    }
}

/// Walked keys whose positions stay within an octave span of the base
/// key stay within that many octaves of it: each walked key is
/// canonical, and the base itself opens the walk.
#[verifier::rlimit(100)]
proof fn lemma_walk_octave_bound(keys: Seq<PianoKey>, base: PianoKey, octaves: int)
    requires
        0 <= octaves,
        keys.len() >= 1,
        keys[0] == base,
        forall|j: int| 1 <= j < keys.len() ==> (#[trigger] keys[j]).spec_canonical(),
        forall|j: int|
            0 <= j < keys.len() ==> (#[trigger] keys[j]).spec_pos() <= base.spec_pos() + 12
                * octaves,
    ensures
        forall|i: int|
            0 <= i < keys.len() ==> (#[trigger] keys[i]).octave as int <= base.octave + octaves,
{
    assert forall|i: int|
        0 <= i < keys.len() implies (#[trigger] keys[i]).octave as int <= base.octave
        + octaves by {
        if i >= 1 {
            assert(0 <= keys[i].note.spec_pc() < 12);
            assert(-1 <= base.note.spec_pc() < 12);
            assert(12 * keys[i].octave <= keys[i].spec_pos());
        }
    }
}

} // verus!
