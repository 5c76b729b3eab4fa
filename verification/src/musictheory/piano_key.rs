use vstd::prelude::*;
use vstd::string::*;

use crate::error::MusicError;
use super::interval::Interval;
use super::note::{Accidental, Note, NoteLetter};

verus! {

/// An absolute pitch on the keyboard: a note plus its octave.
#[derive(Debug, Clone, Copy, PartialEq, Eq, Structural)]
pub struct PianoKey {
    pub note: Note,
    pub octave: u8,
}

/// The value of a decimal digit character, if it is one.
pub open spec fn spec_digit(c: char) -> Option<u8> {
    if c == '0' {
        Some(0u8)
    } else if c == '1' {
        Some(1u8)
    } else if c == '2' {
        Some(2u8)
    } else if c == '3' {
        Some(3u8)
    } else if c == '4' {
        Some(4u8)
    } else if c == '5' {
        Some(5u8)
    } else if c == '6' {
        Some(6u8)
    } else if c == '7' {
        Some(7u8)
    } else if c == '8' {
        Some(8u8)
    } else if c == '9' {
        Some(9u8)
    } else {
        None
    }
}

/// The character for a decimal digit value below ten.
pub open spec fn spec_digit_char(d: int) -> char {
    if d == 0 {
        '0'
    } else if d == 1 {
        '1'
    } else if d == 2 {
        '2'
    } else if d == 3 {
        '3'
    } else if d == 4 {
        '4'
    } else if d == 5 {
        '5'
    } else if d == 6 {
        '6'
    } else if d == 7 {
        '7'
    } else if d == 8 {
        '8'
    } else {
        '9'
    }
}

/// Reads one decimal digit character.
pub fn digit_of_char(c: char) -> (r: Option<u8>)
    ensures
        r == spec_digit(c),
{
    match c {
        '0' => Some(0),
        '1' => Some(1),
        '2' => Some(2),
        '3' => Some(3),
        '4' => Some(4),
        '5' => Some(5),
        '6' => Some(6),
        '7' => Some(7),
        '8' => Some(8),
        '9' => Some(9),
        _ => None,
    }
}

/// Writes one decimal digit below ten.
pub fn digit_str(d: u8) -> (r: &'static str)
    requires
        d <= 9,
    ensures
        r@ == seq![spec_digit_char(d as int)],
{
    proof {
        reveal_strlit("0");
        reveal_strlit("1");
        reveal_strlit("2");
        reveal_strlit("3");
        reveal_strlit("4");
        reveal_strlit("5");
        reveal_strlit("6");
        reveal_strlit("7");
        reveal_strlit("8");
        reveal_strlit("9");
    }
    match d {
        0 => "0",
        1 => "1",
        2 => "2",
        3 => "3",
        4 => "4",
        5 => "5",
        6 => "6",
        7 => "7",
        8 => "8",
        _ => "9",
    }
}

impl PianoKey {
    /// The key's absolute chromatic position: twelve steps per octave
    /// plus the note's distance from C.
    pub open spec fn spec_pos(self) -> int {
        12 * self.octave + self.note.spec_pc()
    }

    /// A key is canonical when its note is: these are exactly the keys
    /// that the chromatic walk visits.
    pub open spec fn spec_canonical(self) -> bool {
        self.note.spec_canonical()
    }

    /// One chromatic step up; the octave advances when a natural B is
    /// passed.
    pub open spec fn spec_inc(self) -> PianoKey {
        match self.note.accidental {
            Some(Accidental::Sharp) => PianoKey {
                note: Note { accidental: None, letter: self.note.letter.spec_inc() },
                octave: self.octave,
            },
            Some(Accidental::Flat) => PianoKey {
                note: Note { accidental: None, letter: self.note.letter },
                octave: self.octave,
            },
            None => if self.note.letter == NoteLetter::B {
                PianoKey {
                    note: Note { accidental: None, letter: NoteLetter::C },
                    octave: (self.octave + 1) as u8,
                }
            } else if self.note.letter == NoteLetter::E {
                PianoKey {
                    note: Note { accidental: None, letter: NoteLetter::F },
                    octave: self.octave,
                }
            } else {
                PianoKey {
                    note: Note { accidental: Some(Accidental::Sharp), letter: self.note.letter },
                    octave: self.octave,
                }
            },
        }
    }

    /// The key reached from `k` by `n` chromatic steps.
    pub open spec fn spec_add_steps(k: PianoKey, n: nat) -> PianoKey
        decreases n,
    {
        if n == 0 {
            k
        } else {
            PianoKey::spec_add_steps(k, (n - 1) as nat).spec_inc()
        }
    }

    /// How a key name parses: the last character is the octave digit,
    /// at most eight, and everything before it names the note.
    pub open spec fn spec_parse(s: Seq<char>) -> Option<PianoKey> {
        if s.len() == 0 {
            None
        } else {
            match spec_digit(s[s.len() - 1]) {
                None => None,
                Some(octave) => match Note::spec_parse(s.subrange(0, s.len() - 1)) {
                    None => None,
                    Some(note) => if octave <= 8 {
                        Some(PianoKey { note, octave })
                    } else {
                        None
                    },
                },
            }
        }
    }

    /// Reads a key name such as `C4`, `Gb2` or `F#8`.
    ///
    /// The octave digit is read first; a bad note name is reported
    /// before an octave above eight is.  An octave failure carries
    /// the rejected key name; a note failure carries its note part.
    pub fn from_str(s: &str) -> (r: Result<Self, MusicError>)
        ensures
            r is Ok <==> PianoKey::spec_parse(s@) is Some,
            r is Ok ==> r->Ok_0 == PianoKey::spec_parse(s@)->Some_0,
            s@.len() == 0 || spec_digit(s@[s@.len() - 1]) is None ==> (r matches Err(e)
                && e matches MusicError::InvalidOctave(t) && t@ == s@),
            s@.len() > 0 && (spec_digit(s@[s@.len() - 1]) matches Some(d) && Note::spec_parse(
                s@.subrange(0, s@.len() - 1),
            ) is Some && d > 8) ==> (r matches Err(e) && e matches MusicError::InvalidOctave(t)
                && t@ == s@),
    {
        let n = s.unicode_len();
        if n == 0 {
            return Err(MusicError::InvalidOctave(String::from_str(s)));
        }
        let octave = match digit_of_char(s.get_char(n - 1)) {
            Some(d) => d,
            None => {
                return Err(MusicError::InvalidOctave(String::from_str(s)));
            },
        };
        let note_part = s.substring_char(0, n - 1);
        let note = match Note::from_str(note_part) {
            Ok(note) => note,
            Err(e) => {
                return Err(e);
            },
        };
        if octave <= 8 {
            Ok(PianoKey { note, octave })
        } else {
            Err(MusicError::InvalidOctave(String::from_str(s)))
        }
    }

    /// Reads a key name such as `C4`, `Gb2` or `F#8`; an octave
    /// failure carries the rejected key name.
    pub fn new(s: &str) -> (r: Result<Self, MusicError>)
        ensures
            r is Ok <==> PianoKey::spec_parse(s@) is Some,
            r is Ok ==> r->Ok_0 == PianoKey::spec_parse(s@)->Some_0,
            s@.len() == 0 || spec_digit(s@[s@.len() - 1]) is None ==> (r matches Err(e)
                && e matches MusicError::InvalidOctave(t) && t@ == s@),
            s@.len() > 0 && (spec_digit(s@[s@.len() - 1]) matches Some(d) && Note::spec_parse(
                s@.subrange(0, s@.len() - 1),
            ) is Some && d > 8) ==> (r matches Err(e) && e matches MusicError::InvalidOctave(t)
                && t@ == s@),
    {
        Self::from_str(s)
    }

    /// The highest octave a key name may carry.
    pub fn max_octave() -> (r: u8)
        ensures
            r == 8,
    {
        8
    }

    /// Steps this key up by one chromatic step.
    pub fn inc(&mut self)
        requires
            !(old(self).note.accidental is None && old(self).note.letter == NoteLetter::B && old(
                self,
            ).octave == u8::MAX),
        ensures
            *final(self) == old(self).spec_inc(),
    {
        match self.note.accidental {
            Some(Accidental::Sharp) => {
                self.note.accidental = None;
                self.note.letter = self.note.letter.inc();
            },
            Some(Accidental::Flat) => {
                self.note.accidental = None;
            },
            None => {
                if matches!(self.note.letter, NoteLetter::B) {
                    self.octave = self.octave + 1;
                    self.note.letter = self.note.letter.inc();
                } else if matches!(self.note.letter, NoteLetter::E) {
                    self.note.letter = self.note.letter.inc();
                } else {
                    self.note.accidental = Some(Accidental::Sharp);
                }
            },
        }
    }

    /// The key reached by walking up by a whole interval, one chromatic
    /// step at a time.
    pub fn add_interval(self, rhs: Interval) -> (r: PianoKey)
        requires
            self.octave < 254,
        ensures
            r == PianoKey::spec_add_steps(self, rhs.spec_semitones() as nat),
            r.spec_pos() <= self.spec_pos() + rhs.spec_semitones(),
            rhs.spec_semitones() > 0 ==> r.spec_canonical(),
    {
        let k: u8 = rhs.semitones();
        let mut ret = self;
        let mut i: u8 = 0;
        while i < k
            invariant
                i <= k <= 12,
                ret == PianoKey::spec_add_steps(self, i as nat),
                self.octave < 254,
                ret.spec_pos() <= self.spec_pos() + i,
                i > 0 ==> ret.spec_canonical(),
            decreases k - i,
        {
            proof {
                lemma_inc_key(ret);
                assert(ret.octave < 255) by {
                    assert(12 * ret.octave <= ret.spec_pos() + 1);
                };
            }
            ret.inc();
            i = i + 1;
        }
        ret
    }

    /// The chromatic distance between two keys: the number of single
    /// steps that takes the lower to the higher.
    pub fn get_distance(&self, piano_key: PianoKey) -> (r: i32)
        requires
            self.spec_canonical(),
            piano_key.spec_canonical(),
        ensures
            r == if self.spec_pos() >= piano_key.spec_pos() {
                self.spec_pos() - piano_key.spec_pos()
            } else {
                piano_key.spec_pos() - self.spec_pos()
            },
    {
        let from_note: PianoKey;
        let to_note: PianoKey;

        if self.octave != piano_key.octave {
            if self.octave > piano_key.octave {
                from_note = piano_key;
                to_note = *self;
            } else {
                from_note = *self;
                to_note = piano_key;
            }
        } else {
            let self_distance_from_c = self.note.interval_from_c().semitones() as i32;
            let other_distance_from_c = piano_key.note.interval_from_c().semitones() as i32;
            let distance_between_note = self_distance_from_c - other_distance_from_c;
            if distance_between_note > 0 {
                from_note = piano_key;
                to_note = *self;
            } else {
                from_note = *self;
                to_note = piano_key;
            }
        }
        assert(from_note.spec_pos() <= to_note.spec_pos());

        let mut distance: i32 = 0;
        let mut temp_note = from_note;
        while temp_note != to_note
            invariant
                temp_note.spec_canonical(),
                to_note.spec_canonical(),
                temp_note.spec_pos() <= to_note.spec_pos(),
                distance == temp_note.spec_pos() - from_note.spec_pos(),
            decreases to_note.spec_pos() - temp_note.spec_pos(),
        {
            proof {
                if temp_note.spec_pos() == to_note.spec_pos() {
                    lemma_pos_injective_canonical(temp_note, to_note);
                }
                lemma_inc_key(temp_note);
                assert(temp_note.octave < 255 || !(temp_note.note.accidental is None
                    && temp_note.note.letter == NoteLetter::B)) by {
                    assert(12 * to_note.octave <= to_note.spec_pos());
                };
            }
            temp_note.inc();
            distance = distance + 1;
        }
        distance
    }

    /// The key's name: the note's name, then the octave in decimal.
    pub open spec fn spec_name(self) -> Seq<char> {
        self.note.spec_name() + spec_decimal_string(self.octave as int)
    }

    /// Writes the key's name, such as `A#4`.
    pub fn name_string(self) -> (r: String)
        ensures
            r@ == self.spec_name(),
    {
        let mut r = self.note.name_string();
        let oct = decimal_string(self.octave as u64);
        r.append(oct.as_str());
        r
    }
}

/// The decimal numeral for a non-negative value.
pub open spec fn spec_decimal_string(n: int) -> Seq<char>
    decreases n,
{
    if n < 0 {
        Seq::empty()
    } else if n < 10 {
        seq![spec_digit_char(n)]
    } else {
        spec_decimal_string(n / 10) + seq![spec_digit_char(n % 10)]
    }
}

/// Writes a number in decimal.
pub fn decimal_string(n: u64) -> (r: String)
    ensures
        r@ == spec_decimal_string(n as int),
    decreases n,
{
    if n < 10 {
        String::from_str(digit_str(n as u8))
    } else {
        let mut r = decimal_string(n / 10);
        r.append(digit_str((n % 10) as u8));
        r
    }
}

impl Default for PianoKey {
    /// The default key is C0, the lowest key of the keyboard.
    fn default() -> (r: Self)
        ensures
            r == (PianoKey {
                note: Note { accidental: None, letter: NoteLetter::C },
                octave: 0,
            }),
    {
        PianoKey { note: Note { accidental: None, letter: NoteLetter::C }, octave: 0 }
    }
}

/// One chromatic step lands on a canonical key and raises the position
/// by exactly one, except from B sharp and E sharp, whose position
/// already counts the raise and stays put.
pub proof fn lemma_inc_key(k: PianoKey)
    requires
        !(k.note.accidental is None && k.note.letter == NoteLetter::B && k.octave == u8::MAX),
    ensures
        k.spec_inc().spec_canonical(),
        k.note.accidental == Some(Accidental::Sharp) && (k.note.letter == NoteLetter::B
            || k.note.letter == NoteLetter::E) ==> k.spec_inc().spec_pos() == k.spec_pos(),
        !(k.note.accidental == Some(Accidental::Sharp) && (k.note.letter == NoteLetter::B
            || k.note.letter == NoteLetter::E)) ==> k.spec_inc().spec_pos() == k.spec_pos() + 1,
        k.spec_canonical() ==> k.spec_inc().spec_pos() == k.spec_pos() + 1,
{
}

/// Two canonical keys with the same chromatic position are the same
/// key: the position determines octave, letter and accidental.
pub proof fn lemma_pos_injective_canonical(a: PianoKey, b: PianoKey)
    requires
        a.spec_canonical(),
        b.spec_canonical(),
        a.spec_pos() == b.spec_pos(),
    ensures
        a == b,
{
    assert(0 <= a.note.spec_pc() < 12);
    assert(0 <= b.note.spec_pc() < 12);
    assert(a.octave == b.octave);
    assert(a.note.spec_pc() == b.note.spec_pc());
}

/// The chromatic distance is symmetric, and zero exactly on equal keys.
pub proof fn lemma_distance_symmetric_zero(a: PianoKey, b: PianoKey)
    requires
        a.spec_canonical(),
        b.spec_canonical(),
    ensures
        (if a.spec_pos() >= b.spec_pos() {
            a.spec_pos() - b.spec_pos()
        } else {
            b.spec_pos() - a.spec_pos()
        }) == (if b.spec_pos() >= a.spec_pos() {
            b.spec_pos() - a.spec_pos()
        } else {
            a.spec_pos() - b.spec_pos()
        }),
        (if a.spec_pos() >= b.spec_pos() {
            a.spec_pos() - b.spec_pos()
        } else {
            b.spec_pos() - a.spec_pos()
        }) == 0 <==> a == b,
{
    if a.spec_pos() == b.spec_pos() {
        lemma_pos_injective_canonical(a, b);
    }
}

} // verus!
