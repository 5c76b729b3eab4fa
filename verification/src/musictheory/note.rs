use vstd::prelude::*;

use vstd::string::*;

use crate::error::MusicError;
use super::interval::Interval;
use super::semitone::Semitone;

verus! {

/// One of the seven note letters, C through B.
#[derive(Debug, Clone, Copy, PartialEq, Eq, Structural)]
pub enum NoteLetter {
    C,
    D,
    E,
    F,
    G,
    A,
    B,
}

impl NoteLetter {
    /// The letter's distance from C in semitones, within one octave.
    pub open spec fn spec_offset(self) -> int {
        match self {
            NoteLetter::C => 0,
            NoteLetter::D => 2,
            NoteLetter::E => 4,
            NoteLetter::F => 5,
            NoteLetter::G => 7,
            NoteLetter::A => 9,
            NoteLetter::B => 11,
        }
    }

    /// The next letter, cyclically: B is followed by C.
    pub open spec fn spec_inc(self) -> NoteLetter {
        match self {
            NoteLetter::C => NoteLetter::D,
            NoteLetter::D => NoteLetter::E,
            NoteLetter::E => NoteLetter::F,
            NoteLetter::F => NoteLetter::G,
            NoteLetter::G => NoteLetter::A,
            NoteLetter::A => NoteLetter::B,
            NoteLetter::B => NoteLetter::C,
        }
    }

    /// The letter a given character names, case-insensitively.
    pub open spec fn spec_of_char(c: char) -> Option<NoteLetter> {
        if c == 'A' || c == 'a' {
            Some(NoteLetter::A)
        } else if c == 'B' || c == 'b' {
            Some(NoteLetter::B)
        } else if c == 'C' || c == 'c' {
            Some(NoteLetter::C)
        } else if c == 'D' || c == 'd' {
            Some(NoteLetter::D)
        } else if c == 'E' || c == 'e' {
            Some(NoteLetter::E)
        } else if c == 'F' || c == 'f' {
            Some(NoteLetter::F)
        } else if c == 'G' || c == 'g' {
            Some(NoteLetter::G)
        } else {
            None
        }
    }

    /// The character that names this letter.
    pub open spec fn spec_char(self) -> char {
        match self {
            NoteLetter::C => 'C',
            NoteLetter::D => 'D',
            NoteLetter::E => 'E',
            NoteLetter::F => 'F',
            NoteLetter::G => 'G',
            NoteLetter::A => 'A',
            NoteLetter::B => 'B',
        }
    }

    /// Steps to the next letter, wrapping from B back to C.
    pub fn inc(self) -> (r: Self)
        ensures
            r == self.spec_inc(),
    {
        match self {
            NoteLetter::C => NoteLetter::D,
            NoteLetter::D => NoteLetter::E,
            NoteLetter::E => NoteLetter::F,
            NoteLetter::F => NoteLetter::G,
            NoteLetter::G => NoteLetter::A,
            NoteLetter::A => NoteLetter::B,
            NoteLetter::B => NoteLetter::C,
        }
    }

    /// The interval from C up to this letter.
    pub fn interval_from_c(self) -> (r: Interval)
        ensures
            r == Interval::spec_of_semitones(self.spec_offset()),
            r.spec_semitones() == self.spec_offset(),
    {
        match self {
            NoteLetter::C => Interval::Unison,
            NoteLetter::D => Interval::Maj2,
            NoteLetter::E => Interval::Maj3,
            NoteLetter::F => Interval::Perfect4,
            NoteLetter::G => Interval::Perfect5,
            NoteLetter::A => Interval::Maj6,
            NoteLetter::B => Interval::Maj7,
        }
    }

    /// Reads a letter from a single character, case-insensitively.
    pub fn from_char(c: char) -> (r: Option<Self>)
        ensures
            r == NoteLetter::spec_of_char(c),
    {
        match c {
            'A' | 'a' => Some(NoteLetter::A),
            'B' | 'b' => Some(NoteLetter::B),
            'C' | 'c' => Some(NoteLetter::C),
            'D' | 'd' => Some(NoteLetter::D),
            'E' | 'e' => Some(NoteLetter::E),
            'F' | 'f' => Some(NoteLetter::F),
            'G' | 'g' => Some(NoteLetter::G),
            _ => None,
        }
    }

    /// The letter's name as a one-character string.
    pub fn name_str(self) -> (r: &'static str)
        ensures
            r@ == seq![self.spec_char()],
    {
        proof {
            reveal_strlit("C");
            reveal_strlit("D");
            reveal_strlit("E");
            reveal_strlit("F");
            reveal_strlit("G");
            reveal_strlit("A");
            reveal_strlit("B");
        }
        match self {
            NoteLetter::C => "C",
            NoteLetter::D => "D",
            NoteLetter::E => "E",
            NoteLetter::F => "F",
            NoteLetter::G => "G",
            NoteLetter::A => "A",
            NoteLetter::B => "B",
        }
    }
}

impl Default for NoteLetter {
    /// The default letter is C.
    fn default() -> (r: Self)
        ensures
            r == NoteLetter::C,
    {
        NoteLetter::C
    }
}

/// A sharp or flat alteration of a note letter.
#[derive(Debug, Clone, Copy, PartialEq, Eq, Structural)]
pub enum Accidental {
    Flat,
    Sharp,
}

impl Accidental {
    /// The character that names this accidental: `b` or `#`.
    pub open spec fn spec_char(self) -> char {
        match self {
            Accidental::Flat => 'b',
            Accidental::Sharp => '#',
        }
    }

    /// The accidental a given character names.
    pub open spec fn spec_of_char(c: char) -> Option<Accidental> {
        if c == 'b' {
            Some(Accidental::Flat)
        } else if c == '#' {
            Some(Accidental::Sharp)
        } else {
            None
        }
    }

    /// Reads an accidental from its character, `b` or `#`.
    pub fn from_char(c: char) -> (r: Option<Self>)
        ensures
            r == Accidental::spec_of_char(c),
    {
        match c {
            'b' => Some(Accidental::Flat),
            '#' => Some(Accidental::Sharp),
            _ => None,
        }
    }

    /// The accidental's name as a one-character string.
    pub fn name_str(self) -> (r: &'static str)
        ensures
            r@ == seq![self.spec_char()],
    {
        proof {
            reveal_strlit("b");
            reveal_strlit("#");
        }
        match self {
            Accidental::Flat => "b",
            Accidental::Sharp => "#",
        }
    }
}

/// A pitch class: a note letter with an optional accidental.
#[derive(Debug, Clone, Copy, PartialEq, Eq, Structural)]
pub struct Note {
    pub accidental: Option<Accidental>,
    pub letter: NoteLetter,
}

impl Note {
    /// The note's distance from C in semitones.  A sharp raises the
    /// letter by one step modulo twelve (so B sharp lands on zero), a
    /// flat lowers it by one without wrapping (so C flat yields -1).
    pub open spec fn spec_pc(self) -> int {
        match self.accidental {
            None => self.letter.spec_offset(),
            Some(Accidental::Sharp) => (self.letter.spec_offset() + 1) % 12,
            Some(Accidental::Flat) => self.letter.spec_offset() - 1,
        }
    }

    /// A note is canonical when it is natural, or sharp on a letter
    /// whose next letter lies a whole step up.  These are exactly the
    /// notes that repeated incrementing visits.
    pub open spec fn spec_canonical(self) -> bool {
        match self.accidental {
            None => true,
            Some(Accidental::Sharp) => self.letter != NoteLetter::B && self.letter != NoteLetter::E,
            Some(Accidental::Flat) => false,
        }
    }

    /// The C-flat combination, the one note whose distance from C is
    /// negative, is kept out of interval computations.
    pub open spec fn spec_valid(self) -> bool {
        !(self.letter == NoteLetter::C && self.accidental == Some(Accidental::Flat))
    }

    /// One chromatic step up.  Sharps resolve to the next letter, flats
    /// to their own letter, naturals gain a sharp except B and E, which
    /// step straight to the next letter.
    pub open spec fn spec_inc(self) -> Note {
        match self.accidental {
            Some(Accidental::Sharp) => Note { accidental: None, letter: self.letter.spec_inc() },
            Some(Accidental::Flat) => Note { accidental: None, letter: self.letter },
            None => if self.letter == NoteLetter::B || self.letter == NoteLetter::E {
                Note { accidental: None, letter: self.letter.spec_inc() }
            } else {
                Note { accidental: Some(Accidental::Sharp), letter: self.letter }
            },
        }
    }

    /// The note reached from `n` by `k` chromatic steps.
    pub open spec fn spec_add_steps(n: Note, k: nat) -> Note
        decreases k,
    {
        if k == 0 {
            n
        } else {
            Note::spec_add_steps(n, (k - 1) as nat).spec_inc()
        }
    }

    /// Whether this note is canonical: natural, or sharp on a letter
    /// followed by a whole step.
    pub fn is_canonical(&self) -> (r: bool)
        ensures
            r == self.spec_canonical(),
    {
        match self.accidental {
            None => true,
            Some(Accidental::Sharp) => !matches!(self.letter, NoteLetter::B) && !matches!(
                self.letter,
                NoteLetter::E,
            ),
            Some(Accidental::Flat) => false,
        }
    }

    /// The interval from C up to this note.
    pub fn interval_from_c(self) -> (r: Interval)
        requires
            self.spec_valid(),
        ensures
            r == Interval::spec_of_semitones(self.spec_pc()),
            r.spec_semitones() == self.spec_pc(),
    {
        let ret = self.letter.interval_from_c();
        match self.accidental {
            Some(Accidental::Flat) => {
                Interval::from_semitone(Semitone(ret.to_semitone().value() - 1))
            },
            Some(Accidental::Sharp) => ret.add(Interval::Min2),
            None => ret,
        }
    }

    /// The interval from `other` up to this note, modulo one octave.
    pub fn get_offset(self, other: Self) -> (r: Interval)
        requires
            self.spec_valid(),
            other.spec_valid(),
        ensures
            r == Interval::spec_of_semitones((self.spec_pc() - other.spec_pc()) % 12),
    {
        let self_interval_from_c = self.interval_from_c();
        let other_interval_from_c = other.interval_from_c();
        self_interval_from_c.sub(other_interval_from_c)
    }

    /// Steps this note up by one chromatic step.
    pub fn inc(&mut self)
        ensures
            *final(self) == old(self).spec_inc(),
    {
        match self.accidental {
            Some(Accidental::Sharp) => {
                self.accidental = None;
                self.letter = self.letter.inc();
            },
            Some(Accidental::Flat) => {
                self.accidental = None;
            },
            None => {
                if matches!(self.letter, NoteLetter::B) || matches!(self.letter, NoteLetter::E) {
                    self.letter = self.letter.inc();
                } else {
                    self.accidental = Some(Accidental::Sharp);
                }
            },
        }
    }

    /// The note reached by walking up by a whole interval, one
    /// chromatic step at a time.
    pub fn add_interval(self, rhs: Interval) -> (r: Note)
        ensures
            r == Note::spec_add_steps(self, rhs.spec_semitones() as nat),
    {
        let k: u8 = rhs.semitones();
        let mut ret = self;
        let mut i: u8 = 0;
        while i < k
            invariant
                i <= k,
                ret == Note::spec_add_steps(self, i as nat),
            decreases k - i,
    {
            ret.inc();
            i = i + 1;
        }
        ret
    }

    /// The canonical note for a chromatic pitch class: the interval's
    /// semitone count, reduced modulo twelve, walked up from C.
    pub fn from_interval(i: Interval) -> (r: Note)
        ensures
            r == Note::spec_add_steps(
                Note { accidental: None, letter: NoteLetter::C },
                (i.spec_semitones() % 12) as nat,
            ),
    {
        let base = Note { accidental: None, letter: NoteLetter::C };
        let offset = Interval::from_semitone(Semitone(i.semitones() as i8));
        base.add_interval(offset)
    }

    /// How a note parses from characters: the first character names the
    /// letter; a second character, when present, must name an
    /// accidental; anything further is ignored.
    pub open spec fn spec_parse(s: Seq<char>) -> Option<Note> {
        if s.len() == 0 {
            None
        } else {
            match NoteLetter::spec_of_char(s[0]) {
                None => None,
                Some(letter) => if s.len() == 1 {
                    Some(Note { accidental: None, letter })
                } else {
                    match Accidental::spec_of_char(s[1]) {
                        None => None,
                        Some(acc) => Some(Note { accidental: Some(acc), letter }),
                    }
                },
            }
        }
    }

    /// Reads a note name: a letter, then an optional accidental.  A
    /// failure carries the rejected name: an empty or letterless name
    /// is an invalid letter, a bad second character an invalid
    /// accidental.
    pub fn from_str(s: &str) -> (r: Result<Self, MusicError>)
        ensures
            r is Ok <==> Note::spec_parse(s@) is Some,
            r is Ok ==> r->Ok_0 == Note::spec_parse(s@)->Some_0,
            s@.len() == 0 || (s@.len() >= 1 && NoteLetter::spec_of_char(s@[0]) is None) ==> (
            r matches Err(e) && e matches MusicError::InvalidNoteLetter(t) && t@ == s@),
            s@.len() >= 2 && NoteLetter::spec_of_char(s@[0]) is Some && Accidental::spec_of_char(
                s@[1],
            ) is None ==> (r matches Err(e) && e matches MusicError::InvalidAccidental(t) && t@
                == s@),
    {
        let n = s.unicode_len();
        if n == 0 {
            return Err(MusicError::InvalidNoteLetter(String::from_str(s)));
        }
        let letter = match NoteLetter::from_char(s.get_char(0)) {
            Some(l) => l,
            None => {
                return Err(MusicError::InvalidNoteLetter(String::from_str(s)));
            },
        };
        if n == 1 {
            Ok(Note { accidental: None, letter })
        } else {
            match Accidental::from_char(s.get_char(1)) {
                Some(acc) => Ok(Note { accidental: Some(acc), letter }),
                None => Err(MusicError::InvalidAccidental(String::from_str(s))),
            }
        }
    }

    /// The note's name: its letter, then `#` or `b` when altered.
    pub open spec fn spec_name(self) -> Seq<char> {
        match self.accidental {
            None => seq![self.letter.spec_char()],
            Some(acc) => seq![self.letter.spec_char(), acc.spec_char()],
        }
    }

    /// Writes the note's name, such as `A` or `G#`.
    pub fn name_string(self) -> (r: String)
        ensures
            r@ == self.spec_name(),
    {
        let mut r = String::from_str(self.letter.name_str());
        match self.accidental {
            None => {},
            Some(acc) => {
                r.append(acc.name_str());
            },
        }
        r
    }
}

impl Default for Note {
    /// The default note is C natural.
    fn default() -> (r: Self)
        ensures
            r == (Note { accidental: None, letter: NoteLetter::C }),
    {
        Note { accidental: None, letter: NoteLetter::C }
    }
}

} // verus!
