use vstd::prelude::*;
use vstd::string::*;

verus! {

/// The number of duration units in one whole note.  All rhythmic
/// durations in this library are integer counts of 1/128ths of a
/// whole note, so every base value and every dotting is exact.
pub const WHOLE_NOTE_UNITS: u32 = 128;

/// A plain note duration, from a whole note down to a sixteenth.
#[derive(Debug, Clone, Copy, PartialEq, Eq, Structural)]
pub enum NoteValueBase {
    Whole,
    Half,
    Quarter,
    Eighth,
    Sixteenth,
}

impl NoteValueBase {
    /// How many of this value make one whole note.
    pub open spec fn spec_denominator(self) -> int {
        match self {
            NoteValueBase::Whole => 1,
            NoteValueBase::Half => 2,
            NoteValueBase::Quarter => 4,
            NoteValueBase::Eighth => 8,
            NoteValueBase::Sixteenth => 16,
        }
    }

    /// The base duration in 1/128ths of a whole note.
    pub open spec fn spec_units(self) -> int {
        match self {
            NoteValueBase::Whole => 128,
            NoteValueBase::Half => 64,
            NoteValueBase::Quarter => 32,
            NoteValueBase::Eighth => 16,
            NoteValueBase::Sixteenth => 8,
        }
    }

    /// How many of this value make one whole note.
    pub fn denominator(self) -> (r: u8)
        ensures
            r == self.spec_denominator(),
    {
        match self {
            NoteValueBase::Whole => 1,
            NoteValueBase::Half => 2,
            NoteValueBase::Quarter => 4,
            NoteValueBase::Eighth => 8,
            NoteValueBase::Sixteenth => 16,
        }
    }

    /// The base duration in 1/128ths of a whole note.
    pub fn units(self) -> (r: u32)
        ensures
            r == self.spec_units(),
    {
        match self {
            NoteValueBase::Whole => 128,
            NoteValueBase::Half => 64,
            NoteValueBase::Quarter => 32,
            NoteValueBase::Eighth => 16,
            NoteValueBase::Sixteenth => 8,
        }
    }
}

impl Default for NoteValueBase {
    /// The default base value is a quarter note.
    fn default() -> (r: Self)
        ensures
            r == NoteValueBase::Quarter,
    {
        NoteValueBase::Quarter
    }
}

/// A dotting of a note value: each further dot adds half of what the
/// previous dot added.
#[derive(Debug, Clone, Copy, PartialEq, Eq, Structural)]
pub enum NoteValueDotted {
    Dotted,
    DoubleDotted,
    TripleDotted,
}

impl NoteValueDotted {
    /// The number of dots.
    pub open spec fn spec_dots(self) -> int {
        match self {
            NoteValueDotted::Dotted => 1,
            NoteValueDotted::DoubleDotted => 2,
            NoteValueDotted::TripleDotted => 3,
        }
    }

    /// What the dots add, for a base duration of `base` units: one
    /// half, then another quarter, then another eighth of the base.
    pub open spec fn spec_extra_units(self, base: int) -> int {
        match self {
            NoteValueDotted::Dotted => base / 2,
            NoteValueDotted::DoubleDotted => base / 2 + base / 4,
            NoteValueDotted::TripleDotted => base / 2 + base / 4 + base / 8,
        }
    }
}

/// A rhythmic duration: a base value with an optional dotting.
#[derive(Debug, Clone, Copy, PartialEq, Eq, Structural)]
pub struct NoteValue {
    pub base: NoteValueBase,
    pub dotted: Option<NoteValueDotted>,
}

impl NoteValue {
    /// The duration in 1/128ths of a whole note: the base value plus
    /// whatever its dots add.
    pub open spec fn spec_units(self) -> int {
        match self.dotted {
            None => self.base.spec_units(),
            Some(d) => self.base.spec_units() + d.spec_extra_units(self.base.spec_units()),
        }
    }

    /// The duration relative to a whole note, in 1/128ths of a whole
    /// note.  A quarter note yields 32; a dotted half yields 96.
    pub fn get_relative_duration(&self) -> (r: u32)
        ensures
            r == self.spec_units(),
            8 <= r <= 240,
    {
        let base = self.base.units();
        match self.dotted {
            None => base,
            Some(NoteValueDotted::Dotted) => base + base / 2,
            Some(NoteValueDotted::DoubleDotted) => base + base / 2 + base / 4,
            Some(NoteValueDotted::TripleDotted) => base + base / 2 + base / 4 + base / 8,
        }
    }

    /// The written form of the duration: the base value's glyph, then
    /// one period per dot.
    pub open spec fn spec_name(self) -> Seq<char> {
        let glyph = match self.base {
            NoteValueBase::Whole => "\u{1D15D}"@,
            NoteValueBase::Half => "\u{1D15E}"@,
            NoteValueBase::Quarter => "\u{1D15F}"@,
            NoteValueBase::Eighth => "\u{1D160}"@,
            NoteValueBase::Sixteenth => "\u{1D161}"@,
        };
        match self.dotted {
            None => glyph,
            Some(NoteValueDotted::Dotted) => glyph + "."@,
            Some(NoteValueDotted::DoubleDotted) => glyph + "."@ + "."@,
            Some(NoteValueDotted::TripleDotted) => glyph + "."@ + "."@ + "."@,
        }
    }

    /// Writes the duration with standard notation glyphs and dots.
    pub fn name_string(&self) -> (r: String)
        ensures
            r@ == self.spec_name(),
    {
        let glyph: &str = match self.base {
            NoteValueBase::Whole => "\u{1D15D}",
            NoteValueBase::Half => "\u{1D15E}",
            NoteValueBase::Quarter => "\u{1D15F}",
            NoteValueBase::Eighth => "\u{1D160}",
            NoteValueBase::Sixteenth => "\u{1D161}",
        };
        let mut r = String::from_str(glyph);
        match self.dotted {
            None => {},
            Some(NoteValueDotted::Dotted) => {
                r.append(".");
            },
            Some(NoteValueDotted::DoubleDotted) => {
                r.append(".");
                r.append(".");
            },
            Some(NoteValueDotted::TripleDotted) => {
                r.append(".");
                r.append(".");
                r.append(".");
            },
        }
        proof {
            assert(r@ =~= self.spec_name());
        }
        r
    }
}

impl Default for NoteValue {
    /// The default duration is a plain quarter note.
    fn default() -> (r: Self)
        ensures
            r == (NoteValue { base: NoteValueBase::Quarter, dotted: None }),
    {
        NoteValue { base: NoteValueBase::Quarter, dotted: None }
    }
}

} // verus!
