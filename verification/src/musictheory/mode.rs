use vstd::prelude::*;

use super::interval::Interval;
use super::scale::ScaleLength;

verus! {

/// One of the seven diatonic modes, in their classical order.
#[derive(Debug, Clone, Copy, PartialEq, Eq, Structural)]
pub enum Mode {
    Ionian,
    Dorian,
    Phrygian,
    Lydian,
    Mixolydian,
    Aeolian,
    Locrian,
}

impl Mode {
    /// The mode's position in the classical order, used as the
    /// rotation of the base step pattern.
    pub open spec fn spec_ordinal(self) -> int {
        match self {
            Mode::Ionian => 0,
            Mode::Dorian => 1,
            Mode::Phrygian => 2,
            Mode::Lydian => 3,
            Mode::Mixolydian => 4,
            Mode::Aeolian => 5,
            Mode::Locrian => 6,
        }
    }

    /// The mode's position in the classical order.
    pub fn ordinal(self) -> (r: u8)
        ensures
            r == self.spec_ordinal(),
    {
        match self {
            Mode::Ionian => 0,
            Mode::Dorian => 1,
            Mode::Phrygian => 2,
            Mode::Lydian => 3,
            Mode::Mixolydian => 4,
            Mode::Aeolian => 5,
            Mode::Locrian => 6,
        }
    }

    /// The unrotated step pattern for a scale of the given length:
    /// the major pattern for heptatonic scales, the major-pentatonic
    /// pattern for pentatonic ones; every other length falls back to
    /// the heptatonic pattern.
    pub fn base_interval(sl: ScaleLength) -> (r: Vec<Interval>)
        ensures
            sl == ScaleLength::Pentatonic ==> r@ == spec_pentatonic_base(),
            sl != ScaleLength::Pentatonic ==> r@ == spec_heptatonic_base(),
    {
        let mut r: Vec<Interval> = Vec::new();
        match sl {
            ScaleLength::Pentatonic => {
                r.push(Interval::Maj2);
                r.push(Interval::Maj2);
                r.push(Interval::Min3);
                r.push(Interval::Maj2);
                r.push(Interval::Min3);
                proof {
                    assert(r@ =~= spec_pentatonic_base());
                }
            },
            _ => {
                r.push(Interval::Maj2);
                r.push(Interval::Maj2);
                r.push(Interval::Min2);
                r.push(Interval::Maj2);
                r.push(Interval::Maj2);
                r.push(Interval::Maj2);
                r.push(Interval::Min2);
                proof {
                    assert(r@ =~= spec_heptatonic_base());
                }
            },
        }
        r
    }
}

/// One of the five pentatonic modes, in their rotation order.
#[derive(Debug, Clone, Copy, PartialEq, Eq, Structural)]
pub enum PentatonicMode {
    Major,
    Suspended,
    BluesMinor,
    BluesMajor,
    Minor,
}

impl PentatonicMode {
    /// The mode's position in the rotation order of the pentatonic
    /// base pattern.
    pub open spec fn spec_ordinal(self) -> int {
        match self {
            PentatonicMode::Major => 0,
            PentatonicMode::Suspended => 1,
            PentatonicMode::BluesMinor => 2,
            PentatonicMode::BluesMajor => 3,
            PentatonicMode::Minor => 4,
        }
    }

    /// The mode's position in the rotation order.
    pub fn ordinal(self) -> (r: u8)
        ensures
            r == self.spec_ordinal(),
    {
        match self {
            PentatonicMode::Major => 0,
            PentatonicMode::Suspended => 1,
            PentatonicMode::BluesMinor => 2,
            PentatonicMode::BluesMajor => 3,
            PentatonicMode::Minor => 4,
        }
    }
}

/// The whole- and half-step pattern of the major scale.
pub open spec fn spec_heptatonic_base() -> Seq<Interval> {
    seq![
        Interval::Maj2,
        Interval::Maj2,
        Interval::Min2,
        Interval::Maj2,
        Interval::Maj2,
        Interval::Maj2,
        Interval::Min2,
    ]
}

/// The step pattern of the major pentatonic scale.
pub open spec fn spec_pentatonic_base() -> Seq<Interval> {
    seq![Interval::Maj2, Interval::Maj2, Interval::Min3, Interval::Maj2, Interval::Min3]
}

} // verus!
