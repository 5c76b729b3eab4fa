use vstd::prelude::*;
use vstd::string::*;

use crate::error::MusicError;
use super::eq_ignore_case;
use super::spec_upper_seq;
use super::interval::Interval;
use super::mode::{spec_heptatonic_base, spec_pentatonic_base, Mode, PentatonicMode};

verus! {

/// An interval pattern that defines a key: the chromatic scale, a
/// diatonic or pentatonic mode, or the fixed tetratonic pattern.
#[derive(Debug, Clone, Copy, PartialEq, Eq, Structural)]
pub enum Scale {
    Chromatic,
    Diatonic(Mode),
    Pentatonic(PentatonicMode),
    Tetratonic,
}

/// The number of steps in a scale of each supported family.
#[derive(Debug, Clone, Copy, PartialEq, Eq, Structural)]
pub enum ScaleLength {
    Tetratonic,
    Pentatonic,
    Heptatonic,
    Dodecatonic,
}

impl ScaleLength {
    /// The number of steps.
    pub open spec fn spec_len(self) -> int {
        match self {
            ScaleLength::Tetratonic => 4,
            ScaleLength::Pentatonic => 5,
            ScaleLength::Heptatonic => 7,
            ScaleLength::Dodecatonic => 12,
        }
    }

    /// The number of steps.
    pub fn len(self) -> (r: u8)
        ensures
            r == self.spec_len(),
    {
        match self {
            ScaleLength::Tetratonic => 4,
            ScaleLength::Pentatonic => 5,
            ScaleLength::Heptatonic => 7,
            ScaleLength::Dodecatonic => 12,
        }
    }
}

impl Scale {
    /// The scale's step pattern: the base pattern of its family,
    /// rotated by the mode's ordinal; twelve half steps for the
    /// chromatic scale and a fixed four-step pattern for the
    /// tetratonic one.  Every pattern's steps sum to one octave, so a
    /// key walk always closes on the octave-shifted root.
    pub open spec fn spec_intervals(self) -> Seq<Interval> {
        match self {
            Scale::Chromatic => Seq::new(12, |i: int| Interval::Min2),
            Scale::Tetratonic => seq![
                Interval::Min2,
                Interval::Maj2,
                Interval::Maj3,
                Interval::Perfect4,
            ],
            Scale::Diatonic(mode) => Seq::new(
                7,
                |i: int| spec_heptatonic_base()[(i + mode.spec_ordinal()) % 7],
            ),
            Scale::Pentatonic(mode) => Seq::new(
                5,
                |i: int| spec_pentatonic_base()[(i + mode.spec_ordinal()) % 5],
            ),
        }
    }

    /// Builds the scale's step pattern.
    pub fn get_intervals(self) -> (r: Vec<Interval>)
        ensures
            r@ == self.spec_intervals(),
    {
        let mut r: Vec<Interval> = Vec::new();
        match self {
            Scale::Chromatic => {
                let mut i: usize = 0;
                while i < 12
                    invariant
                        i <= 12,
                        r@.len() == i,
                        forall|j: int| 0 <= j < i ==> r@[j] == Interval::Min2,
                    decreases 12 - i,
                {
                    r.push(Interval::Min2);
                    i = i + 1;
                }
                proof {
                    assert(r@ =~= self.spec_intervals());
                }
            },
            Scale::Tetratonic => {
                r.push(Interval::Min2);
                r.push(Interval::Maj2);
                r.push(Interval::Maj3);
                r.push(Interval::Perfect4);
                proof {
                    assert(r@ =~= self.spec_intervals());
                }
            },
            Scale::Diatonic(mode) => {
                let base = Mode::base_interval(ScaleLength::Heptatonic);
                let skip = mode.ordinal() as usize;
                let mut i: usize = 0;
                while i < 7
                    invariant
                        i <= 7,
                        skip == mode.spec_ordinal(),
                        skip < 7,
                        base@ == spec_heptatonic_base(),
                        r@.len() == i,
                        forall|j: int| 0 <= j < i ==> r@[j] == spec_heptatonic_base()[(j + skip)
                            % 7],
                    decreases 7 - i,
                {
                    r.push(base[(i + skip) % 7]);
                    i = i + 1;
                }
                proof {
                    assert(r@ =~= self.spec_intervals());
                }
            },
            Scale::Pentatonic(mode) => {
                let base = Mode::base_interval(ScaleLength::Pentatonic);
                let skip = mode.ordinal() as usize;
                let mut i: usize = 0;
                while i < 5
                    invariant
                        i <= 5,
                        skip == mode.spec_ordinal(),
                        skip < 5,
                        base@ == spec_pentatonic_base(),
                        r@.len() == i,
                        forall|j: int| 0 <= j < i ==> r@[j] == spec_pentatonic_base()[(j + skip)
                            % 5],
                    decreases 5 - i,
                {
                    r.push(base[(i + skip) % 5]);
                    i = i + 1;
                }
                proof {
                    assert(r@ =~= self.spec_intervals());
                }
            },
        }
        r
    }

    /// How a scale name parses, after folding to upper case.
    pub open spec fn spec_parse(s: Seq<char>) -> Option<Scale> {
        let u = spec_upper_seq(s);
        if u == "IONIAN"@ || u == "MAJOR"@ {
            Some(Scale::Diatonic(Mode::Ionian))
        } else if u == "DORIAN"@ {
            Some(Scale::Diatonic(Mode::Dorian))
        } else if u == "PHRYGIAN"@ {
            Some(Scale::Diatonic(Mode::Phrygian))
        } else if u == "LYDIAN"@ {
            Some(Scale::Diatonic(Mode::Lydian))
        } else if u == "MIXOLYDIAN"@ {
            Some(Scale::Diatonic(Mode::Mixolydian))
        } else if u == "AEOLIAN"@ || u == "MINOR"@ {
            Some(Scale::Diatonic(Mode::Aeolian))
        } else if u == "LOCRIAN"@ {
            Some(Scale::Diatonic(Mode::Locrian))
        } else if u == "PENTATONIC"@ || u == "PENTAMAJOR"@ {
            Some(Scale::Pentatonic(PentatonicMode::Major))
        } else if u == "PENTASUSPENDED"@ {
            Some(Scale::Pentatonic(PentatonicMode::Suspended))
        } else if u == "PENTABLUESMAJOR"@ {
            Some(Scale::Pentatonic(PentatonicMode::BluesMajor))
        } else if u == "PENTABLUESMINOR"@ {
            Some(Scale::Pentatonic(PentatonicMode::BluesMinor))
        } else if u == "PENTAMINOR"@ {
            Some(Scale::Pentatonic(PentatonicMode::Minor))
        } else if u == "CHROMATIC"@ {
            Some(Scale::Chromatic)
        } else if u == "TETRATONIC"@ {
            Some(Scale::Tetratonic)
        } else {
            None
        }
    }

    /// Reads a scale name, case-insensitively; a failure carries the
    /// rejected name.
    pub fn from_str(s: &str) -> (r: Result<Self, MusicError>)
        ensures
            r is Ok <==> Scale::spec_parse(s@) is Some,
            r is Ok ==> r->Ok_0 == Scale::spec_parse(s@)->Some_0,
            r is Err ==> (r matches Err(e) && e matches MusicError::UnknownScale(t) && t@ == s@),
    {
        if eq_ignore_case(s, "IONIAN") || eq_ignore_case(s, "MAJOR") {
            Ok(Scale::Diatonic(Mode::Ionian))
        } else if eq_ignore_case(s, "DORIAN") {
            Ok(Scale::Diatonic(Mode::Dorian))
        } else if eq_ignore_case(s, "PHRYGIAN") {
            Ok(Scale::Diatonic(Mode::Phrygian))
        } else if eq_ignore_case(s, "LYDIAN") {
            Ok(Scale::Diatonic(Mode::Lydian))
        } else if eq_ignore_case(s, "MIXOLYDIAN") {
            Ok(Scale::Diatonic(Mode::Mixolydian))
        } else if eq_ignore_case(s, "AEOLIAN") || eq_ignore_case(s, "MINOR") {
            Ok(Scale::Diatonic(Mode::Aeolian))
        } else if eq_ignore_case(s, "LOCRIAN") {
            Ok(Scale::Diatonic(Mode::Locrian))
        } else if eq_ignore_case(s, "PENTATONIC") || eq_ignore_case(s, "PENTAMAJOR") {
            Ok(Scale::Pentatonic(PentatonicMode::Major))
        } else if eq_ignore_case(s, "PENTASUSPENDED") {
            Ok(Scale::Pentatonic(PentatonicMode::Suspended))
        } else if eq_ignore_case(s, "PENTABLUESMAJOR") {
            Ok(Scale::Pentatonic(PentatonicMode::BluesMajor))
        } else if eq_ignore_case(s, "PENTABLUESMINOR") {
            Ok(Scale::Pentatonic(PentatonicMode::BluesMinor))
        } else if eq_ignore_case(s, "PENTAMINOR") {
            Ok(Scale::Pentatonic(PentatonicMode::Minor))
        } else if eq_ignore_case(s, "CHROMATIC") {
            Ok(Scale::Chromatic)
        } else if eq_ignore_case(s, "TETRATONIC") {
            Ok(Scale::Tetratonic)
        } else {
            Err(MusicError::UnknownScale(String::from_str(s)))
        }
    }

    /// The scale's descriptive name.
    pub open spec fn spec_display_name(self) -> Seq<char> {
        match self {
            Scale::Chromatic => "chromatic scale"@,
            Scale::Tetratonic => "tetratonic scale"@,
            Scale::Diatonic(mode) => match mode {
                Mode::Ionian => "major scale"@,
                Mode::Dorian => "Dorian mode"@,
                Mode::Phrygian => "Phrygian mode"@,
                Mode::Lydian => "Lydian mode"@,
                Mode::Mixolydian => "Mixolydian mode"@,
                Mode::Aeolian => "minor scale"@,
                Mode::Locrian => "Locrian mode"@,
            },
            Scale::Pentatonic(mode) => match mode {
                PentatonicMode::Major => "pentatonic Major mode"@,
                PentatonicMode::Suspended => "pentatonic Suspended mode"@,
                PentatonicMode::BluesMinor => "pentatonic BluesMinor mode"@,
                PentatonicMode::BluesMajor => "pentatonic BluesMajor mode"@,
                PentatonicMode::Minor => "pentatonic Minor mode"@,
            },
        }
    }

    /// Writes the scale's descriptive name, such as `major scale`.
    pub fn name_string(self) -> (r: String)
        ensures
            r@ == self.spec_display_name(),
    {
        let name: &str = match self {
            Scale::Chromatic => "chromatic scale",
            Scale::Tetratonic => "tetratonic scale",
            Scale::Diatonic(mode) => match mode {
                Mode::Ionian => "major scale",
                Mode::Dorian => "Dorian mode",
                Mode::Phrygian => "Phrygian mode",
                Mode::Lydian => "Lydian mode",
                Mode::Mixolydian => "Mixolydian mode",
                Mode::Aeolian => "minor scale",
                Mode::Locrian => "Locrian mode",
            },
            Scale::Pentatonic(mode) => match mode {
                PentatonicMode::Major => "pentatonic Major mode",
                PentatonicMode::Suspended => "pentatonic Suspended mode",
                PentatonicMode::BluesMinor => "pentatonic BluesMinor mode",
                PentatonicMode::BluesMajor => "pentatonic BluesMajor mode",
                PentatonicMode::Minor => "pentatonic Minor mode",
            },
        };
        String::from_str(name)
    }
}

impl Default for Scale {
    /// The default scale is the major scale.
    fn default() -> (r: Self)
        ensures
            r == Scale::Diatonic(Mode::Ionian),
    {
        Scale::Diatonic(Mode::Ionian)
    }
}

} // verus!
