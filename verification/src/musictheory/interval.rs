use vstd::prelude::*;

use super::semitone::Semitone;

verus! {

/// A named musical interval, from unison up to one octave.
///
/// Interval arithmetic wraps modulo twelve semitones, so an octave acts
/// as the identity: adding or subtracting intervals never yields
/// `Octave` itself, only the representative below it.
#[derive(Debug, Clone, Copy, PartialEq, Eq, Structural)]
pub enum Interval {
    Unison,
    Min2,
    Maj2,
    Min3,
    Maj3,
    Perfect4,
    Tritone,
    Perfect5,
    Min6,
    Maj6,
    Min7,
    Maj7,
    Octave,
}

impl Interval {
    /// The width of the interval in semitones, between 0 and 12.
    pub open spec fn spec_semitones(self) -> int {
        match self {
            Interval::Unison => 0,
            Interval::Min2 => 1,
            Interval::Maj2 => 2,
            Interval::Min3 => 3,
            Interval::Maj3 => 4,
            Interval::Perfect4 => 5,
            Interval::Tritone => 6,
            Interval::Perfect5 => 7,
            Interval::Min6 => 8,
            Interval::Maj6 => 9,
            Interval::Min7 => 10,
            Interval::Maj7 => 11,
            Interval::Octave => 12,
        }
    }

    /// The interval whose width is `n` semitones, for `0 <= n <= 11`.
    /// Out-of-range widths fall back to `Unison`; callers always reduce
    /// modulo twelve first.
    pub open spec fn spec_of_semitones(n: int) -> Interval {
        if n == 1 {
            Interval::Min2
        } else if n == 2 {
            Interval::Maj2
        } else if n == 3 {
            Interval::Min3
        } else if n == 4 {
            Interval::Maj3
        } else if n == 5 {
            Interval::Perfect4
        } else if n == 6 {
            Interval::Tritone
        } else if n == 7 {
            Interval::Perfect5
        } else if n == 8 {
            Interval::Min6
        } else if n == 9 {
            Interval::Maj6
        } else if n == 10 {
            Interval::Min7
        } else if n == 11 {
            Interval::Maj7
        } else {
            Interval::Unison
        }
    }

    /// The sum of two intervals, reduced modulo one octave.
    pub open spec fn spec_add(self, rhs: Interval) -> Interval {
        Interval::spec_of_semitones((self.spec_semitones() + rhs.spec_semitones()) % 12)
    }

    /// The difference of two intervals, reduced modulo one octave.
    pub open spec fn spec_sub(self, rhs: Interval) -> Interval {
        Interval::spec_of_semitones((self.spec_semitones() - rhs.spec_semitones()) % 12)
    }

    /// The width of the interval in semitones.
    pub fn semitones(self) -> (r: u8)
        ensures
            r == self.spec_semitones(),
    {
        match self {
            Interval::Unison => 0,
            Interval::Min2 => 1,
            Interval::Maj2 => 2,
            Interval::Min3 => 3,
            Interval::Maj3 => 4,
            Interval::Perfect4 => 5,
            Interval::Tritone => 6,
            Interval::Perfect5 => 7,
            Interval::Min6 => 8,
            Interval::Maj6 => 9,
            Interval::Min7 => 10,
            Interval::Maj7 => 11,
            Interval::Octave => 12,
        }
    }

    /// The interval reached from a non-negative semitone count, reduced
    /// modulo one octave; twelve semitones come back as `Unison`.
    pub fn from_semitone(s: Semitone) -> (r: Self)
        requires
            s.0 >= 0,
        ensures
            r == Interval::spec_of_semitones(s.0 as int % 12),
    {
        let n: i8 = s.0 % 12;
        match n {
            1 => Interval::Min2,
            2 => Interval::Maj2,
            3 => Interval::Min3,
            4 => Interval::Maj3,
            5 => Interval::Perfect4,
            6 => Interval::Tritone,
            7 => Interval::Perfect5,
            8 => Interval::Min6,
            9 => Interval::Maj6,
            10 => Interval::Min7,
            11 => Interval::Maj7,
            _ => Interval::Unison,
        }
    }

    /// The semitone count of this interval.
    pub fn to_semitone(self) -> (r: Semitone)
        ensures
            r.0 == self.spec_semitones(),
    {
        Semitone(self.semitones() as i8)
    }

    /// Adds two intervals, wrapping modulo one octave.
    pub fn add(self, rhs: Self) -> (r: Self)
        ensures
            r == self.spec_add(rhs),
    {
        let n: u8 = self.semitones() + rhs.semitones() % 12;
        Interval::from_semitone(Semitone((n % 12) as i8))
    }

    /// Subtracts an interval, wrapping modulo one octave.
    pub fn sub(self, rhs: Self) -> (r: Self)
        ensures
            r == self.spec_sub(rhs),
    {
        let a: i8 = self.semitones() as i8;
        let b: i8 = rhs.semitones() as i8;
        let mut delta: i8 = a - b;
        if delta < 0 {
            delta = delta + 12;
        }
        Interval::from_semitone(Semitone(delta % 12))
    }
}

/// Adding an octave to the sum of any two intervals leaves the sum
/// unchanged: interval addition is closed modulo twelve semitones.
pub proof fn lemma_add_octave_identity(a: Interval, b: Interval)
    ensures
        a.spec_add(b).spec_add(Interval::Octave) == a.spec_add(b),
{
}

/// Subtracting any interval from itself yields a unison.
pub proof fn lemma_sub_self_is_unison(a: Interval)
    ensures
        a.spec_sub(a) == Interval::Unison,
{
}

} // verus!
