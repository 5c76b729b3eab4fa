use vstd::prelude::*;

verus! {

/// A tempo in beats per minute.
#[derive(Debug, Clone, Copy, PartialEq, Eq, Structural)]
pub struct Tempo(pub u16);

impl Tempo {
    /// Wraps a beats-per-minute count.
    pub fn from_bpm(bpm: u16) -> (r: Self)
        ensures
            r.0 == bpm,
    {
        Tempo(bpm)
    }

    /// The beats-per-minute count.
    pub fn bpm(self) -> (r: u16)
        ensures
            r == self.0,
    {
        self.0
    }
}

impl Default for Tempo {
    /// The default tempo carries no beats at all; players must set one.
    fn default() -> (r: Self)
        ensures
            r.0 == 0,
    {
        Tempo(0)
    }
}

} // verus!
