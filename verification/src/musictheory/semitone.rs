use vstd::prelude::*;

verus! {

/// A signed count of semitone steps.
#[derive(Debug, Default, Clone, Copy, PartialEq, Eq, Structural)]
pub struct Semitone(pub i8);

impl Semitone {
    /// Wraps a raw step count.
    pub fn from_i8(i: i8) -> (r: Self)
        ensures
            r.0 == i,
    {
        Semitone(i)
    }

    /// The raw step count.
    pub fn value(self) -> (r: i8)
        ensures
            r == self.0,
    {
        self.0
    }
}

} // verus!
