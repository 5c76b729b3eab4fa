use vstd::prelude::*;

use super::pattern::Pattern;

verus! {

/// A whole piece: an ordered run of patterns.
#[derive(Debug, Clone, PartialEq)]
pub struct Sheet {
    pub patterns: Vec<Pattern>,
}

impl Sheet {
    /// Every measure of every pattern respects its time signature.
    pub open spec fn spec_wf(self) -> bool {
        forall|i: int| 0 <= i < self.patterns@.len() ==> (#[trigger] self.patterns@[i]).spec_wf()
    }

    /// An empty sheet.
    pub fn new() -> (r: Self)
        ensures
            r.patterns@.len() == 0,
            r.spec_wf(),
    {
        Sheet { patterns: Vec::new() }
    }

    /// Appends one pattern.
    pub fn add_pattern(&mut self, pattern: Pattern)
        ensures
            final(self).patterns@ == old(self).patterns@.push(pattern),
    {
        self.patterns.push(pattern);
    }
}

} // verus!
