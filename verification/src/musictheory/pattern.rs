use vstd::prelude::*;
use vstd::string::*;

use super::measure::Measure;

verus! {

/// A named, ordered run of measures.
#[derive(Debug, Clone, PartialEq)]
pub struct Pattern {
    pub name: String,
    pub measures: Vec<Measure>,
}

impl Pattern {
    /// Every measure of the pattern respects its time signature.
    pub open spec fn spec_wf(self) -> bool {
        forall|i: int| 0 <= i < self.measures@.len() ==> (#[trigger] self.measures@[i]).spec_wf()
    }

    /// An empty pattern with the given name.
    pub fn new(name: String) -> (r: Self)
        ensures
            r.name@ == name@,
            r.measures@.len() == 0,
            r.spec_wf(),
    {
        Pattern { name, measures: Vec::new() }
    }

    /// A measure-for-measure copy of the pattern.
    #[verifier::loop_isolation(false)]
    pub fn duplicate(&self) -> (r: Pattern)
        ensures
            r.name@ == self.name@,
            r.measures@.len() == self.measures@.len(),
            forall|i: int|
                0 <= i < self.measures@.len() ==> (#[trigger] r.measures@[i]).notes@
                    == self.measures@[i].notes@ && r.measures@[i].time_signature
                    == self.measures@[i].time_signature,
    {
        let mut measures: Vec<Measure> = Vec::new();
        let mut i: usize = 0;
        while i < self.measures.len()
            invariant
                i <= self.measures@.len(),
                measures@.len() == i,
                forall|q: int|
                    0 <= q < i ==> (#[trigger] measures@[q]).notes@ == self.measures@[q].notes@
                        && measures@[q].time_signature == self.measures@[q].time_signature,
            decreases self.measures@.len() - i,
        {
            let m = self.measures[i].duplicate();
            measures.push(m);
            i = i + 1;
        }
        Pattern { name: self.name.clone(), measures }
    }

    /// Appends one measure.
    pub fn add_measure(&mut self, measure: Measure)
        ensures
            final(self).name == old(self).name,
            final(self).measures@ == old(self).measures@.push(measure),
    {
        self.measures.push(measure);
    }
}

} // verus!
