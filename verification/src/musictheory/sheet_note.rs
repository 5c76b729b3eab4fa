use vstd::prelude::*;

use super::note_value::NoteValue;
use super::piano_key::PianoKey;

verus! {

/// One played event: a piano key held for a rhythmic duration.
#[derive(Debug, Clone, Copy, PartialEq, Eq, Structural)]
pub struct SheetNote {
    pub note: PianoKey,
    pub value: NoteValue,
}

} // verus!
