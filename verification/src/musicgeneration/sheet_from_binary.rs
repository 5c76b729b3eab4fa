use vstd::prelude::*;
use vstd::string::*;

use crate::musictheory::measure::{spec_sum_units, Measure};
use crate::musictheory::note_value::{NoteValue, NoteValueBase};
use crate::musictheory::pattern::Pattern;
use crate::musictheory::piano_key::PianoKey;
use crate::musictheory::sheet::Sheet;
use crate::musictheory::sheet_note::SheetNote;
use crate::musictheory::time_signature::TimeSignature;

verus! {

/// The units a byte run turns into notes: the bytes themselves, or,
/// in half-byte mode, each byte's high then low four bits.
pub open spec fn spec_units_of(bytes: Seq<u8>, half_byte_parsing: bool) -> Seq<u8> {
    if half_byte_parsing {
        Seq::new(bytes.len() * 2, |i: int| if i % 2 == 0 {
            (bytes[i / 2] / 16) as u8
        } else {
            (bytes[i / 2] % 16) as u8
        })
    } else {
        bytes
    }
}

/// The quarter note every mapped unit is played as.
pub open spec fn spec_quarter() -> NoteValue {
    NoteValue { base: NoteValueBase::Quarter, dotted: None }
}

/// The note one unit maps to: the base key walked up one chromatic
/// step per unit of value.
pub open spec fn spec_unit_note(base_note: PianoKey, unit: u8) -> PianoKey {
    PianoKey::spec_add_steps(base_note, unit as nat)
}

/// Splits each byte into its two four-bit halves, high half first.
#[verifier::loop_isolation(false)]
fn split_nibbles(bytes: &Vec<u8>) -> (r: Vec<u8>)
    ensures
        r@ == spec_units_of(bytes@, true),
{
    let mut r: Vec<u8> = Vec::new();
    let mut i: usize = 0;
    while i < bytes.len()
        invariant
            i <= bytes@.len(),
            r@.len() == 2 * i,
            forall|j: int| 0 <= j < r@.len() ==> r@[j] == spec_units_of(bytes@, true)[j],
        decreases bytes@.len() - i,
    {
        let b = bytes[i];
        r.push(b / 16);
        r.push(b % 16);
        i = i + 1;
    }
    proof {
        assert(r@ =~= spec_units_of(bytes@, true));
    }
    r
}

/// Maps raw bytes onto a one-pattern sheet: each unit, a byte or a
/// four-bit half, walks the base key up by its value and is played as
/// a quarter note; four quarters fill each measure of the default
/// time signature, and the units left over after the last full
/// measure close the pattern as one final partial measure, so every
/// unit yields a note.
#[verifier::loop_isolation(false)]
#[verifier::rlimit(60)]
pub fn sheet_from_bytes(base_note: PianoKey, bytes: &Vec<u8>, half_byte_parsing: bool) -> (r:
    Sheet)
    requires
        base_note.octave <= 8,
    ensures
        r.patterns@.len() == 1,
        r.patterns@[0].measures@.len() == (spec_units_of(bytes@, half_byte_parsing).len() as int
            + 3) / 4,
        forall|m: int|
            0 <= m < r.patterns@[0].measures@.len()
                ==> (#[trigger] r.patterns@[0].measures@[m]).notes@.len() == (
            if (m + 1) * 4 <= spec_units_of(bytes@, half_byte_parsing).len() {
                4int
            } else {
                spec_units_of(bytes@, half_byte_parsing).len() as int % 4
            }) && r.patterns@[0].measures@[m].spec_wf(),
        forall|m: int, j: int|
            0 <= m < r.patterns@[0].measures@.len() && 0 <= j
                < r.patterns@[0].measures@[m].notes@.len()
                ==> (#[trigger] r.patterns@[0].measures@[m].notes@[j]) == (SheetNote {
                note: spec_unit_note(base_note, spec_units_of(bytes@, half_byte_parsing)[4 * m + j]),
                value: spec_quarter(),
            }),
        r.spec_wf(),
{
    let mut sheet = Sheet::new();
    let mut pattern = Pattern::new(String::new());
    let mut measure = Measure::new(TimeSignature::default());

    let units: Vec<u8> = if half_byte_parsing {
        split_nibbles(bytes)
    } else {
        let mut copy: Vec<u8> = Vec::new();
        let mut i: usize = 0;
        while i < bytes.len()
            invariant
                i <= bytes@.len(),
                copy@ =~= bytes@.subrange(0, i as int),
            decreases bytes@.len() - i,
        {
            copy.push(bytes[i]);
            i = i + 1;
        }
        proof {
            assert(copy@ =~= bytes@);
        }
        copy
    };
    let ghost units_spec = spec_units_of(bytes@, half_byte_parsing);
    let quarter = NoteValue { base: NoteValueBase::Quarter, dotted: None };

    let mut i: usize = 0;
    while i < units.len()
        invariant
            i <= units@.len(),
            units@ == units_spec,
            base_note.octave <= 8,
            measure.time_signature == (TimeSignature { num: 1u32, denom: 1u32 }),
            measure.notes@.len() == i % 4,
            spec_sum_units(measure.notes@) == 32 * (i % 4),
            forall|j: int|
                0 <= j < measure.notes@.len() ==> (#[trigger] measure.notes@[j]) == (SheetNote {
                    note: spec_unit_note(base_note, units_spec[4 * ((i as int) / 4) + j]),
                    value: spec_quarter(),
                }),
            pattern.name@.len() == 0,
            pattern.measures@.len() == i as int / 4,
            forall|m: int, j: int|
                0 <= m < pattern.measures@.len() && 0 <= j < 4
                    ==> (#[trigger] pattern.measures@[m].notes@[j]) == (SheetNote {
                    note: spec_unit_note(base_note, units_spec[4 * m + j]),
                    value: spec_quarter(),
                }),
            forall|m: int|
                0 <= m < pattern.measures@.len() ==> (#[trigger] pattern.measures@[m]).notes@.len()
                    == 4 && pattern.measures@[m].spec_wf(),
            sheet.patterns@.len() == 0,
        decreases units@.len() - i,
    {
        let unit = units[i];
        let mut note = base_note;
        let mut step: u8 = 0;
        while step < unit
            invariant
                step <= unit,
                note == PianoKey::spec_add_steps(base_note, step as nat),
                base_note.octave <= 8,
                note.spec_pos() <= base_note.spec_pos() + step,
            decreases unit - step,
        {
            proof {
                assert(-1 <= note.note.spec_pc() < 12);
                assert(12 * note.octave <= note.spec_pos() + 1);
            }
            note.inc();
            proof {
                crate::musictheory::piano_key::lemma_inc_key(
                    PianoKey::spec_add_steps(base_note, step as nat),
                );
            }
            step = step + 1;
        }

        let ghost notes_before = measure.notes@;
        let added = measure.add_note(note, quarter);
        proof {
            assert(spec_sum_units(notes_before) <= 96);
            assert(quarter.spec_units() == 32);
            assert(added is Ok);
            assert(measure.notes@.drop_last() =~= notes_before);
            assert(spec_sum_units(measure.notes@) == spec_sum_units(notes_before) + 32);
            assert(4 * ((i as int) / 4) + (i as int) % 4 == i as int);
        }
        if measure.is_measure_complete() {
            let ghost measures_before = pattern.measures@;
            let full = measure;
            pattern.add_measure(full);
            measure = Measure::new(TimeSignature::default());
            proof {
                assert(forall|mm: int|
                    0 <= mm < measures_before.len() ==> #[trigger] pattern.measures@[mm]
                        == measures_before[mm]);
                assert(pattern.measures@[measures_before.len() as int] == full);
                assert((i as int) % 4 == 3);
                assert((i as int + 1) % 4 == 0);
                assert((i as int + 1) / 4 == (i as int) / 4 + 1);
            }
        } else {
            proof {
                assert((i as int) % 4 != 3);
                assert((i as int + 1) % 4 == (i as int) % 4 + 1);
                assert((i as int + 1) / 4 == (i as int) / 4);
            }
        }
        i = i + 1;
    }
    if measure.notes.len() > 0 {
        let ghost measures_before = pattern.measures@;
        let partial = measure;
        pattern.add_measure(partial);
        proof {
            assert(forall|mm: int|
                0 <= mm < measures_before.len() ==> #[trigger] pattern.measures@[mm]
                    == measures_before[mm]);
            assert(pattern.measures@[measures_before.len() as int] == partial);
            assert((i as int) % 4 != 0);
            assert((i as int + 3) / 4 == (i as int) / 4 + 1);
        }
    } else {
        proof {
            assert((i as int) % 4 == 0);
            assert((i as int + 3) / 4 == (i as int) / 4);
        }
    }
    sheet.add_pattern(pattern);
    sheet
}

} // verus!
