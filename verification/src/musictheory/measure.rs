use vstd::prelude::*;
use vstd::arithmetic::mul::*;

use crate::error::MusicError;
use super::note_value::NoteValue;
use super::piano_key::PianoKey;
use super::sheet_note::SheetNote;
use super::time_signature::TimeSignature;

verus! {

/// A fixed-capacity run of notes: the sum of the notes' relative
/// durations can never exceed what the time signature allows.
#[derive(Debug, Clone, PartialEq)]
pub struct Measure {
    pub notes: Vec<SheetNote>,
    pub time_signature: TimeSignature,
}

/// The total duration of a run of notes, in 1/128ths of a whole note.
pub open spec fn spec_sum_units(notes: Seq<SheetNote>) -> int
    decreases notes.len(),
{
    if notes.len() == 0 {
        0
    } else {
        spec_sum_units(notes.drop_last()) + notes.last().value.spec_units()
    }
}

/// A prefix of a run of notes never lasts longer than the whole run,
/// and no run lasts a negative time.
pub proof fn lemma_sum_units_prefix(notes: Seq<SheetNote>, n: int)
    requires
        0 <= n <= notes.len(),
        forall|i: int| 0 <= i < notes.len() ==> 0 <= (#[trigger] notes[i]).value.spec_units(),
    ensures
        0 <= spec_sum_units(notes.subrange(0, n)) <= spec_sum_units(notes),
    decreases notes.len(),
{
    if notes.len() == 0 {
        assert(notes.subrange(0, n) =~= notes);
    } else if n < notes.len() {
        lemma_sum_units_prefix(notes.drop_last(), n);
        assert(notes.drop_last().subrange(0, n) =~= notes.subrange(0, n));
        assert(notes.last() == notes[notes.len() - 1]);
    } else {
        assert(notes.subrange(0, n) =~= notes);
        lemma_sum_units_prefix(notes.drop_last(), n - 1);
    }
}

impl Measure {
    /// The measure's contents respect its time signature: the notes'
    /// total duration, measured against the signature's denominator,
    /// stays within the signature's numerator of whole-note 128ths.
    pub open spec fn spec_wf(self) -> bool {
        &&& self.time_signature.spec_wf()
        &&& spec_sum_units(self.notes@) * self.time_signature.denom <= self.time_signature.num
            * 128
    }

    /// An empty measure with the given time signature.
    pub fn new(time_signature: TimeSignature) -> (r: Self)
        ensures
            r.notes@.len() == 0,
            r.time_signature == time_signature,
            time_signature.spec_wf() ==> r.spec_wf(),
    {
        let r = Measure { notes: Vec::new(), time_signature };
        proof {
            lemma_mul_basics(time_signature.denom as int);
        }
        r
    }

    /// The total duration of the measure's notes so far, in 1/128ths
    /// of a whole note.
    #[verifier::loop_isolation(false)]
    pub fn total_units(&self) -> (r: u64)
        requires
            self.spec_wf(),
        ensures
            r == spec_sum_units(self.notes@),
    {
        proof {
            assert forall|i: int| 0 <= i < self.notes@.len() implies 0 <= (
            #[trigger] self.notes@[i]).value.spec_units() by {}
            lemma_sum_units_prefix(self.notes@, self.notes@.len() as int);
            assert(spec_sum_units(self.notes@) * self.time_signature.denom >= spec_sum_units(
                self.notes@,
            ) * 1) by {
                lemma_mul_inequality(
                    1,
                    self.time_signature.denom as int,
                    spec_sum_units(self.notes@),
                );
                lemma_mul_is_commutative(
                    spec_sum_units(self.notes@),
                    self.time_signature.denom as int,
                );
                lemma_mul_basics(spec_sum_units(self.notes@));
            };
        }
        let mut sum: u64 = 0;
        let mut i: usize = 0;
        while i < self.notes.len()
            invariant
                i <= self.notes@.len(),
                sum == spec_sum_units(self.notes@.subrange(0, i as int)),
            decreases self.notes@.len() - i,
        {
            proof {
                lemma_sum_units_prefix(self.notes@, i + 1);
                assert(self.notes@.subrange(0, i as int + 1).drop_last() =~= self.notes@.subrange(
                    0,
                    i as int,
                ));
            }
            sum = sum + self.notes[i].value.get_relative_duration() as u64;
            i = i + 1;
        }
        proof {
            assert(self.notes@.subrange(0, self.notes@.len() as int) =~= self.notes@);
        }
        sum
    }

    /// How much room is left, in 1/(128 times the denominator)ths of a
    /// whole note: for the default one-whole signature, the plain count
    /// of free 128ths.
    pub fn get_remaining_value(&self) -> (r: u64)
        requires
            self.spec_wf(),
        ensures
            r == self.time_signature.num * 128 - spec_sum_units(self.notes@)
                * self.time_signature.denom,
    {
        let sum = self.total_units();
        let capacity = (self.time_signature.num as u64) * 128;
        let used = sum * (self.time_signature.denom as u64);
        capacity - used
    }

    /// Whether the measure is exactly full.
    pub fn is_measure_complete(&self) -> (r: bool)
        requires
            self.spec_wf(),
        ensures
            r <==> spec_sum_units(self.notes@) * self.time_signature.denom
                == self.time_signature.num * 128,
    {
        self.get_remaining_value() == 0
    }

    /// Appends one note, unless its duration exceeds the room that is
    /// left; an overflowing note is refused and the measure stands
    /// unchanged.
    pub fn add_note(&mut self, note: PianoKey, value: NoteValue) -> (r: Result<(), MusicError>)
        requires
            old(self).spec_wf(),
        ensures
            final(self).spec_wf(),
            final(self).time_signature == old(self).time_signature,
            value.spec_units() * old(self).time_signature.denom <= old(
                self,
            ).time_signature.num * 128 - spec_sum_units(old(self).notes@) * old(
                self,
            ).time_signature.denom ==> r is Ok && final(self).notes@ == old(self).notes@.push(
                SheetNote { note, value },
            ),
            value.spec_units() * old(self).time_signature.denom > old(
                self,
            ).time_signature.num * 128 - spec_sum_units(old(self).notes@) * old(
                self,
            ).time_signature.denom ==> r == Err::<(), MusicError>(MusicError::MeasureOverflow)
                && *final(self) == *old(self),
    {
        let remaining = self.get_remaining_value();
        let units = value.get_relative_duration();
        proof {
            lemma_mul_upper_bound(units as int, 240, self.time_signature.denom as int, 0xffff_ffff);
        }
        let need = (units as u64) * (self.time_signature.denom as u64);
        if need > remaining {
            return Err(MusicError::MeasureOverflow);
        }
        let ghost old_notes = self.notes@;
        self.notes.push(SheetNote { note, value });
        proof {
            assert(self.notes@.drop_last() =~= old_notes);
            lemma_mul_is_distributive_add_other_way(
                self.time_signature.denom as int,
                spec_sum_units(old_notes),
                value.spec_units(),
            );
        }
        Ok(())
    }
}

impl Measure {
    /// An element-for-element copy of the measure.
    #[verifier::loop_isolation(false)]
    pub fn duplicate(&self) -> (r: Measure)
        ensures
            r.notes@ == self.notes@,
            r.time_signature == self.time_signature,
    {
        let mut notes: Vec<SheetNote> = Vec::new();
        let mut i: usize = 0;
        while i < self.notes.len()
            invariant
                i <= self.notes@.len(),
                notes@ =~= self.notes@.subrange(0, i as int),
            decreases self.notes@.len() - i,
        {
            notes.push(self.notes[i]);
            i = i + 1;
        }
        proof {
            assert(notes@ =~= self.notes@);
        }
        Measure { notes, time_signature: self.time_signature }
    }
}

/// The standing capacity law: a well-formed measure's notes never
/// exceed what its time signature allows, and `add_note` keeps it so
/// by refusing any note that would; the refused measure is unchanged.
pub proof fn lemma_measure_never_overflows(m: Measure)
    requires
        m.spec_wf(),
    ensures
        spec_sum_units(m.notes@) * m.time_signature.denom <= m.time_signature.num * 128,
{
}

impl Default for Measure {
    /// The default measure is empty, with the default one-whole time
    /// signature.
    fn default() -> (r: Self)
        ensures
            r.notes@.len() == 0,
            r.time_signature == (TimeSignature { num: 1u32, denom: 1u32 }),
            r.spec_wf(),
    {
        let r = Measure { notes: Vec::new(), time_signature: TimeSignature { num: 1, denom: 1 } };
        proof {
            lemma_mul_basics(1int);
        }
        r
    }
}

} // verus!
