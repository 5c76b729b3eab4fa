use vstd::prelude::*;

use crate::musictheory::chord_progression::ChordProgression;
use crate::musictheory::note_value::NoteValue;
use crate::musictheory::pitch::{spec_key_micro_hz, Pitch};
use crate::musictheory::tempo::Tempo;
use super::SAMPLE_RATE_HZ;

verus! {

/// A chord accompaniment stream: every tick voices all tones of the
/// current chord, and when the tick count reaches the current rhythm
/// value's worth of samples the cursor steps to the next chord and
/// the next rhythm value, wrapping at the end of each.
pub struct ChordMusicMaker {
    pub chord_progression: ChordProgression,
    pub current_chord: usize,
    pub current_sample: u64,
    pub rhythm_pattern: Vec<NoteValue>,
    pub current_note_value: usize,
    pub sample_rate: u32,
    pub tempo: Tempo,
    pub instrument_debug: bool,
}

impl ChordMusicMaker {
    /// The maker can tick: it has chords and rhythm values, its
    /// cursors point inside them, every chord can be spelled out, its
    /// tempo beats, and its clock is in range.
    pub open spec fn spec_wf(self) -> bool {
        &&& self.chord_progression.chords@.len() >= 1
        &&& self.rhythm_pattern@.len() >= 1
        &&& self.current_chord < self.chord_progression.chords@.len()
        &&& self.current_note_value < self.rhythm_pattern@.len()
        &&& forall|i: int|
            0 <= i < self.chord_progression.chords@.len()
                ==> (#[trigger] self.chord_progression.chords@[i]).spec_wf()
        &&& self.tempo.0 >= 1
        &&& 1 <= self.sample_rate <= 1_000_000
        &&& self.current_sample <= 0xffff_ffff
    }

    /// Builds a chord stream over a progression and a rhythm cell.
    pub fn new(
        chord_progression: ChordProgression,
        rhythm_pattern: Vec<NoteValue>,
        tempo: u16,
        inst_debug: bool,
    ) -> (r: Self)
        ensures
            r.chord_progression == chord_progression,
            r.rhythm_pattern@ == rhythm_pattern@,
            r.current_chord == 0,
            r.current_note_value == 0,
            r.current_sample == 0,
            r.sample_rate == SAMPLE_RATE_HZ,
            r.tempo.0 == tempo,
            r.instrument_debug == inst_debug,
    {
        ChordMusicMaker {
            chord_progression,
            current_chord: 0,
            current_sample: 0,
            rhythm_pattern,
            current_note_value: 0,
            sample_rate: SAMPLE_RATE_HZ,
            tempo: Tempo::from_bpm(tempo),
            instrument_debug: inst_debug,
        }
    }

    /// Steps to the next chord and the next rhythm value, each
    /// wrapping back to the start past its end.
    pub fn next_chord(&mut self)
        requires
            old(self).spec_wf(),
        ensures
            final(self).spec_wf(),
            final(self).chord_progression == old(self).chord_progression,
            final(self).rhythm_pattern@ == old(self).rhythm_pattern@,
            final(self).current_sample == old(self).current_sample,
            final(self).sample_rate == old(self).sample_rate,
            final(self).tempo == old(self).tempo,
            final(self).instrument_debug == old(self).instrument_debug,
            final(self).current_chord == (if old(self).current_chord + 1 < old(self).chord_progression.chords@.len() {
                old(self).current_chord + 1
            } else {
                0
            }),
            final(self).current_note_value == (if old(self).current_note_value + 1 < old(self).rhythm_pattern@.len() {
                old(self).current_note_value + 1
            } else {
                0
            }),
    {
        let n_chords = self.chord_progression.chords.len();
        let n_values = self.rhythm_pattern.len();
        self.current_chord = self.current_chord + 1;
        if self.current_chord >= n_chords {
            self.current_chord = 0;
        }
        self.current_note_value = self.current_note_value + 1;
        if self.current_note_value >= n_values {
            self.current_note_value = 0;
        }
    }

    /// One sample tick: reports the frequencies of every tone of the
    /// chord being voiced, in microhertz, and the tick index within
    /// it, then advances.  When the new tick count covers the current
    /// rhythm value at the configured tempo, the count resets and the
    /// cursor steps to the next chord.
    #[verifier::loop_isolation(false)]
    pub fn next(&mut self) -> (r: (Vec<u64>, u64))
        requires
            old(self).spec_wf(),
        ensures
            final(self).spec_wf(),
            final(self).chord_progression == old(self).chord_progression,
            final(self).rhythm_pattern@ == old(self).rhythm_pattern@,
            final(self).sample_rate == old(self).sample_rate,
            final(self).tempo == old(self).tempo,
            final(self).instrument_debug == old(self).instrument_debug,
            r.0@.len() == old(self).chord_progression.chords@[old(self).current_chord as int].spec_n_keys(),
            forall|i: int|
                0 <= i < r.0@.len() ==> r.0@[i] == spec_key_micro_hz(
                    #[trigger] old(self).chord_progression.chords@[old(self).current_chord as int].spec_keys()[i],
                ),
            r.1 == old(self).current_sample + 1,
            (old(self).current_sample + 1) * 8 * old(self).tempo.0 >= old(self).sample_rate * old(self).rhythm_pattern@[old(self).current_note_value as int].spec_units() * 15 ==> final(self).current_sample == 0
                && final(self).current_chord == (if old(self).current_chord + 1 < old(self).chord_progression.chords@.len() {
                old(self).current_chord + 1
            } else {
                0
            }) && final(self).current_note_value == (if old(self).current_note_value + 1 < old(self).rhythm_pattern@.len() {
                old(self).current_note_value + 1
            } else {
                0
            }),
            (old(self).current_sample + 1) * 8 * old(self).tempo.0 < old(self).sample_rate * old(self).rhythm_pattern@[old(self).current_note_value as int].spec_units() * 15 ==> final(self).current_sample == old(self).current_sample + 1 && final(self).current_chord == old(self).current_chord && final(self).current_note_value == old(self).current_note_value,
    {
        self.current_sample = self.current_sample + 1;

        let chord = &self.chord_progression.chords[self.current_chord];
        let keys = chord.get_keys();
        let mut freqs: Vec<u64> = Vec::new();
        let mut i: usize = 0;
        while i < keys.len()
            invariant
                i <= keys@.len(),
                freqs@.len() == i,
                forall|j: int|
                    0 <= j < i ==> freqs@[j] == spec_key_micro_hz(#[trigger] keys@[j]),
            decreases keys@.len() - i,
        {
            freqs.push(Pitch::from_piano_key(keys[i]).micro_hz());
            i = i + 1;
        }

        let tick = self.current_sample;
        let units = self.rhythm_pattern[self.current_note_value].get_relative_duration();
        proof {
            use_mul_bounds(
                self.current_sample as int,
                self.tempo.0 as int,
                self.sample_rate as int,
                units as int,
            );
        }
        if self.current_sample * 8 * (self.tempo.0 as u64) >= (self.sample_rate as u64) * (
        units as u64) * 15 {
            self.current_sample = 0;
            self.next_chord();
        } else {
            proof {
                vstd::arithmetic::mul::lemma_mul_inequality(
                    1,
                    self.tempo.0 as int,
                    self.current_sample as int * 8,
                );
                vstd::arithmetic::mul::lemma_mul_is_commutative(
                    self.current_sample as int * 8,
                    self.tempo.0 as int,
                );
                vstd::arithmetic::mul::lemma_mul_basics(self.current_sample as int * 8);
            }
        }
        (freqs, tick)
    }
}

/// The products that compare one tick against a note's duration all
/// fit comfortably in sixty-four bits.
pub proof fn use_mul_bounds(sample: int, tempo: int, rate: int, units: int)
    requires
        0 <= sample <= 0x1_0000_0000,
        0 <= tempo <= 0xffff,
        0 <= rate <= 1_000_000,
        0 <= units <= 240,
    ensures
        sample * 8 * tempo <= 0x1_0000_0000 * 8 * 0xffff,
        rate * units <= 240_000_000,
        rate * units * 15 <= 3_600_000_000,
{
    vstd::arithmetic::mul::lemma_mul_upper_bound(sample * 8, 0x8_0000_0000, tempo, 0xffff);
    vstd::arithmetic::mul::lemma_mul_upper_bound(rate, 1_000_000, units, 240);
    vstd::arithmetic::mul::lemma_mul_inequality(rate * units, 240_000_000, 15);
    vstd::arithmetic::mul::lemma_mul_is_commutative(rate * units, 15);
    vstd::arithmetic::mul::lemma_mul_is_commutative(240_000_000, 15);
}

} // verus!
