use vstd::prelude::*;

use crate::musictheory::pitch::{spec_key_micro_hz, Pitch};
use crate::musictheory::sheet::Sheet;
use crate::musictheory::sheet_note::SheetNote;
use crate::musictheory::tempo::Tempo;
use crate::signal::adsr_envelop::AdsrEnvelop;
use super::SAMPLE_RATE_HZ;

verus! {

/// A sheet stream: every tick voices the note under the cursor,
/// shaped by the amplitude envelope, and when the tick count covers
/// the note's duration the cursor steps to the next note, the next
/// measure, the next pattern, and wraps back to the very start after
/// the last pattern.
pub struct SheetMusicMaker {
    pub sheet: Sheet,
    pub current_note: usize,
    pub current_measure: usize,
    pub current_pattern: usize,
    pub current_sample: u64,
    pub adsr_envelop: AdsrEnvelop,
    pub sample_rate: u32,
    pub tempo: Tempo,
}

/// Where the cursor stands after one note ends: the next note of the
/// measure, else the next measure's first note, else the next
/// pattern's first note, else the very start.
pub open spec fn spec_advance(sheet: Sheet, p: int, m: int, n: int) -> (int, int, int) {
    if n + 1 < sheet.patterns@[p].measures@[m].notes@.len() {
        (p, m, n + 1)
    } else if m + 1 < sheet.patterns@[p].measures@.len() {
        (p, m + 1, 0)
    } else if p + 1 < sheet.patterns@.len() {
        (p + 1, 0, 0)
    } else {
        (0, 0, 0)
    }
}

impl SheetMusicMaker {
    /// Every position of the sheet holds something to play, and its
    /// notes stay on the keyboard.
    pub open spec fn spec_sheet_playable(sheet: Sheet) -> bool {
        &&& sheet.patterns@.len() >= 1
        &&& forall|p: int|
            0 <= p < sheet.patterns@.len() ==> (#[trigger] sheet.patterns@[p]).measures@.len() >= 1
        &&& forall|p: int, m: int|
            0 <= p < sheet.patterns@.len() && 0 <= m < sheet.patterns@[p].measures@.len() ==> (
            #[trigger] sheet.patterns@[p].measures@[m]).notes@.len() >= 1
        &&& forall|p: int, m: int, n: int|
            0 <= p < sheet.patterns@.len() && 0 <= m < sheet.patterns@[p].measures@.len() && 0 <= n
                < sheet.patterns@[p].measures@[m].notes@.len() ==> (
            #[trigger] sheet.patterns@[p].measures@[m].notes@[n]).note.octave <= 16
    }

    /// The cursor points inside a playable sheet.
    pub open spec fn spec_cursor_ok(self) -> bool {
        &&& SheetMusicMaker::spec_sheet_playable(self.sheet)
        &&& self.current_pattern < self.sheet.patterns@.len()
        &&& self.current_measure < self.sheet.patterns@[self.current_pattern as int].measures@.len()
        &&& self.current_note < self.sheet.patterns@[self.current_pattern as int].measures@[self.current_measure as int].notes@.len()
    }

    /// The maker can tick: its sheet is playable, its cursor points
    /// inside it, its envelope and tempo are sound, and its clock is
    /// in range.
    pub open spec fn spec_wf(self) -> bool {
        &&& self.spec_cursor_ok()
        &&& self.adsr_envelop.spec_wf()
        &&& self.tempo.0 >= 1
        &&& 1 <= self.sample_rate <= 1_000_000
        &&& self.current_sample <= 0xffff_ffff
    }

    /// The note under the cursor.
    pub open spec fn spec_current(self) -> SheetNote {
        self.sheet.patterns@[self.current_pattern as int].measures@[self.current_measure as int].notes@[self.current_note as int]
    }

    /// Builds a sheet stream with the flat default envelope.
    pub fn new(sheet: Sheet, tempo: u16) -> (r: Self)
        ensures
            r.sheet == sheet,
            r.current_note == 0,
            r.current_measure == 0,
            r.current_pattern == 0,
            r.current_sample == 0,
            r.adsr_envelop == (AdsrEnvelop {
                attack_ms: 0u32,
                decay_ms: 0u32,
                sustain_ms: 100_000u32,
                release_ms: 0u32,
            }),
            r.sample_rate == SAMPLE_RATE_HZ,
            r.tempo.0 == tempo,
    {
        SheetMusicMaker {
            sheet,
            current_note: 0,
            current_measure: 0,
            current_pattern: 0,
            current_sample: 0,
            adsr_envelop: AdsrEnvelop::default(),
            sample_rate: SAMPLE_RATE_HZ,
            tempo: Tempo::from_bpm(tempo),
        }
    }

    /// Replaces the amplitude envelope.
    pub fn set_adsr_envelop(self, adsr_envelop: AdsrEnvelop) -> (r: Self)
        ensures
            r == (SheetMusicMaker { adsr_envelop, ..self }),
    {
        SheetMusicMaker { adsr_envelop, ..self }
    }

    /// The frequency of the note under the cursor, in microhertz.
    pub fn get_frequency(&self) -> (r: u64)
        requires
            self.spec_cursor_ok(),
        ensures
            r == spec_key_micro_hz(self.spec_current().note),
    {
        let current = self.sheet.patterns[self.current_pattern].measures[self.current_measure].notes[self.current_note];
        Pitch::from_piano_key(current.note).micro_hz()
    }

    /// Steps the cursor past the end of the current note.
    pub fn next_note(&mut self)
        requires
            old(self).spec_cursor_ok(),
        ensures
            final(self).spec_cursor_ok(),
            final(self).sheet == old(self).sheet,
            final(self).current_sample == old(self).current_sample,
            final(self).adsr_envelop == old(self).adsr_envelop,
            final(self).sample_rate == old(self).sample_rate,
            final(self).tempo == old(self).tempo,
            (final(self).current_pattern as int, final(self).current_measure as int, final(self).current_note as int) == spec_advance(
                old(self).sheet,
                old(self).current_pattern as int,
                old(self).current_measure as int,
                old(self).current_note as int,
            ),
    {
        let n_notes =
            self.sheet.patterns[self.current_pattern].measures[self.current_measure].notes.len();
        let n_measures = self.sheet.patterns[self.current_pattern].measures.len();
        let n_patterns = self.sheet.patterns.len();
        self.current_note = self.current_note + 1;
        if self.current_note >= n_notes {
            self.current_measure = self.current_measure + 1;
            self.current_note = 0;
            if self.current_measure >= n_measures {
                self.current_pattern = self.current_pattern + 1;
                self.current_measure = 0;
                if self.current_pattern >= n_patterns {
                    self.current_pattern = 0;
                }
            }
        }
    }

    /// One sample tick: reports the frequency of the note under the
    /// cursor, the tick index within it, and the envelope amplitude
    /// for that tick in millionths, then advances.  When the new tick
    /// count covers the note's duration at the configured tempo, the
    /// count resets and the cursor steps to the next note.
    pub fn next(&mut self) -> (r: (u64, u64, u64))
        requires
            old(self).spec_wf(),
        ensures
            final(self).spec_wf(),
            final(self).sheet == old(self).sheet,
            final(self).adsr_envelop == old(self).adsr_envelop,
            final(self).sample_rate == old(self).sample_rate,
            final(self).tempo == old(self).tempo,
            r.0 == spec_key_micro_hz(old(self).spec_current().note),
            r.1 == old(self).current_sample + 1,
            r.2 == old(self).adsr_envelop.spec_amplitude(
                old(self).current_sample + 1,
                old(self).sample_rate as int,
            ),
            (old(self).current_sample + 1) * 8 * old(self).tempo.0 >= old(self).sample_rate * old(self).spec_current().value.spec_units() * 15 ==> final(self).current_sample == 0 && (final(self).current_pattern as int, final(self).current_measure as int, final(self).current_note as int) == spec_advance(
                old(self).sheet,
                old(self).current_pattern as int,
                old(self).current_measure as int,
                old(self).current_note as int,
            ),
            (old(self).current_sample + 1) * 8 * old(self).tempo.0 < old(self).sample_rate * old(self).spec_current().value.spec_units() * 15 ==> final(self).current_sample == old(self).current_sample + 1 && final(self).current_pattern == old(self).current_pattern
                && final(self).current_measure == old(self).current_measure && final(self).current_note == old(self).current_note,
    {
        self.current_sample = self.current_sample + 1;
        let current = self.sheet.patterns[self.current_pattern].measures[self.current_measure].notes[self.current_note];
        let amplitude = self.adsr_envelop.get_amplitude_for_sample(
            self.current_sample,
            self.sample_rate,
        );
        let freq = self.get_frequency();
        let tick = self.current_sample;
        let units = current.value.get_relative_duration();
        proof {
            crate::musicsource::chord_music_maker::use_mul_bounds(
                self.current_sample as int,
                self.tempo.0 as int,
                self.sample_rate as int,
                units as int,
            );
        }
        if self.current_sample * 8 * (self.tempo.0 as u64) >= (self.sample_rate as u64) * (
        units as u64) * 15 {
            self.current_sample = 0;
            self.next_note();
        } else {
            proof {
                vstd::arithmetic::mul::lemma_mul_inequality(
                    1,
                    self.tempo.0 as int,
                    self.current_sample as int * 8,
                );
                vstd::arithmetic::mul::lemma_mul_is_commutative(
                    self.current_sample as int * 8,
                    self.tempo.0 as int,
                );
                vstd::arithmetic::mul::lemma_mul_basics(self.current_sample as int * 8);
            }
        }
        (freq, tick, amplitude)
    }
}

} // verus!
