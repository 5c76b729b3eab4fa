use vstd::prelude::*;

use crate::musictheory::key::Key;
use crate::musictheory::note::{Note, NoteLetter};
use crate::musictheory::piano_key::PianoKey;
use crate::musictheory::pitch::{spec_key_micro_hz, Pitch};
use crate::musictheory::scale::Scale;
use crate::musictheory::tempo::Tempo;
use crate::rng::rand_below;
use super::SAMPLE_RATE_HZ;

verus! {

/// A melody stream: every tick voices the current note, and when the
/// tick count reaches one beat's worth of samples the cursor draws a
/// fresh note from the key at random.
pub struct MelodyMusicMaker {
    pub key: Key,
    pub seed: rand::rngs::SmallRng,
    pub current_note: PianoKey,
    pub current_sample: u64,
    pub sample_rate: u32,
    pub tempo: Tempo,
}

/// Middle C, where every melody stream opens.
pub open spec fn spec_middle_c() -> PianoKey {
    PianoKey { note: Note { accidental: None, letter: NoteLetter::C }, octave: 4 }
}

impl MelodyMusicMaker {
    /// The maker can tick: its key fits the keyboard, its tempo
    /// beats, its sample rate is a real audio rate, and its cursor
    /// state is in range.
    pub open spec fn spec_wf(self) -> bool {
        &&& self.key.base_note.octave + self.key.octaves <= 9
        &&& self.tempo.0 >= 1
        &&& 1 <= self.sample_rate <= 1_000_000
        &&& self.current_note.octave <= 16
        &&& self.current_sample <= 0xffff_ffff
    }

    /// Builds a melody stream over one key, opening on middle C, with
    /// the caller's own seeded random source.
    pub fn new(
        base_note: PianoKey,
        scale: Scale,
        octaves: u8,
        tempo: u16,
        seed: rand::rngs::SmallRng,
    ) -> (r: Self)
        ensures
            r.key == (Key { scale, base_note, octaves }),
            r.current_note == spec_middle_c(),
            r.current_sample == 0,
            r.sample_rate == SAMPLE_RATE_HZ,
            r.tempo.0 == tempo,
    {
        MelodyMusicMaker {
            key: Key::new(scale, base_note, octaves),
            seed,
            current_note: PianoKey {
                note: Note { accidental: None, letter: NoteLetter::C },
                octave: 4,
            },
            current_sample: 0,
            sample_rate: SAMPLE_RATE_HZ,
            tempo: Tempo::from_bpm(tempo),
        }
    }

    /// The frequency of the note under the cursor, in microhertz.
    pub fn get_frequency(&self) -> (r: u64)
        requires
            self.current_note.octave <= 16,
        ensures
            r == spec_key_micro_hz(self.current_note),
    {
        Pitch::from_piano_key(self.current_note).micro_hz()
    }

    /// Draws a fresh note from the key at random.
    pub fn new_note(&mut self)
        requires
            old(self).spec_wf(),
        ensures
            final(self).spec_wf(),
            final(self).key == old(self).key,
            final(self).current_sample == old(self).current_sample,
            final(self).sample_rate == old(self).sample_rate,
            final(self).tempo == old(self).tempo,
            old(self).key.spec_all_keys().contains(final(self).current_note),
    {
        let keys = self.key.all_keys();
        let j = rand_below(&mut self.seed, keys.len());
        let pick = keys[j];
        proof {
            assert(old(self).key.spec_all_keys().contains(pick)) by {
                assert(old(self).key.spec_all_keys()[j as int] == pick);
            };
        }
        self.current_note = pick;
    }

    /// One sample tick: reports the frequency of the note being
    /// voiced and the tick index within it, then advances.  When the
    /// new tick count reaches one beat of samples, the count resets
    /// and a fresh note is drawn from the key.
    pub fn next(&mut self) -> (r: (u64, u64))
        requires
            old(self).spec_wf(),
        ensures
            final(self).spec_wf(),
            final(self).key == old(self).key,
            final(self).sample_rate == old(self).sample_rate,
            final(self).tempo == old(self).tempo,
            r.0 == spec_key_micro_hz(old(self).current_note),
            r.1 == old(self).current_sample + 1,
            (old(self).current_sample + 1) * old(self).tempo.0 >= old(self).sample_rate * 60
                ==> final(self).current_sample == 0 && old(self).key.spec_all_keys().contains(
                final(self).current_note,
            ),
            (old(self).current_sample + 1) * old(self).tempo.0 < old(self).sample_rate * 60
                ==> final(self).current_sample == old(self).current_sample + 1
                && final(self).current_note == old(self).current_note,
    {
        self.current_sample = self.current_sample + 1;
        let freq = self.get_frequency();
        let tick = self.current_sample;
        proof {
            vstd::arithmetic::mul::lemma_mul_upper_bound(
                self.current_sample as int,
                0x1_0000_0000,
                self.tempo.0 as int,
                0xffff,
            );
        }
        if self.current_sample * (self.tempo.0 as u64) >= (self.sample_rate as u64) * 60 {
            self.current_sample = 0;
            self.new_note();
        } else {
            proof {
                vstd::arithmetic::mul::lemma_mul_inequality(
                    1,
                    self.tempo.0 as int,
                    self.current_sample as int,
                );
                vstd::arithmetic::mul::lemma_mul_is_commutative(
                    self.current_sample as int,
                    self.tempo.0 as int,
                );
                vstd::arithmetic::mul::lemma_mul_basics(self.current_sample as int);
            }
        }
        (freq, tick)
    }
}

} // verus!
