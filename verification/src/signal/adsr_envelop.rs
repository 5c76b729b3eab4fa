use vstd::prelude::*;
use vstd::arithmetic::div_mod::lemma_fundamental_div_mod;
use vstd::arithmetic::mul::*;

verus! {

/// One full amplitude, in millionths.
pub const UNIT_AMPLITUDE_MICRO: u64 = 1_000_000;

/// The amplitude the attack ramp peaks at: one and a half, in
/// millionths.
pub const ATTACK_PEAK_MICRO: u64 = 1_500_000;

/// The longest segment an envelope may carry, in milliseconds.
pub const MAX_SEGMENT_MS: u32 = 1_000_000;

/// An attack/decay/sustain/release amplitude envelope.
///
/// The four segment lengths are held in milliseconds, each at most
/// [`MAX_SEGMENT_MS`].  Amplitude rises linearly from zero to one and
/// a half over the attack, falls to one over the decay, holds at one
/// over the sustain, falls to zero over the release, and is zero
/// afterwards.  Amplitudes are reported in millionths of full scale.
#[derive(Debug, Clone, Copy, PartialEq, Eq, Structural)]
pub struct AdsrEnvelop {
    pub attack_ms: u32,
    pub decay_ms: u32,
    pub sustain_ms: u32,
    pub release_ms: u32,
}

impl AdsrEnvelop {
    /// Every segment stays within the supported length.
    pub open spec fn spec_wf(self) -> bool {
        &&& self.attack_ms <= MAX_SEGMENT_MS
        &&& self.decay_ms <= MAX_SEGMENT_MS
        &&& self.sustain_ms <= MAX_SEGMENT_MS
        &&& self.release_ms <= MAX_SEGMENT_MS
    }

    /// Where the decay begins: after the attack, in milliseconds.
    pub open spec fn spec_decay_start(self) -> int {
        self.attack_ms as int
    }

    /// Where the sustain begins, in milliseconds.
    pub open spec fn spec_sustain_start(self) -> int {
        self.attack_ms + self.decay_ms
    }

    /// Where the release begins, in milliseconds.
    pub open spec fn spec_release_start(self) -> int {
        self.attack_ms + self.decay_ms + self.sustain_ms
    }

    /// The whole envelope's length, in milliseconds.
    pub open spec fn spec_note_duration(self) -> int {
        self.attack_ms + self.decay_ms + self.sustain_ms + self.release_ms
    }

    /// The amplitude at a given sample, in millionths: the sample
    /// clock is compared against each segment boundary scaled by the
    /// sample rate, and within a segment the amplitude interpolates
    /// linearly, rounding down.
    pub open spec fn spec_amplitude(self, sample: int, rate: int) -> int {
        let t = sample * 1000;
        if t < rate * self.spec_decay_start() {
            (ATTACK_PEAK_MICRO * t) / (rate * self.spec_decay_start())
        } else if t < rate * self.spec_sustain_start() {
            ATTACK_PEAK_MICRO - (500_000 * (t - rate * self.spec_decay_start())) / (rate
                * self.decay_ms)
        } else if t < rate * self.spec_release_start() {
            UNIT_AMPLITUDE_MICRO as int
        } else if t < rate * self.spec_note_duration() {
            UNIT_AMPLITUDE_MICRO - (UNIT_AMPLITUDE_MICRO * (t - rate * self.spec_release_start()))
                / (rate * self.release_ms)
        } else {
            0
        }
    }

    /// Builds an envelope from its four segment lengths in
    /// milliseconds.
    pub fn new(attack_ms: u32, decay_ms: u32, sustain_ms: u32, release_ms: u32) -> (r: Self)
        requires
            attack_ms <= MAX_SEGMENT_MS,
            decay_ms <= MAX_SEGMENT_MS,
            sustain_ms <= MAX_SEGMENT_MS,
            release_ms <= MAX_SEGMENT_MS,
        ensures
            r == (AdsrEnvelop { attack_ms, decay_ms, sustain_ms, release_ms }),
            r.spec_wf(),
    {
        AdsrEnvelop::default().set_attack(attack_ms).set_decay(decay_ms).set_sustain(
            sustain_ms,
        ).set_release(release_ms)
    }

    /// Replaces the attack length, in milliseconds.
    pub fn set_attack(self, attack_ms: u32) -> (r: Self)
        requires
            attack_ms <= MAX_SEGMENT_MS,
        ensures
            r == (AdsrEnvelop { attack_ms, ..self }),
    {
        AdsrEnvelop { attack_ms, ..self }
    }

    /// Replaces the decay length, in milliseconds.
    pub fn set_decay(self, decay_ms: u32) -> (r: Self)
        requires
            decay_ms <= MAX_SEGMENT_MS,
        ensures
            r == (AdsrEnvelop { decay_ms, ..self }),
    {
        AdsrEnvelop { decay_ms, ..self }
    }

    /// Replaces the sustain length, in milliseconds.
    pub fn set_sustain(self, sustain_ms: u32) -> (r: Self)
        requires
            sustain_ms <= MAX_SEGMENT_MS,
        ensures
            r == (AdsrEnvelop { sustain_ms, ..self }),
    {
        AdsrEnvelop { sustain_ms, ..self }
    }

    /// Replaces the release length, in milliseconds.
    pub fn set_release(self, release_ms: u32) -> (r: Self)
        requires
            release_ms <= MAX_SEGMENT_MS,
        ensures
            r == (AdsrEnvelop { release_ms, ..self }),
    {
        AdsrEnvelop { release_ms, ..self }
    }

    /// Where the decay begins, in milliseconds.
    pub fn get_decay_start(&self) -> (r: u32)
        ensures
            r == self.spec_decay_start(),
    {
        self.attack_ms
    }

    /// Where the sustain begins, in milliseconds.
    pub fn get_sustain_start(&self) -> (r: u64)
        ensures
            r == self.spec_sustain_start(),
    {
        self.attack_ms as u64 + self.decay_ms as u64
    }

    /// Where the release begins, in milliseconds.
    pub fn get_release_start(&self) -> (r: u64)
        ensures
            r == self.spec_release_start(),
    {
        self.attack_ms as u64 + self.decay_ms as u64 + self.sustain_ms as u64
    }

    /// The whole envelope's length, in milliseconds.
    pub fn get_note_duration(&self) -> (r: u64)
        ensures
            r == self.spec_note_duration(),
    {
        self.attack_ms as u64 + self.decay_ms as u64 + self.sustain_ms as u64
            + self.release_ms as u64
    }

    /// The amplitude for a sample, in millionths of full scale, for a
    /// clock of `sample` ticks at `rate` ticks per second since the
    /// note began.
    pub fn get_amplitude_for_sample(&self, sample: u64, rate: u32) -> (r: u64)
        requires
            self.spec_wf(),
            1 <= rate <= 1_000_000,
            sample <= 0x10_0000_0000,
        ensures
            r == self.spec_amplitude(sample as int, rate as int),
    {
        let t: u64 = sample * 1000;
        let rate64 = rate as u64;
        proof {
            lemma_mul_upper_bound(rate64 as int, 1_000_000int, self.attack_ms as int, 1_000_000int);
            lemma_mul_upper_bound(rate64 as int, 1_000_000int, self.decay_ms as int, 1_000_000int);
            lemma_mul_upper_bound(
                rate64 as int,
                1_000_000int,
                self.release_ms as int,
                1_000_000int,
            );
            lemma_mul_upper_bound(
                rate64 as int,
                1_000_000int,
                self.attack_ms as int + self.decay_ms as int,
                2_000_000int,
            );
            lemma_mul_upper_bound(
                rate64 as int,
                1_000_000int,
                self.attack_ms as int + self.decay_ms as int + self.sustain_ms as int,
                3_000_000int,
            );
            lemma_mul_upper_bound(
                rate64 as int,
                1_000_000int,
                self.attack_ms as int + self.decay_ms as int + self.sustain_ms as int
                    + self.release_ms as int,
                4_000_000int,
            );
        }
        let decay_start: u64 = rate64 * (self.attack_ms as u64);
        let sustain_start: u64 = rate64 * (self.attack_ms as u64 + self.decay_ms as u64);
        let release_start: u64 = rate64 * (self.attack_ms as u64 + self.decay_ms as u64
            + self.sustain_ms as u64);
        let total: u64 = rate64 * (self.attack_ms as u64 + self.decay_ms as u64
            + self.sustain_ms as u64 + self.release_ms as u64);
        if t < decay_start {
            let num: u64 = ATTACK_PEAK_MICRO * t;
            proof {
                lemma_mul_upper_bound(
                    ATTACK_PEAK_MICRO as int,
                    1_500_000int,
                    t as int,
                    0x10_0000_0000int * 1000,
                );
            }
            num / decay_start
        } else if t < sustain_start {
            let span: u64 = rate64 * (self.decay_ms as u64);
            let delta: u64 = t - decay_start;
            let num: u64 = 500_000 * delta;
            proof {
                lemma_mul_is_distributive_add(
                    rate64 as int,
                    self.attack_ms as int,
                    self.decay_ms as int,
                );
                assert(sustain_start == decay_start + span);
                lemma_mul_upper_bound(500_000int, 500_000int, delta as int, 2_000_000_000_000int);
                lemma_mul_strict_inequality(delta as int, span as int, 500_000int);
                lemma_mul_is_commutative(delta as int, 500_000int);
                lemma_mul_is_commutative(span as int, 500_000int);
                lemma_div_below(num as int, span as int, 500_000int);
            }
            ATTACK_PEAK_MICRO - num / span
        } else if t < release_start {
            UNIT_AMPLITUDE_MICRO
        } else if t < total {
            let span: u64 = rate64 * (self.release_ms as u64);
            let delta: u64 = t - release_start;
            let num: u64 = UNIT_AMPLITUDE_MICRO * delta;
            proof {
                lemma_mul_is_distributive_add(
                    rate64 as int,
                    self.attack_ms as int + self.decay_ms as int + self.sustain_ms as int,
                    self.release_ms as int,
                );
                assert(total == release_start + span);
                lemma_mul_upper_bound(
                    UNIT_AMPLITUDE_MICRO as int,
                    1_000_000int,
                    delta as int,
                    4_000_000_000_000int,
                );
                lemma_mul_strict_inequality(delta as int, span as int, 1_000_000int);
                lemma_mul_is_commutative(delta as int, 1_000_000int);
                lemma_mul_is_commutative(span as int, 1_000_000int);
                lemma_div_below(num as int, span as int, 1_000_000int);
            }
            UNIT_AMPLITUDE_MICRO - num / span
        } else {
            0
        }
    }
}

impl Default for AdsrEnvelop {
    /// The default envelope has no attack, decay or release and a
    /// hundred-second sustain at full amplitude: a flat gain.
    fn default() -> (r: Self)
        ensures
            r == (AdsrEnvelop {
                attack_ms: 0u32,
                decay_ms: 0u32,
                sustain_ms: 100_000u32,
                release_ms: 0u32,
            }),
            r.spec_wf(),
    {
        AdsrEnvelop { attack_ms: 0, decay_ms: 0, sustain_ms: 100_000, release_ms: 0 }
    }
}

/// A quotient stays below `c` when the dividend stays below `c` times
/// the divisor.
proof fn lemma_div_below(num: int, den: int, c: int)
    requires
        den >= 1,
        c >= 0,
        0 <= num,
        num < c * den,
    ensures
        num / den < c,
{
    if num / den >= c {
        lemma_fundamental_div_mod(num, den);
        assert(num == den * (num / den) + num % den);
        lemma_mul_inequality(c, num / den, den);
        lemma_mul_is_commutative(num / den, den);
        lemma_mul_is_commutative(c, den);
        assert(num >= den * (num / den));
        assert(false);
    }
}

} // verus!
