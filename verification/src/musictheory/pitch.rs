use vstd::prelude::*;
use vstd::arithmetic::mul::*;

use super::note::NoteLetter;
use super::piano_key::PianoKey;

verus! {

/// The frequency of the lowest C, in microhertz: 16.352 Hz.
pub const C_ZERO_MICRO_HZ: u64 = 16_352_000;

/// Concert pitch A4, in microhertz: 440 Hz.
pub const STANDARD_PITCH_MICRO_HZ: u64 = 440_000_000;

/// Middle C, in microhertz: 261.626 Hz.
pub const MIDDLE_C_MICRO_HZ: u64 = 261_626_000;

/// Two pitches closer than this are heard as equal: 0.1 Hz.
pub const PITCH_TOLERANCE_MICRO_HZ: u64 = 100_000;

/// A frequency in microhertz.
///
/// A pitch is derived from a piano key by doubling the key letter's
/// base frequency once per octave.  The base frequencies are the
/// equal-temperament values above 16.352 Hz; as in the rest of the
/// pitch arithmetic, a key's accidental does not enter the frequency.
#[derive(Debug, Clone, Copy, PartialEq, Eq, Structural)]
pub struct Pitch(pub u64);

/// The equal-temperament frequency of each letter in octave zero,
/// in microhertz: 16.352 Hz times the twelfth root of two raised to
/// the letter's semitone offset.
pub open spec fn spec_letter_micro_hz(l: NoteLetter) -> int {
    match l {
        NoteLetter::C => 16_352_000,
        NoteLetter::D => 18_354_499,
        NoteLetter::E => 20_602_229,
        NoteLetter::F => 21_827_301,
        NoteLetter::G => 24_500_317,
        NoteLetter::A => 27_500_676,
        NoteLetter::B => 30_868_466,
    }
}

/// Two to the given power.
pub open spec fn spec_pow2(n: nat) -> int
    decreases n,
{
    if n == 0 {
        1
    } else {
        2 * spec_pow2((n - 1) as nat)
    }
}

/// The frequency of a piano key: the key letter's base frequency
/// doubled once per octave.
pub open spec fn spec_key_micro_hz(k: PianoKey) -> int {
    spec_letter_micro_hz(k.note.letter) * spec_pow2(k.octave as nat)
}

impl Pitch {
    /// Wraps a frequency given in microhertz.
    pub fn new(micro_hz: u64) -> (r: Self)
        ensures
            r.0 == micro_hz,
    {
        Pitch(micro_hz)
    }

    /// The frequency in microhertz.
    pub fn micro_hz(self) -> (r: u64)
        ensures
            r == self.0,
    {
        self.0
    }

    /// The frequency of a piano key, accumulated upward from the
    /// lowest C: one octave doubling per octave, then the letter's
    /// offset from C.
    #[verifier::loop_isolation(false)]
    pub fn from_piano_key(k: PianoKey) -> (r: Self)
        requires
            k.octave <= 16,
        ensures
            r.0 == spec_key_micro_hz(k),
    {
        proof {
            reveal_with_fuel(spec_pow2, 17);
            assert(spec_pow2(16) == 65536);
        }
        let base: u64 = match k.note.letter {
            NoteLetter::C => 16_352_000,
            NoteLetter::D => 18_354_499,
            NoteLetter::E => 20_602_229,
            NoteLetter::F => 21_827_301,
            NoteLetter::G => 24_500_317,
            NoteLetter::A => 27_500_676,
            NoteLetter::B => 30_868_466,
        };
        let mut v: u64 = base;
        let mut i: u8 = 0;
        while i < k.octave
            invariant
                i <= k.octave,
                v == base * spec_pow2(i as nat),
            decreases k.octave - i,
        {
            proof {
                lemma_pow2_le(i as nat, 15);
                assert(v * 2 == base * spec_pow2((i + 1) as nat));
            }
            v = v * 2;
            i = i + 1;
        }
        Pitch(v)
    }

    /// Whether two pitches lie within the hearing tolerance of a tenth
    /// of a hertz of one another.
    pub fn approx_eq(self, other: Pitch) -> (r: bool)
        ensures
            r <==> (if self.0 >= other.0 {
                self.0 - other.0
            } else {
                other.0 - self.0
            }) < PITCH_TOLERANCE_MICRO_HZ,
    {
        let diff = if self.0 >= other.0 {
            self.0 - other.0
        } else {
            other.0 - self.0
        };
        diff < PITCH_TOLERANCE_MICRO_HZ
    }
}

impl Default for Pitch {
    /// The default pitch is concert pitch, A4.
    fn default() -> (r: Self)
        ensures
            r.0 == STANDARD_PITCH_MICRO_HZ,
    {
        Pitch(STANDARD_PITCH_MICRO_HZ)
    }
}

/// A key in a higher octave always sounds above any key in a lower
/// octave, whatever the two letters are: the letter frequencies span
/// less than a factor of two.
pub proof fn lemma_higher_octave_higher_pitch(a: PianoKey, b: PianoKey)
    requires
        a.octave < b.octave,
    ensures
        spec_key_micro_hz(a) < spec_key_micro_hz(b),
{
    let ta = spec_letter_micro_hz(a.note.letter);
    let tb = spec_letter_micro_hz(b.note.letter);
    let pa = spec_pow2(a.octave as nat);
    let pb = spec_pow2(b.octave as nat);
    lemma_pow2_le(a.octave as nat, a.octave as nat);
    lemma_pow2_le((a.octave + 1) as nat, b.octave as nat);
    assert(spec_pow2((a.octave + 1) as nat) == 2 * pa);
    assert(pb >= 2 * pa);
    assert(ta <= 30_868_466 && tb >= 16_352_000);
    assert(ta * pa <= 30_868_466 * pa) by {
        lemma_mul_inequality(ta, 30_868_466, pa);
        lemma_mul_is_commutative(ta, pa);
        lemma_mul_is_commutative(30_868_466, pa);
    };
    assert(30_868_466 * pa < 16_352_000 * (2 * pa)) by {
        assert(16_352_000 * (2 * pa) == 32_704_000 * pa) by (nonlinear_arith);
        lemma_mul_strict_inequality(30_868_466, 32_704_000, pa);
        lemma_mul_is_commutative(30_868_466, pa);
        lemma_mul_is_commutative(32_704_000, pa);
    };
    assert(16_352_000 * (2 * pa) <= 16_352_000 * pb) by {
        lemma_mul_inequality(2 * pa, pb, 16_352_000);
        lemma_mul_is_commutative(16_352_000, 2 * pa);
        lemma_mul_is_commutative(16_352_000, pb);
    };
    assert(16_352_000 * pb <= tb * pb) by {
        lemma_mul_inequality(16_352_000, tb, pb);
        lemma_mul_is_commutative(16_352_000, pb);
        lemma_mul_is_commutative(tb, pb);
    };
}

/// Powers of two are positive and monotone.
proof fn lemma_pow2_le(i: nat, j: nat)
    requires
        i <= j,
    ensures
        spec_pow2(i) <= spec_pow2(j),
        spec_pow2(i) >= 1,
    decreases j,
{
    if i == j {
        if j > 0 {
            lemma_pow2_le((i - 1) as nat, (j - 1) as nat);
        }
    } else {
        lemma_pow2_le(i, (j - 1) as nat);
    }
}

} // verus!
