use vstd::prelude::*;
use vstd::string::*;

use crate::error::MusicError;
use super::piano_key::{decimal_string, spec_decimal_string, spec_digit};

verus! {

/// A measure's capacity, as a fraction of a whole note.
///
/// The fraction is kept in lowest terms, with a power-of-two
/// denominator: `4/4` and `8/8` both reduce to one whole, and `6/8`
/// is the same time signature as `3/4`.
#[derive(Debug, Clone, Copy, PartialEq, Eq, Structural)]
pub struct TimeSignature {
    pub num: u32,
    pub denom: u32,
}

/// Whether `n` is a power of two.
pub open spec fn spec_is_pow2(n: int) -> bool
    decreases n,
{
    if n <= 0 {
        false
    } else if n == 1 {
        true
    } else {
        n % 2 == 0 && spec_is_pow2(n / 2)
    }
}

/// The value of an optionally plus-signed decimal numeral, when it has
/// at least one digit, every character is a digit, and the value stays
/// within a signed 32-bit integer.
pub open spec fn spec_parse_decimal(s: Seq<char>) -> Option<int> {
    if spec_strip_plus(s).len() == 0 {
        None
    } else if !spec_all_digits(spec_strip_plus(s)) {
        None
    } else if spec_decimal_value(spec_strip_plus(s)) <= 0x7fff_ffff {
        Some(spec_decimal_value(spec_strip_plus(s)))
    } else {
        None
    }
}

/// The numeral with a single leading plus sign removed.
pub open spec fn spec_strip_plus(s: Seq<char>) -> Seq<char> {
    if s.len() > 0 && s[0] == '+' {
        s.subrange(1, s.len() as int)
    } else {
        s
    }
}

/// Whether every character is a decimal digit.
pub open spec fn spec_all_digits(s: Seq<char>) -> bool {
    forall|i: int| 0 <= i < s.len() ==> (#[trigger] spec_digit(s[i])) is Some
}

/// The value of a digit sequence read left to right.
pub open spec fn spec_decimal_value(s: Seq<char>) -> int
    decreases s.len(),
{
    if s.len() == 0 {
        0
    } else {
        spec_decimal_value(s.drop_last()) * 10 + (spec_digit(s.last())->Some_0) as int
    }
}

/// Reads an optionally plus-signed decimal numeral out of a character
/// range, refusing anything above a signed 32-bit integer.
#[verifier::loop_isolation(false)]
pub fn parse_decimal(s: &Vec<char>, from: usize, to: usize) -> (r: Option<u32>)
    requires
        from <= to <= s@.len(),
    ensures
        r is Some <==> spec_parse_decimal(s@.subrange(from as int, to as int)) is Some,
        r is Some ==> r->Some_0 as int == spec_parse_decimal(
            s@.subrange(from as int, to as int),
        )->Some_0,
{
    let ghost whole = s@.subrange(from as int, to as int);
    let mut start = from;
    if from < to && s[from] == '+' {
        start = from + 1;
    }
    let ghost digits = s@.subrange(start as int, to as int);
    proof {
        if from < to && s@[from as int] == '+' {
            assert(digits =~= whole.subrange(1, whole.len() as int));
        } else {
            assert(digits =~= whole);
        }
        assert(spec_strip_plus(whole) == digits);
    }
    if start == to {
        return None;
    }
    let mut acc: u32 = 0;
    let mut i = start;
    while i < to
        invariant
            from <= start <= i <= to <= s@.len(),
            digits == s@.subrange(start as int, to as int),
            acc as int == spec_decimal_value(s@.subrange(start as int, i as int)),
            acc <= 0x7fff_ffff,
            forall|j: int| start <= j < i ==> (#[trigger] spec_digit(s@[j])) is Some,
        decreases to - i,
    {
        let d = match super::piano_key::digit_of_char(s[i]) {
            Some(d) => d,
            None => {
                proof {
                    assert(digits[i - start] == s@[i as int]);
                    assert(spec_digit(digits[i - start]) is None);
                    assert(!spec_all_digits(digits));
                    assert(spec_parse_decimal(whole) is None);
                }
                return None;
            },
        };
        if acc > 214_748_364 || (acc == 214_748_364 && d > 7) {
            proof {
                let prefix = s@.subrange(start as int, i as int + 1);
                assert(prefix.drop_last() =~= s@.subrange(start as int, i as int));
                assert(prefix.last() == s@[i as int]);
                assert(spec_decimal_value(prefix) == acc * 10 + d);
                lemma_decimal_value_grows(digits, i - start + 1);
                assert(digits.subrange(0, i - start + 1) =~= prefix);
                assert(spec_decimal_value(digits) > 0x7fff_ffff);
                if spec_all_digits(digits) {
                    assert(spec_parse_decimal(whole) is None);
                } else {
                    assert(spec_parse_decimal(whole) is None);
                }
            }
            return None;
        }
        proof {
            assert(s@.subrange(start as int, i as int + 1).drop_last() =~= s@.subrange(
                start as int,
                i as int,
            ));
        }
        acc = acc * 10 + d as u32;
        i = i + 1;
    }
    proof {
        assert(s@.subrange(start as int, i as int) =~= digits);
        assert forall|j: int| 0 <= j < digits.len() implies (#[trigger] spec_digit(
            digits[j],
        )) is Some by {
            assert(digits[j] == s@[start + j]);
        }
        assert(spec_all_digits(digits));
        assert(digits.len() > 0);
    }
    Some(acc)
}

/// A decimal numeral's value does not shrink as digits are appended:
/// the value of the first `n` characters is at most the value of the
/// whole.
proof fn lemma_decimal_value_grows(s: Seq<char>, n: int)
    requires
        0 <= n <= s.len(),
    ensures
        spec_decimal_value(s.subrange(0, n)) <= spec_decimal_value(s),
    decreases s.len(),
{
    if n < s.len() {
        lemma_decimal_value_grows(s.drop_last(), n);
        assert(s.drop_last().subrange(0, n) =~= s.subrange(0, n));
        lemma_decimal_value_nonneg(s.drop_last());
    } else {
        assert(s.subrange(0, n) =~= s);
    }
}

/// A digit sequence's value is never negative.
proof fn lemma_decimal_value_nonneg(s: Seq<char>)
    ensures
        spec_decimal_value(s) >= 0,
    decreases s.len(),
{
    if s.len() > 0 {
        lemma_decimal_value_nonneg(s.drop_last());
    }
}

impl TimeSignature {
    /// The fraction is in lowest terms with a power-of-two denominator
    /// and a positive numerator.
    pub open spec fn spec_wf(self) -> bool {
        &&& self.num >= 1
        &&& spec_is_pow2(self.denom as int)
        &&& (self.num % 2 == 1 || self.denom == 1)
    }

    /// The fraction `total/counting` reduced to lowest terms, halving
    /// both sides while both are even and the denominator is above one.
    pub open spec fn spec_reduce(total: int, counting: int) -> (int, int)
        decreases counting when counting >= 0
    {
        if counting <= 1 || counting % 2 != 0 || total % 2 != 0 {
            (total, counting)
        } else {
            TimeSignature::spec_reduce(total / 2, counting / 2)
        }
    }

    /// Builds the time signature worth `total` counts of one
    /// `counting`th of a whole note each, reduced to lowest terms.
    /// Fails when the total is zero, or the counting value is zero or
    /// not a power of two, carrying the rejected fraction as written.
    pub fn from_fraction(total: u32, counting: u32) -> (r: Result<Self, MusicError>)
        ensures
            r is Ok <==> total >= 1 && spec_is_pow2(counting as int),
            r matches Ok(ts) ==> ts.spec_wf() && (ts.num as int, ts.denom as int)
                == TimeSignature::spec_reduce(total as int, counting as int),
            r is Err ==> (r matches Err(e) && e matches MusicError::InvalidTimeSignature(t) && t@
                == spec_decimal_string(total as int) + "/"@ + spec_decimal_string(
                counting as int,
            )),
    {
        if total == 0 || !Self::is_pow2(counting) {
            let mut written = decimal_string(total as u64);
            written.append("/");
            let c = decimal_string(counting as u64);
            written.append(c.as_str());
            return Err(MusicError::InvalidTimeSignature(written));
        }
        Ok(Self::reduce(total, counting))
    }

    /// Reduces a valid fraction to lowest terms, halving both sides
    /// while both are even.
    fn reduce(total: u32, counting: u32) -> (r: TimeSignature)
        requires
            total >= 1,
            spec_is_pow2(counting as int),
        ensures
            r.spec_wf(),
            (r.num as int, r.denom as int) == TimeSignature::spec_reduce(
                total as int,
                counting as int,
            ),
        decreases counting,
    {
        if counting == 1 || counting % 2 != 0 || total % 2 != 0 {
            TimeSignature { num: total, denom: counting }
        } else {
            Self::reduce(total / 2, counting / 2)
        }
    }

    /// Whether a number is a power of two.
    pub fn is_pow2(n: u32) -> (r: bool)
        ensures
            r <==> spec_is_pow2(n as int),
        decreases n,
    {
        if n == 0 {
            false
        } else if n == 1 {
            true
        } else if n % 2 != 0 {
            false
        } else {
            Self::is_pow2(n / 2)
        }
    }

    /// How a time-signature string parses: one slash, and on its two
    /// sides decimal numerals whose values make a valid fraction of a
    /// positive total over a power-of-two counting value.
    pub open spec fn spec_parse(s: Seq<char>) -> Option<(int, int)> {
        if !(exists|i: int| 0 <= i < s.len() && s[i] == '/') {
            None
        } else {
            let i = choose|i: int| 0 <= i < s.len() && s[i] == '/';
            if exists|j: int| 0 <= j < s.len() && j != i && s[j] == '/' {
                None
            } else {
                let t = spec_parse_decimal(s.subrange(0, i));
                let c = spec_parse_decimal(s.subrange(i + 1, s.len() as int));
                match t {
                    None => None,
                    Some(total) => match c {
                        None => None,
                        Some(counting) => if total >= 1 && spec_is_pow2(counting) {
                            Some((total, counting))
                        } else {
                            None
                        },
                    },
                }
            }
        }
    }

    /// Reads a time signature such as `3/4`: a total count, a slash,
    /// and a power-of-two counting value.
    #[verifier::loop_isolation(false)]
    pub fn from_str(s: &str) -> (r: Result<Self, MusicError>)
        ensures
            r is Ok <==> TimeSignature::spec_parse(s@) is Some,
            r matches Ok(ts) ==> ts.spec_wf() && (TimeSignature::spec_parse(s@) matches Some(tc)
                ==> (ts.num as int, ts.denom as int) == TimeSignature::spec_reduce(tc.0, tc.1)),
            r is Err ==> (r matches Err(e) && e matches MusicError::InvalidTimeSignature(t) && t@
                == s@),
    {
        let chars = super::chars_of(s);
        let n = chars.len();
        let mut slash: usize = n;
        let mut i: usize = 0;
        while i < n
            invariant
                n == chars@.len(),
                i <= n,
                slash <= n,
                slash == n ==> forall|j: int| 0 <= j < i ==> chars@[j] != '/',
                slash < n ==> slash < i && chars@[slash as int] == '/' && (forall|j: int|
                    0 <= j < i && j != slash ==> chars@[j] != '/'),
            decreases n - i,
        {
            if chars[i] == '/' {
                proof {
                    assert(chars@[i as int] == '/');
                }
                if slash < n {
                    // a second slash: not a fraction
                    proof {
                        let si = choose|k: int| 0 <= k < s@.len() && s@[k] == '/';
                        if si == slash as int {
                            assert(0 <= i < s@.len() && i as int != si && s@[i as int] == '/');
                        } else {
                            assert(0 <= slash < s@.len() && slash as int != si && s@[slash as int]
                                == '/');
                        }
                        assert(TimeSignature::spec_parse(s@) is None);
                    }
                    return Err(MusicError::InvalidTimeSignature(String::from_str(s)));
                }
                slash = i;
                proof {
                    assert(chars@[slash as int] == '/');
                    assert(forall|j: int| 0 <= j < i ==> chars@[j] != '/');
                }
            }
            i = i + 1;
        }
        if slash == n {
            return Err(MusicError::InvalidTimeSignature(String::from_str(s)));
        }
        let total = parse_decimal(&chars, 0, slash);
        let counting = parse_decimal(&chars, slash + 1, n);
        proof {
            assert(0 <= slash < s@.len() && s@[slash as int] == '/');
            let si = choose|k: int| 0 <= k < s@.len() && s@[k] == '/';
            if si != slash as int {
                assert(s@[si] != '/');
            }
            assert(si == slash as int);
            assert(!(exists|j: int| 0 <= j < s@.len() && j != si && s@[j] == '/'));
        }
        match (total, counting) {
            (Some(t), Some(c)) => {
                if t >= 1 {
                    match Self::from_fraction(t, c) {
                        Ok(ts) => Ok(ts),
                        Err(e) => Err(MusicError::InvalidTimeSignature(String::from_str(s))),
                    }
                } else {
                    Err(MusicError::InvalidTimeSignature(String::from_str(s)))
                }
            },
            _ => Err(MusicError::InvalidTimeSignature(String::from_str(s))),
        }
    }

    /// The numerator and denominator as written: the reduced fraction,
    /// scaled so the written denominator is at least four.
    pub open spec fn spec_written(self) -> (int, int) {
        if self.denom == 1 {
            (4 * self.num, 4)
        } else if self.denom == 2 {
            (2 * self.num, 4)
        } else {
            (self.num as int, self.denom as int)
        }
    }

    /// Writes the time signature, such as `3/4`; one whole is written
    /// `4/4`.
    pub fn display_string(&self) -> (r: String)
        ensures
            r@ == spec_decimal_string(self.spec_written().0) + "/"@ + spec_decimal_string(
                self.spec_written().1,
            ),
    {
        let num64: u64 = if self.denom == 1 {
            4 * (self.num as u64)
        } else if self.denom == 2 {
            2 * (self.num as u64)
        } else {
            self.num as u64
        };
        let den64: u64 = if self.denom == 1 || self.denom == 2 {
            4
        } else {
            self.denom as u64
        };
        let mut r = decimal_string(num64);
        r.append("/");
        let d = decimal_string(den64);
        r.append(d.as_str());
        r
    }
}

impl Default for TimeSignature {
    /// The default time signature is one whole note per measure, as
    /// written `4/4`.
    fn default() -> (r: Self)
        ensures
            r == (TimeSignature { num: 1u32, denom: 1u32 }),
            r.spec_wf(),
    {
        TimeSignature { num: 1, denom: 1 }
    }
}

} // verus!
