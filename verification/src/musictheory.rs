//! Music-theory primitives: pitch arithmetic, scales, keys, chords,
//! time signatures and the immutable sheet data model.

pub mod semitone;
pub mod interval;
pub mod note;
pub mod piano_key;
pub mod mode;
pub mod scale;
pub mod key;
pub mod pitch;
pub mod note_value;
pub mod tempo;
pub mod time_signature;
pub mod sheet_note;
pub mod measure;
pub mod pattern;
pub mod sheet;
pub mod chord;
pub mod chord_progression;

use vstd::prelude::*;
use vstd::string::*;

verus! {

/// Splits a string into its characters, one single-character `String`
/// per character, in order.
pub fn char_strs(s: &str) -> (r: Vec<String>)
    ensures
        r@.len() == s@.len(),
        forall|i: int| 0 <= i < r@.len() ==> #[trigger] r@[i]@ =~= seq![s@[i]],
{
    let n: usize = s.unicode_len();
    let mut r: Vec<String> = Vec::new();
    let mut i: usize = 0;
    while i < n
        invariant
            n == s@.len(),
            i <= n,
            r@.len() == i,
            forall|j: int| 0 <= j < i ==> #[trigger] r@[j]@ =~= seq![s@[j]],
        decreases n - i,
    {
        let c: &str = s.substring_char(i, i + 1);
        r.push(String::from_str(c));
        i = i + 1;
    }
    r
}

/// A character folded to upper case, for the ASCII letters; any other
/// character stands for itself.
pub open spec fn spec_upper_char(c: char) -> char {
    if 'a' == c {
        'A'
    } else if 'b' == c {
        'B'
    } else if 'c' == c {
        'C'
    } else if 'd' == c {
        'D'
    } else if 'e' == c {
        'E'
    } else if 'f' == c {
        'F'
    } else if 'g' == c {
        'G'
    } else if 'h' == c {
        'H'
    } else if 'i' == c {
        'I'
    } else if 'j' == c {
        'J'
    } else if 'k' == c {
        'K'
    } else if 'l' == c {
        'L'
    } else if 'm' == c {
        'M'
    } else if 'n' == c {
        'N'
    } else if 'o' == c {
        'O'
    } else if 'p' == c {
        'P'
    } else if 'q' == c {
        'Q'
    } else if 'r' == c {
        'R'
    } else if 's' == c {
        'S'
    } else if 't' == c {
        'T'
    } else if 'u' == c {
        'U'
    } else if 'v' == c {
        'V'
    } else if 'w' == c {
        'W'
    } else if 'x' == c {
        'X'
    } else if 'y' == c {
        'Y'
    } else if 'z' == c {
        'Z'
    } else {
        c
    }
}

/// A character sequence folded to upper case, ASCII letter by letter.
pub open spec fn spec_upper_seq(s: Seq<char>) -> Seq<char> {
    Seq::new(s.len(), |i: int| spec_upper_char(s[i]))
}

/// Folds one character to upper case, for the ASCII letters.
pub fn upper_char(c: char) -> (r: char)
    ensures
        r == spec_upper_char(c),
{
    match c {
        'a' => 'A',
        'b' => 'B',
        'c' => 'C',
        'd' => 'D',
        'e' => 'E',
        'f' => 'F',
        'g' => 'G',
        'h' => 'H',
        'i' => 'I',
        'j' => 'J',
        'k' => 'K',
        'l' => 'L',
        'm' => 'M',
        'n' => 'N',
        'o' => 'O',
        'p' => 'P',
        'q' => 'Q',
        'r' => 'R',
        's' => 'S',
        't' => 'T',
        'u' => 'U',
        'v' => 'V',
        'w' => 'W',
        'x' => 'X',
        'y' => 'Y',
        'z' => 'Z',
        _ => c,
    }
}

/// Whether `s`, folded to upper case, reads exactly as `t`.
pub fn eq_ignore_case(s: &str, t: &str) -> (r: bool)
    ensures
        r <==> spec_upper_seq(s@) == t@,
{
    let n = s.unicode_len();
    if n != t.unicode_len() {
        proof {
            assert(spec_upper_seq(s@).len() != t@.len());
        }
        return false;
    }
    let mut i: usize = 0;
    while i < n
        invariant
            n == s@.len() == t@.len(),
            i <= n,
            forall|j: int| 0 <= j < i ==> spec_upper_seq(s@)[j] == t@[j],
        decreases n - i,
    {
        if upper_char(s.get_char(i)) != t.get_char(i) {
            proof {
                assert(spec_upper_seq(s@)[i as int] != t@[i as int]);
            }
            return false;
        }
        i = i + 1;
    }
    proof {
        assert(spec_upper_seq(s@) =~= t@);
    }
    true
}

/// Whether every character of `s` already is its own upper-case form.
pub fn is_upper_case(s: &Vec<char>) -> (r: bool)
    ensures
        r <==> spec_upper_seq(s@) == s@,
{
    let n = s.len();
    let mut i: usize = 0;
    while i < n
        invariant
            n == s@.len(),
            i <= n,
            forall|j: int| 0 <= j < i ==> spec_upper_seq(s@)[j] == s@[j],
        decreases n - i,
    {
        if upper_char(s[i]) != s[i] {
            proof {
                assert(spec_upper_seq(s@)[i as int] != s@[i as int]);
            }
            return false;
        }
        i = i + 1;
    }
    proof {
        assert(spec_upper_seq(s@) =~= s@);
    }
    true
}

/// Collects the characters of a string into a vector.
pub fn chars_of(s: &str) -> (r: Vec<char>)
    ensures
        r@ == s@,
{
    let n = s.unicode_len();
    let mut r: Vec<char> = Vec::new();
    let mut i: usize = 0;
    while i < n
        invariant
            n == s@.len(),
            i <= n,
            r@ =~= s@.subrange(0, i as int),
        decreases n - i,
    {
        r.push(s.get_char(i));
        i = i + 1;
    }
    proof {
        assert(r@ =~= s@);
    }
    r
}

} // verus!
