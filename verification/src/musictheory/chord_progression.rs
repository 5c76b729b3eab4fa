use vstd::prelude::*;
use vstd::string::*;

use crate::error::MusicError;
use super::chars_of;
use super::spec_upper_char;
use super::spec_upper_seq;
use super::upper_char;
use super::chord::{Chord, ChordInversion, ChordType};
use super::key::Key;
use super::piano_key::{spec_digit_char, PianoKey};
use super::scale::Scale;

verus! {

/// An ordered harmonic plan: the roman-numeral string it was parsed
/// from, and the chords it names, one per token.
#[derive(Debug, Clone, PartialEq)]
pub struct ChordProgression {
    pub progression: String,
    pub chords: Vec<Chord>,
}

/// The position of the first dash at or after `start`, or the string's
/// length when there is none.
pub open spec fn spec_first_dash_from(s: Seq<char>, start: int) -> int
    decreases s.len() - start when 0 <= start <= s.len()
{
    if start >= s.len() {
        s.len() as int
    } else if s[start] == '-' {
        start
    } else {
        spec_first_dash_from(s, start + 1)
    }
}

/// The first dash position never precedes `start` nor passes the end,
/// and marks the first dash.
pub proof fn lemma_first_dash_from(s: Seq<char>, start: int)
    requires
        0 <= start <= s.len(),
    ensures
        start <= spec_first_dash_from(s, start) <= s.len(),
        spec_first_dash_from(s, start) < s.len() ==> s[spec_first_dash_from(s, start)] == '-',
        forall|j: int| start <= j < spec_first_dash_from(s, start) ==> s[j] != '-',
    decreases s.len() - start,
{
    if start < s.len() && s[start] != '-' {
        lemma_first_dash_from(s, start + 1);
    }
}

/// The dash-separated tokens of the string from `start` on.
pub open spec fn spec_tokens_from(s: Seq<char>, start: int) -> Seq<Seq<char>>
    decreases s.len() - start when 0 <= start <= s.len()
{
    let i = spec_first_dash_from(s, start);
    if i >= s.len() {
        seq![s.subrange(start, s.len() as int)]
    } else if 0 <= start <= i < s.len() {
        seq![s.subrange(start, i)] + spec_tokens_from(s, i + 1)
    } else {
        Seq::empty()
    }
}

/// The dash-separated tokens of a progression string.
pub open spec fn spec_tokens(s: Seq<char>) -> Seq<Seq<char>> {
    spec_tokens_from(s, 0)
}

/// The sequence with every occurrence of one character removed.
pub open spec fn spec_remove_char(s: Seq<char>, c: char) -> Seq<char>
    decreases s.len(),
{
    if s.len() == 0 {
        Seq::empty()
    } else if s.last() == c {
        spec_remove_char(s.drop_last(), c)
    } else {
        spec_remove_char(s.drop_last(), c).push(s.last())
    }
}

/// Removes every occurrence of one character.
#[verifier::loop_isolation(false)]
fn remove_char(s: &Vec<char>, c: char) -> (r: Vec<char>)
    ensures
        r@ == spec_remove_char(s@, c),
{
    let mut r: Vec<char> = Vec::new();
    let mut i: usize = 0;
    while i < s.len()
        invariant
            i <= s@.len(),
            r@ == spec_remove_char(s@.subrange(0, i as int), c),
        decreases s@.len() - i,
    {
        proof {
            assert(s@.subrange(0, i as int + 1).drop_last() =~= s@.subrange(0, i as int));
        }
        if s[i] != c {
            r.push(s[i]);
        }
        i = i + 1;
    }
    proof {
        assert(s@.subrange(0, s@.len() as int) =~= s@);
    }
    r
}

/// The canonical roman numeral for a positive number: thousands down
/// to units, largest subtractive pair first.
pub open spec fn spec_roman_seq(n: int) -> Seq<char>
    decreases n,
{
    if n <= 0 {
        Seq::empty()
    } else if n >= 1000 {
        seq!['M'] + spec_roman_seq(n - 1000)
    } else if n >= 900 {
        seq!['C', 'M'] + spec_roman_seq(n - 900)
    } else if n >= 500 {
        seq!['D'] + spec_roman_seq(n - 500)
    } else if n >= 400 {
        seq!['C', 'D'] + spec_roman_seq(n - 400)
    } else if n >= 100 {
        seq!['C'] + spec_roman_seq(n - 100)
    } else if n >= 90 {
        seq!['X', 'C'] + spec_roman_seq(n - 90)
    } else if n >= 50 {
        seq!['L'] + spec_roman_seq(n - 50)
    } else if n >= 40 {
        seq!['X', 'L'] + spec_roman_seq(n - 40)
    } else if n >= 10 {
        seq!['X'] + spec_roman_seq(n - 10)
    } else if n >= 9 {
        seq!['I', 'X'] + spec_roman_seq(n - 9)
    } else if n >= 5 {
        seq!['V'] + spec_roman_seq(n - 5)
    } else if n >= 4 {
        seq!['I', 'V'] + spec_roman_seq(n - 4)
    } else {
        seq!['I'] + spec_roman_seq(n - 1)
    }
}

/// Appends every character of `src`.
#[verifier::loop_isolation(false)]
fn push_all(dst: &mut Vec<char>, src: &Vec<char>)
    ensures
        final(dst)@ == old(dst)@ + src@,
{
    let mut i: usize = 0;
    while i < src.len()
        invariant
            i <= src@.len(),
            dst@ == old(dst)@ + src@.subrange(0, i as int),
        decreases src@.len() - i,
    {
        proof {
            assert(old(dst)@ + src@.subrange(0, i as int + 1) =~= (old(dst)@ + src@.subrange(
                0,
                i as int,
            )).push(src@[i as int]));
        }
        dst.push(src[i]);
        i = i + 1;
    }
    proof {
        assert(old(dst)@ + src@.subrange(0, src@.len() as int) =~= old(dst)@ + src@);
    }
}

/// Writes the canonical roman numeral of a positive number.
fn roman_chars(n: u64) -> (r: Vec<char>)
    ensures
        r@ == spec_roman_seq(n as int),
    decreases n,
{
    let mut r: Vec<char> = Vec::new();
    if n == 0 {
        proof {
            assert(r@ =~= spec_roman_seq(0));
        }
        return r;
    }
    let rest: u64;
    if n >= 1000 {
        r.push('M');
        rest = n - 1000;
    } else if n >= 900 {
        r.push('C');
        r.push('M');
        rest = n - 900;
    } else if n >= 500 {
        r.push('D');
        rest = n - 500;
    } else if n >= 400 {
        r.push('C');
        r.push('D');
        rest = n - 400;
    } else if n >= 100 {
        r.push('C');
        rest = n - 100;
    } else if n >= 90 {
        r.push('X');
        r.push('C');
        rest = n - 90;
    } else if n >= 50 {
        r.push('L');
        rest = n - 50;
    } else if n >= 40 {
        r.push('X');
        r.push('L');
        rest = n - 40;
    } else if n >= 10 {
        r.push('X');
        rest = n - 10;
    } else if n >= 9 {
        r.push('I');
        r.push('X');
        rest = n - 9;
    } else if n >= 5 {
        r.push('V');
        rest = n - 5;
    } else if n >= 4 {
        r.push('I');
        r.push('V');
        rest = n - 4;
    } else {
        r.push('I');
        rest = n - 1;
    }
    let tail = roman_chars(rest);
    push_all(&mut r, &tail);
    r
}

/// The scale degree named by an upper-case numeral, scanning degrees
/// `d` through `len` for the one whose canonical numeral matches.
pub open spec fn spec_degree_scan(u: Seq<char>, d: int, len: int) -> Option<int>
    decreases len + 1 - d when d <= len + 1
{
    if d > len {
        None
    } else if spec_roman_seq(d) == u {
        Some(d)
    } else {
        spec_degree_scan(u, d + 1, len)
    }
}

/// Whether two character runs are the same.
#[verifier::loop_isolation(false)]
fn chars_eq(a: &Vec<char>, b: &Vec<char>) -> (r: bool)
    ensures
        r <==> a@ == b@,
{
    if a.len() != b.len() {
        return false;
    }
    let mut i: usize = 0;
    while i < a.len()
        invariant
            i <= a@.len(),
            a@.len() == b@.len(),
            forall|j: int| 0 <= j < i ==> a@[j] == b@[j],
        decreases a@.len() - i,
    {
        if a[i] != b[i] {
            return false;
        }
        i = i + 1;
    }
    proof {
        assert(a@ =~= b@);
    }
    true
}

/// Finds the scale degree named by an upper-case roman numeral, one
/// of `1` through `len`.
#[verifier::loop_isolation(false)]
fn find_degree(u: &Vec<char>, len: usize) -> (r: Option<usize>)
    ensures
        r is Some ==> 1 <= r->Some_0 <= len && spec_degree_scan(u@, 1, len as int) == Some(
            r->Some_0 as int,
        ),
        r is None ==> spec_degree_scan(u@, 1, len as int) is None,
{
    let mut i: usize = 0;
    while i < len
        invariant
            i <= len,
            spec_degree_scan(u@, 1, len as int) == spec_degree_scan(u@, i + 1, len as int),
        decreases len - i,
    {
        let d = i + 1;
        let rd = roman_chars(d as u64);
        if chars_eq(&rd, u) {
            return Some(d);
        }
        i = i + 1;
    }
    None
}

/// What a token names before its modifiers are read: major when the
/// token is entirely upper case, diminished for the bare leading-tone
/// token `vii`, minor otherwise.
pub open spec fn spec_base_quality(t: Seq<char>) -> Seq<char> {
    if spec_upper_seq(t) == t {
        "maj"@
    } else if t == "vii"@ {
        "dim"@
    } else {
        "min"@
    }
}

/// How one token resolves into a chord-type name and the characters
/// that name its degree.  A trailing modifier glyph overrides the
/// cased quality; a trailing digit keeps the quality chosen by the
/// modifier just before it, or by case, and extends its name.
pub open spec fn spec_token_parts(t: Seq<char>) -> (Seq<char>, Seq<char>)
    recommends
        t.len() > 0,
{
    let last = t[t.len() - 1];
    if last == '\u{00b0}' {
        ("dim"@, spec_remove_char(t, '\u{00b0}'))
    } else if last == '\u{00f8}' {
        ("hdim7"@, spec_remove_char(t, '\u{00f8}'))
    } else if last == '\u{2191}' {
        ("aug"@, spec_remove_char(t, '\u{2191}'))
    } else if last == 'p' {
        ("pow"@, spec_remove_char(t, 'p'))
    } else if super::piano_key::spec_digit(last) is Some {
        let base = if t.len() >= 2 && t[t.len() - 2] == '\u{00b0}' {
            ("dim"@, spec_remove_char(t, '\u{00b0}'))
        } else if t.len() >= 2 && t[t.len() - 2] == '\u{00f8}' {
            ("hdim7"@, spec_remove_char(t, '\u{00f8}'))
        } else if t.len() >= 2 && t[t.len() - 2] == '\u{2191}' {
            ("aug"@, spec_remove_char(t, '\u{2191}'))
        } else if t.len() >= 2 && t[t.len() - 2] == 'p' {
            ("pow"@, spec_remove_char(t, 'p'))
        } else {
            (spec_base_quality(t), t)
        };
        (base.0.push(last), spec_remove_char(base.1, last))
    } else {
        (spec_base_quality(t), t)
    }
}

/// How one token resolves into a chord, over a key's spelled-out
/// keys: its degree numeral picks the root, its case and modifiers
/// pick the quality.
pub open spec fn spec_parse_token(t: Seq<char>, keys: Seq<PianoKey>) -> Option<Chord> {
    if t.len() == 0 {
        None
    } else {
        let parts = spec_token_parts(t);
        match ChordType::spec_parse(parts.0) {
            None => None,
            Some(ct) => match spec_degree_scan(spec_upper_seq(parts.1), 1, keys.len() as int) {
                None => None,
                Some(d) => Some(
                    Chord {
                        base_note: keys[d - 1],
                        chord_type: ct,
                        inversion: ChordInversion::Root,
                        intervals: None,
                    },
                ),
            },
        }
    }
}

/// How a whole token list resolves into chords: every token must
/// resolve.
pub open spec fn spec_parse_tokens(tokens: Seq<Seq<char>>, keys: Seq<PianoKey>) -> Option<
    Seq<Chord>,
>
    decreases tokens.len(),
{
    if tokens.len() == 0 {
        Some(Seq::empty())
    } else {
        match spec_parse_tokens(tokens.drop_last(), keys) {
            None => None,
            Some(chords) => match spec_parse_token(tokens.last(), keys) {
                None => None,
                Some(c) => Some(chords.push(c)),
            },
        }
    }
}

/// Splits a string into its dash-separated tokens.
#[verifier::loop_isolation(false)]
fn split_dash(s: &str, chars: &Vec<char>, start: usize) -> (r: Vec<String>)
    requires
        chars@ == s@,
        start <= chars@.len(),
    ensures
        r@.len() == spec_tokens_from(chars@, start as int).len(),
        forall|i: int| 0 <= i < r@.len() ==> (#[trigger] r@[i])@ == spec_tokens_from(
            chars@,
            start as int,
        )[i],
    decreases chars@.len() - start,
{
    proof {
        lemma_first_dash_from(chars@, start as int);
    }
    let mut i: usize = start;
    while i < chars.len() && chars[i] != '-'
        invariant
            start <= i <= chars@.len(),
            forall|j: int| start <= j < i ==> chars@[j] != '-',
        decreases chars@.len() - i,
    {
        i = i + 1;
    }
    proof {
        assert(i as int == spec_first_dash_from(chars@, start as int)) by {
            if (i as int) < spec_first_dash_from(chars@, start as int) {
                assert(chars@[i as int] != '-');
            }
        };
    }
    let token = String::from_str(s.substring_char(start, i));
    proof {
        assert(token@ =~= chars@.subrange(start as int, i as int));
    }
    let mut r: Vec<String> = Vec::new();
    r.push(token);
    if i < chars.len() {
        let rest = split_dash(s, chars, i + 1);
        let mut m: usize = 0;
        while m < rest.len()
            invariant
                m <= rest@.len(),
                r@.len() == 1 + m,
                r@[0]@ == chars@.subrange(start as int, i as int),
                forall|q: int| 0 <= q < m ==> (#[trigger] r@[q + 1])@ == rest@[q]@,
            decreases rest@.len() - m,
        {
            let t = rest[m].clone();
            proof {
                assert(t@ == rest@[m as int]@);
            }
            r.push(t);
            m = m + 1;
        }
        proof {
            let sp = spec_tokens_from(chars@, start as int);
            let rest_sp = spec_tokens_from(chars@, i as int + 1);
            assert(sp =~= seq![chars@.subrange(start as int, i as int)] + rest_sp);
            assert forall|q: int| 0 <= q < r@.len() implies (#[trigger] r@[q])@ == sp[q] by {
                if q >= 1 {
                    assert(r@[(q - 1) + 1]@ == rest@[q - 1]@);
                    assert(rest@[q - 1]@ == rest_sp[q - 1]);
                }
            }
        }
    } else {
        proof {
            let sp = spec_tokens_from(chars@, start as int);
            assert(sp =~= seq![chars@.subrange(start as int, chars@.len() as int)]);
            assert(r@[0]@ == sp[0]);
        }
    }
    r
}

/// Whether an error names exactly what broke in one token: a degree
/// failure carries the token itself, a quality failure the quality
/// name the token's case and modifiers spelled.
pub open spec fn spec_err_explains(e: MusicError, tok: Seq<char>) -> bool {
    ||| (e matches MusicError::InvalidChordDegree(x) && x@ == tok)
    ||| (e matches MusicError::UnknownChordType(q) && tok.len() > 0 && q@ == spec_token_parts(
        tok,
    ).0)
}

/// Whether an error points at some unresolvable token of the string.
pub open spec fn spec_parse_failure(e: MusicError, s: Seq<char>, keys: Seq<PianoKey>) -> bool {
    exists|i: int|
        0 <= i < spec_tokens(s).len() && spec_parse_token(#[trigger] spec_tokens(s)[i], keys)
            is None && spec_err_explains(e, spec_tokens(s)[i])
}

impl ChordProgression {
    /// How a whole progression string resolves against a scale rooted
    /// at a base key: one chord per dash-separated token.
    pub open spec fn spec_parse(scale: Scale, base_note: PianoKey, s: Seq<char>) -> Option<
        Seq<Chord>,
    > {
        let keys = (Key { scale, base_note, octaves: 1u8 }).spec_all_keys();
        spec_parse_tokens(spec_tokens(s), keys)
    }

    /// Reads a roman-numeral progression such as `I-V-vi-IV` against
    /// the key one octave up from `base_note` in `scale`.  Upper-case
    /// numerals make major triads and lower-case ones minor, except
    /// the bare leading tone `vii`, which is diminished; trailing
    /// modifiers pick diminished, half-diminished, augmented or power
    /// qualities, and a trailing digit extends the quality's name.
    /// Every token must name a degree within the key and a known
    /// quality; a failure carries the unresolvable token, or the
    /// quality name it spelled.
    #[verifier::loop_isolation(false)]
    pub fn from_scale_and_str(scale: Scale, base_note: PianoKey, s: &str) -> (r: Result<
        Self,
        MusicError,
    >)
        requires
            base_note.octave <= 8,
        ensures
            r is Ok <==> ChordProgression::spec_parse(scale, base_note, s@) is Some,
            r matches Ok(p) ==> p.progression@ == s@ && p.chords@ == ChordProgression::spec_parse(
                scale,
                base_note,
                s@,
            )->Some_0,
            r matches Err(e) ==> spec_parse_failure(
                e,
                s@,
                (Key { scale, base_note, octaves: 1u8 }).spec_all_keys(),
            ),
    {
        let key = Key::new(scale, base_note, 1);
        let notes = key.all_keys();
        let chars = chars_of(s);
        let tokens = split_dash(s, &chars, 0);
        let ghost tokens_spec = spec_tokens(s@);
        let mut chords: Vec<Chord> = Vec::new();
        let mut i: usize = 0;
        while i < tokens.len()
            invariant
                i <= tokens@.len(),
                spec_parse_tokens(tokens_spec.subrange(0, i as int), notes@) == Some(chords@),
            decreases tokens@.len() - i,
        {
            let c = match Self::parse_one_token(tokens[i].as_str(), &notes) {
                Ok(c) => c,
                Err(e) => {
                    proof {
                        lemma_parse_tokens_prefix_none(tokens_spec, notes@, i as int);
                        assert(spec_parse_failure(e, s@, notes@)) by {
                            assert(0 <= i < tokens_spec.len() && spec_parse_token(
                                tokens_spec[i as int],
                                notes@,
                            ) is None && spec_err_explains(e, tokens_spec[i as int]));
                        };
                    }
                    return Err(e);
                },
            };
            chords.push(c);
            proof {
                assert(tokens_spec.subrange(0, i as int + 1).drop_last() =~= tokens_spec.subrange(
                    0,
                    i as int,
                ));
            }
            i = i + 1;
        }
        proof {
            assert(tokens_spec.subrange(0, tokens_spec.len() as int) =~= tokens_spec);
        }
        Ok(ChordProgression { progression: String::from_str(s), chords })
    }

    /// Resolves one token into a chord over a key's spelled-out keys;
    /// a failure carries the token, or the quality name it spelled.
    #[verifier::loop_isolation(false)]
    fn parse_one_token(token: &str, notes: &Vec<PianoKey>) -> (r: Result<Chord, MusicError>)
        ensures
            r is Ok <==> spec_parse_token(token@, notes@) is Some,
            r is Ok ==> r->Ok_0 == spec_parse_token(token@, notes@)->Some_0,
            r matches Err(e) ==> spec_err_explains(e, token@),
    {
        let t = chars_of(token);
        let n = t.len();
        if n == 0 {
            return Err(MusicError::InvalidChordDegree(String::from_str(token)));
        }
        let last = t[n - 1];
        let mut quality: String = String::new();
        let degree: Vec<char>;
        if last == '\u{00b0}' {
            quality.append("dim");
            degree = remove_char(&t, '\u{00b0}');
        } else if last == '\u{00f8}' {
            quality.append("hdim7");
            degree = remove_char(&t, '\u{00f8}');
        } else if last == '\u{2191}' {
            quality.append("aug");
            degree = remove_char(&t, '\u{2191}');
        } else if last == 'p' {
            quality.append("pow");
            degree = remove_char(&t, 'p');
        } else if super::piano_key::digit_of_char(last).is_some() {
            let stripped: Vec<char>;
            if n >= 2 && t[n - 2] == '\u{00b0}' {
                quality.append("dim");
                stripped = remove_char(&t, '\u{00b0}');
            } else if n >= 2 && t[n - 2] == '\u{00f8}' {
                quality.append("hdim7");
                stripped = remove_char(&t, '\u{00f8}');
            } else if n >= 2 && t[n - 2] == '\u{2191}' {
                quality.append("aug");
                stripped = remove_char(&t, '\u{2191}');
            } else if n >= 2 && t[n - 2] == 'p' {
                quality.append("pow");
                stripped = remove_char(&t, 'p');
            } else {
                Self::push_base_quality(&mut quality, &t);
                stripped = t.clone();
            }
            let d = super::piano_key::digit_of_char(last).unwrap();
            proof {
                assert(spec_digit_char(d as int) == last);
            }
            quality.append(super::piano_key::digit_str(d));
            degree = remove_char(&stripped, last);
        } else {
            Self::push_base_quality(&mut quality, &t);
            degree = t.clone();
        }
        proof {
            reveal_strlit("dim");
            reveal_strlit("hdim7");
            reveal_strlit("aug");
            reveal_strlit("pow");
            reveal_strlit("maj");
            reveal_strlit("min");
            assert(quality@ =~= spec_token_parts(token@).0);
            assert(degree@ =~= spec_token_parts(token@).1);
        }

        let ct = match ChordType::from_str(quality.as_str()) {
            Ok(ct) => ct,
            Err(e) => {
                return Err(e);
            },
        };

        let mut u: Vec<char> = Vec::new();
        let mut i: usize = 0;
        while i < degree.len()
            invariant
                i <= degree@.len(),
                u@ =~= spec_upper_seq(degree@).subrange(0, i as int),
            decreases degree@.len() - i,
        {
            u.push(upper_char(degree[i]));
            i = i + 1;
        }
        proof {
            assert(u@ =~= spec_upper_seq(degree@));
        }
        match find_degree(&u, notes.len()) {
            Some(d) => Ok(
                Chord {
                    base_note: notes[d - 1],
                    chord_type: ct,
                    inversion: ChordInversion::Root,
                    intervals: None,
                },
            ),
            None => Err(MusicError::InvalidChordDegree(String::from_str(token))),
        }
    }

    /// Appends the cased base quality of a token: `maj` for an
    /// all-upper-case token, `min` otherwise.
    fn push_base_quality(quality: &mut String, t: &Vec<char>)
        ensures
            final(quality)@ == old(quality)@ + spec_base_quality(t@),
    {
        proof {
            reveal_strlit("vii");
        }
        if super::is_upper_case(t) {
            quality.append("maj");
        } else if t.len() == 3 && t[0] == 'v' && t[1] == 'i' && t[2] == 'i' {
            proof {
                assert(t@ =~= "vii"@);
            }
            quality.append("dim");
        } else {
            proof {
                if t@.len() == "vii"@.len() {
                    assert(t@ != "vii"@) by {
                        if t@ == "vii"@ {
                            assert(t@[0] == 'v' && t@[1] == 'i' && t@[2] == 'i');
                        }
                    };
                }
            }
            quality.append("min");
        }
        proof {
            assert(quality@ =~= old(quality)@ + spec_base_quality(t@));
        }
    }

    /// The name of one chord: its root key, then its quality.
    pub open spec fn spec_chord_name(c: Chord) -> Seq<char> {
        c.base_note.spec_name() + c.chord_type.spec_display_name()
    }

    /// The names of the first `n` chords, each followed by one space.
    pub open spec fn spec_chord_names_prefix(chords: Seq<Chord>, n: nat) -> Seq<char>
        decreases n,
    {
        if n == 0 || n > chords.len() {
            Seq::empty()
        } else {
            ChordProgression::spec_chord_names_prefix(chords, (n - 1) as nat)
                + ChordProgression::spec_chord_name(chords[n - 1]) + seq![' ']
        }
    }

    /// Writes the progression: its roman-numeral string, then the
    /// chords it names, such as `I-V-vi-IV ([ C4maj G4maj A4min F4maj ])`.
    #[verifier::loop_isolation(false)]
    pub fn display_string(&self) -> (r: String)
        ensures
            r@ == self.progression@ + " ("@ + "[ "@ + ChordProgression::spec_chord_names_prefix(
                self.chords@,
                self.chords@.len() as nat,
            ) + "]"@ + ")"@,
    {
        let mut body = String::from_str("[ ");
        let mut i: usize = 0;
        while i < self.chords.len()
            invariant
                i <= self.chords@.len(),
                body@ == "[ "@ + ChordProgression::spec_chord_names_prefix(self.chords@, i as nat),
            decreases self.chords@.len() - i,
        {
            let name = self.chords[i].base_note.name_string();
            body.append(name.as_str());
            body.append(self.chords[i].chord_type.name_str());
            body.append(" ");
            proof {
                reveal_strlit(" ");
                assert(body@ =~= "[ "@ + ChordProgression::spec_chord_names_prefix(
                    self.chords@,
                    (i + 1) as nat,
                ));
            }
            i = i + 1;
        }
        body.append("]");
        let mut r = self.progression.clone();
        r.append(" (");
        r.append(body.as_str());
        r.append(")");
        proof {
            assert(r@ =~= self.progression@ + " ("@ + "[ "@
                + ChordProgression::spec_chord_names_prefix(
                self.chords@,
                self.chords@.len() as nat,
            ) + "]"@ + ")"@);
        }
        r
    }
}

impl Default for ChordProgression {
    /// The default progression is `I-V-vi-IV` over one octave of C
    /// major from middle C.
    fn default() -> (r: Self)
        ensures
            r.progression@ == "I-V-vi-IV"@,
            ChordProgression::spec_parse(
                Scale::Diatonic(crate::musictheory::mode::Mode::Ionian),
                PianoKey {
                    note: crate::musictheory::note::Note {
                        accidental: None,
                        letter: crate::musictheory::note::NoteLetter::C,
                    },
                    octave: 4,
                },
                "I-V-vi-IV"@,
            ) matches Some(cs) ==> r.chords@ == cs,
    {
        let base = PianoKey {
            note: crate::musictheory::note::Note {
                accidental: None,
                letter: crate::musictheory::note::NoteLetter::C,
            },
            octave: 4,
        };
        let scale = Scale::Diatonic(crate::musictheory::mode::Mode::Ionian);
        match ChordProgression::from_scale_and_str(scale, base, "I-V-vi-IV") {
            Ok(p) => p,
            Err(_) => ChordProgression {
                progression: String::from_str("I-V-vi-IV"),
                chords: Vec::new(),
            },
        }
    }
}

/// When one token fails, the whole token list fails.
proof fn lemma_parse_tokens_prefix_none(tokens: Seq<Seq<char>>, keys: Seq<PianoKey>, i: int)
    requires
        0 <= i < tokens.len(),
        spec_parse_token(tokens[i], keys) is None,
    ensures
        spec_parse_tokens(tokens, keys) is None,
    decreases tokens.len(),
{
    if tokens.len() > 0 {
        if i == tokens.len() - 1 {
        } else {
            lemma_parse_tokens_prefix_none(tokens.drop_last(), keys, i);
        }
    }
}

} // verus!
