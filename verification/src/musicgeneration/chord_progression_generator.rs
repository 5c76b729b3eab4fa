use vstd::prelude::*;
use vstd::string::*;

use crate::musictheory::mode::{Mode, PentatonicMode};
use crate::musictheory::scale::Scale;
use crate::musictheory::time_signature::TimeSignature;
use crate::rng::rand_below;

verus! {

/// The curated roman-numeral progressions for each scale.
#[verifier::opaque]
pub open spec fn spec_curated(scale: Scale) -> Seq<Seq<char>> {
    match scale {
        Scale::Chromatic => seq!["I"@],
        Scale::Tetratonic => seq!["I"@],
        Scale::Diatonic(mode) => match mode {
            Mode::Ionian => seq!["I-IV-V-I"@, "I-V-vi-IV"@, "I-vi-IV-V"@, "vi-VI-I-V"@, "i-v-iv-i"@, "I-vi-ii-V"@, "I-V-vi-iii-IV-I-IV-V"@, "I-ii-iii-IV-V"@, "V-IV-I"@, "ii-V-I"@],
            Mode::Dorian => seq!["i-IV"@, "i-IV-V"@, "i-IV-I"@, "i-IV-I-i"@, "i-IV-I-I-IV-i"@],
            Mode::Phrygian => seq!["i-II"@, "II-i"@, "i-II-i"@, "i-vii"@, "i-v°"@, "i-v°-II-i"@, "i-iv-II-i"@, "i-VI-II"@, "i-vii-II-i"@, "ii-II-III-II"@],
            Mode::Lydian => seq!["iii-IV°-V"@, "I-II"@, "I-II-vii-vi"@, "I-IV°-ii-V"@, "I-V-II"@, "vi-V-I-II"@],
            Mode::Mixolydian => seq!["I-IV-v-I"@, "I-ii-IV-I-IV-v-I"@, "I-VII-IV-iv-v-IV-I"@, "I-v-I-VII-IV-v-I"@, "I-I-IV-I-VII-IV-I"@],
            Mode::Aeolian => seq!["VI-VII-i-VII"@, "VI-VII-i-III"@, "VI-III-VII"@, "III-VII-i"@],
            Mode::Locrian => seq!["i-iii-i-V"@, "i-vii-iv-iii"@],
        },
        Scale::Pentatonic(mode) => match mode {
            PentatonicMode::Major => seq!["I-III-IV"@, "ii-IV-I"@],
            PentatonicMode::Suspended => seq!["i-III"@, "i-III-IV"@, "i-III-I"@, "i-III-I-i"@, "i-III-I-I-III-i"@],
            PentatonicMode::BluesMinor => seq!["i-III"@, "i-III-IV"@, "i-III-I"@, "i-III-I-i"@, "i-III-I-I-III-i"@],
            PentatonicMode::BluesMajor => seq!["I-III-IV"@, "ii-IV-I"@],
            PentatonicMode::Minor => seq!["I-III-IV"@, "ii-IV-I"@, "i-III"@, "i-III-IV"@, "i-III-I"@, "i-III-I-i"@, "i-III-I-I-III-i"@],
        },
    }
}

/// The degree-with-modifier tokens the fully random generator draws
/// from: each degree twice in upper case, twice in lower case, and
/// once each as diminished, augmented, and three-note power chord.
#[verifier::opaque]
pub open spec fn spec_chord_token_menu() -> Seq<Seq<char>> {
    seq!["I"@, "I"@, "i"@, "i"@, "i°"@, "I↑"@, "Ip3"@, "II"@, "II"@, "ii"@, "ii"@, "ii°"@, "II↑"@, "IIp3"@, "III"@, "III"@, "iii"@, "iii"@, "iii°"@, "III↑"@, "IIIp3"@, "IV"@, "IV"@, "iv"@, "iv"@, "IV°"@, "IV↑"@, "IVp3"@, "V"@, "V"@, "v"@, "v"@, "v°"@, "V↑"@, "Vp3"@, "VI"@, "VI"@, "vi"@, "vi"@, "vi°"@, "VI↑"@, "VIp3"@, "VII"@, "VII"@, "vii"@, "vii"@, "vii°"@, "VII↑"@, "VIIp3"@]
}

/// A token list written out with dashes between the tokens.
pub open spec fn spec_join_dash(toks: Seq<Seq<char>>) -> Seq<char>
    decreases toks.len(),
{
    if toks.len() == 0 {
        Seq::empty()
    } else if toks.len() == 1 {
        toks[0]
    } else {
        spec_join_dash(toks.drop_last()) + "-"@ + toks.last()
    }
}

/// Builds the curated progression list for a scale.
fn curated_menu(scale: Scale) -> (r: Vec<&'static str>)
    ensures
        r@.len() == spec_curated(scale).len(),
        r@.len() >= 1,
        forall|i: int| 0 <= i < r@.len() ==> (#[trigger] r@[i])@ == spec_curated(scale)[i],
{
    proof {
        reveal(spec_curated);
    }
    let mut menu: Vec<&'static str> = Vec::new();
    match scale {
        Scale::Chromatic => {
            menu.push("I");
        },
        Scale::Tetratonic => {
            menu.push("I");
        },
        Scale::Diatonic(mode) => match mode {
            Mode::Ionian => {
                menu.push("I-IV-V-I");
                menu.push("I-V-vi-IV");
                menu.push("I-vi-IV-V");
                menu.push("vi-VI-I-V");
                menu.push("i-v-iv-i");
                menu.push("I-vi-ii-V");
                menu.push("I-V-vi-iii-IV-I-IV-V");
                menu.push("I-ii-iii-IV-V");
                menu.push("V-IV-I");
                menu.push("ii-V-I");
            },
            Mode::Dorian => {
                menu.push("i-IV");
                menu.push("i-IV-V");
                menu.push("i-IV-I");
                menu.push("i-IV-I-i");
                menu.push("i-IV-I-I-IV-i");
            },
            Mode::Phrygian => {
                menu.push("i-II");
                menu.push("II-i");
                menu.push("i-II-i");
                menu.push("i-vii");
                menu.push("i-v°");
                menu.push("i-v°-II-i");
                menu.push("i-iv-II-i");
                menu.push("i-VI-II");
                menu.push("i-vii-II-i");
                menu.push("ii-II-III-II");
            },
            Mode::Lydian => {
                menu.push("iii-IV°-V");
                menu.push("I-II");
                menu.push("I-II-vii-vi");
                menu.push("I-IV°-ii-V");
                menu.push("I-V-II");
                menu.push("vi-V-I-II");
            },
            Mode::Mixolydian => {
                menu.push("I-IV-v-I");
                menu.push("I-ii-IV-I-IV-v-I");
                menu.push("I-VII-IV-iv-v-IV-I");
                menu.push("I-v-I-VII-IV-v-I");
                menu.push("I-I-IV-I-VII-IV-I");
            },
            Mode::Aeolian => {
                menu.push("VI-VII-i-VII");
                menu.push("VI-VII-i-III");
                menu.push("VI-III-VII");
                menu.push("III-VII-i");
            },
            Mode::Locrian => {
                menu.push("i-iii-i-V");
                menu.push("i-vii-iv-iii");
            },
        },
        Scale::Pentatonic(mode) => match mode {
            PentatonicMode::Major => {
                menu.push("I-III-IV");
                menu.push("ii-IV-I");
            },
            PentatonicMode::Suspended => {
                menu.push("i-III");
                menu.push("i-III-IV");
                menu.push("i-III-I");
                menu.push("i-III-I-i");
                menu.push("i-III-I-I-III-i");
            },
            PentatonicMode::BluesMinor => {
                menu.push("i-III");
                menu.push("i-III-IV");
                menu.push("i-III-I");
                menu.push("i-III-I-i");
                menu.push("i-III-I-I-III-i");
            },
            PentatonicMode::BluesMajor => {
                menu.push("I-III-IV");
                menu.push("ii-IV-I");
            },
            PentatonicMode::Minor => {
                menu.push("I-III-IV");
                menu.push("ii-IV-I");
                menu.push("i-III");
                menu.push("i-III-IV");
                menu.push("i-III-I");
                menu.push("i-III-I-i");
                menu.push("i-III-I-I-III-i");
            },
        },
    }
    menu
}

/// Builds the token menu for fully random progressions.
fn chord_token_menu() -> (r: Vec<&'static str>)
    ensures
        r@.len() == spec_chord_token_menu().len(),
        r@.len() == 49,
        forall|i: int| 0 <= i < r@.len() ==> (#[trigger] r@[i])@ == spec_chord_token_menu()[i],
{
    proof {
        reveal(spec_chord_token_menu);
    }
    let mut menu: Vec<&'static str> = Vec::new();
    menu.push("I");
    menu.push("I");
    menu.push("i");
    menu.push("i");
    menu.push("i°");
    menu.push("I↑");
    menu.push("Ip3");
    menu.push("II");
    menu.push("II");
    menu.push("ii");
    menu.push("ii");
    menu.push("ii°");
    menu.push("II↑");
    menu.push("IIp3");
    menu.push("III");
    menu.push("III");
    menu.push("iii");
    menu.push("iii");
    menu.push("iii°");
    menu.push("III↑");
    menu.push("IIIp3");
    menu.push("IV");
    menu.push("IV");
    menu.push("iv");
    menu.push("iv");
    menu.push("IV°");
    menu.push("IV↑");
    menu.push("IVp3");
    menu.push("V");
    menu.push("V");
    menu.push("v");
    menu.push("v");
    menu.push("v°");
    menu.push("V↑");
    menu.push("Vp3");
    menu.push("VI");
    menu.push("VI");
    menu.push("vi");
    menu.push("vi");
    menu.push("vi°");
    menu.push("VI↑");
    menu.push("VIp3");
    menu.push("VII");
    menu.push("VII");
    menu.push("vii");
    menu.push("vii");
    menu.push("vii°");
    menu.push("VII↑");
    menu.push("VIIp3");
    menu
}

/// Picks a roman-numeral progression string for a scale: one of the
/// curated progressions, or, in fully random mode, two to seven
/// degree tokens drawn from the token menu and joined with dashes.
/// The time signature does not enter the choice; it is accepted for
/// symmetry with the other generators.
#[verifier::loop_isolation(false)]
pub fn chord_progression_generation(
    scale: Scale,
    _time_signature: TimeSignature,
    full_random: bool,
    seed: &mut rand::rngs::SmallRng,
) -> (r: String)
    ensures
        !full_random ==> exists|j: int|
            0 <= j < spec_curated(scale).len() && r@ == spec_curated(scale)[j],
        full_random ==> exists|toks: Seq<Seq<char>>|
            {
                &&& 2 <= toks.len() <= 7
                &&& (forall|i: int|
                    0 <= i < toks.len() ==> spec_chord_token_menu().contains(#[trigger] toks[i]))
                &&& r@ == spec_join_dash(toks)
            },
{
    if !full_random {
        let menu = curated_menu(scale);
        let j = rand_below(seed, menu.len());
        let r = String::from_str(menu[j]);
        proof {
            assert(0 <= j < spec_curated(scale).len() && r@ == spec_curated(scale)[j as int]);
        }
        r
    } else {
        let menu = chord_token_menu();
        let nb_chord = rand_below(seed, 6) + 2;
        let j0 = rand_below(seed, 49);
        let mut r = String::from_str(menu[j0]);
        let ghost mut toks: Seq<Seq<char>> = seq![menu@[j0 as int]@];
        proof {
            assert(spec_chord_token_menu().contains(toks[0])) by {
                assert(spec_chord_token_menu()[j0 as int] == toks[0]);
            };
            assert(r@ == spec_join_dash(toks));
        }
        let mut c: usize = 1;
        while c < nb_chord
            invariant
                1 <= c <= nb_chord <= 7,
                toks.len() == c,
                forall|i: int|
                    0 <= i < toks.len() ==> spec_chord_token_menu().contains(#[trigger] toks[i]),
                r@ == spec_join_dash(toks),
            decreases nb_chord - c,
        {
            let j = rand_below(seed, 49);
            r.append("-");
            r.append(menu[j]);
            proof {
                let t = menu@[j as int]@;
                assert(spec_chord_token_menu().contains(t)) by {
                    assert(spec_chord_token_menu()[j as int] == t);
                };
                let old_toks = toks;
                toks = old_toks.push(t);
                assert(toks.drop_last() =~= old_toks);
                assert(toks.last() == t);
                assert(r@ == spec_join_dash(toks));
            }
            c = c + 1;
        }
        r
    }
}

} // verus!
