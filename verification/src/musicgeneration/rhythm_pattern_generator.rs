use vstd::prelude::*;
use vstd::arithmetic::mul::*;

use crate::error::MusicError;
use crate::musictheory::note_value::{NoteValue, NoteValueBase, NoteValueDotted};
use crate::musictheory::time_signature::TimeSignature;
use crate::rng::rand_below;

verus! {

/// How many rejected draws a duration-constrained generator accepts
/// before it reports failure instead of spinning.
pub const RHYTHM_RETRY_LIMIT: u32 = 10_000;

/// The total duration of a run of note values, in 1/128ths of a whole
/// note.
pub open spec fn spec_values_units(vs: Seq<NoteValue>) -> int
    decreases vs.len(),
{
    if vs.len() == 0 {
        0
    } else {
        spec_values_units(vs.drop_last()) + vs.last().spec_units()
    }
}

/// A plain note value, without dots.
pub open spec fn spec_plain(base: NoteValueBase) -> NoteValue {
    NoteValue { base, dotted: None }
}

/// The curated whole-measure rhythm cells for a four-four measure of
/// chords.
#[verifier::opaque]
pub open spec fn spec_chord_cells_common() -> Seq<Seq<NoteValue>> {
    seq![
        seq![spec_plain(NoteValueBase::Whole)],
        seq![spec_plain(NoteValueBase::Half), spec_plain(NoteValueBase::Half)],
        seq![
            spec_plain(NoteValueBase::Whole),
            spec_plain(NoteValueBase::Half),
            spec_plain(NoteValueBase::Half),
        ],
    ]
}

/// The curated rhythm cells for a three-four measure of chords.
#[verifier::opaque]
pub open spec fn spec_chord_cells_waltz() -> Seq<Seq<NoteValue>> {
    seq![
        seq![NoteValue { base: NoteValueBase::Half, dotted: Some(NoteValueDotted::Dotted) }],
        seq![spec_plain(NoteValueBase::Half), spec_plain(NoteValueBase::Quarter)],
    ]
}

/// The curated melodic rhythm cells for a four-four measure.
#[verifier::opaque]
pub open spec fn spec_melody_cells_common() -> Seq<Seq<NoteValue>> {
    seq![
        seq![
            spec_plain(NoteValueBase::Quarter),
            spec_plain(NoteValueBase::Quarter),
            spec_plain(NoteValueBase::Quarter),
            spec_plain(NoteValueBase::Eighth),
            spec_plain(NoteValueBase::Eighth),
        ],
        seq![
            spec_plain(NoteValueBase::Eighth),
            spec_plain(NoteValueBase::Eighth),
            spec_plain(NoteValueBase::Eighth),
            spec_plain(NoteValueBase::Quarter),
            spec_plain(NoteValueBase::Eighth),
            spec_plain(NoteValueBase::Quarter),
        ],
        seq![
            spec_plain(NoteValueBase::Eighth),
            spec_plain(NoteValueBase::Quarter),
            spec_plain(NoteValueBase::Quarter),
            spec_plain(NoteValueBase::Eighth),
            spec_plain(NoteValueBase::Eighth),
            spec_plain(NoteValueBase::Eighth),
        ],
        seq![
            spec_plain(NoteValueBase::Quarter),
            spec_plain(NoteValueBase::Eighth),
            spec_plain(NoteValueBase::Quarter),
            spec_plain(NoteValueBase::Eighth),
            spec_plain(NoteValueBase::Eighth),
            spec_plain(NoteValueBase::Eighth),
        ],
        seq![
            NoteValue { base: NoteValueBase::Quarter, dotted: Some(NoteValueDotted::Dotted) },
            spec_plain(NoteValueBase::Quarter),
            spec_plain(NoteValueBase::Eighth),
            spec_plain(NoteValueBase::Eighth),
            spec_plain(NoteValueBase::Eighth),
        ],
    ]
}

/// The curated melodic rhythm cells for a three-four measure.
#[verifier::opaque]
pub open spec fn spec_melody_cells_waltz() -> Seq<Seq<NoteValue>> {
    seq![
        seq![
            spec_plain(NoteValueBase::Quarter),
            spec_plain(NoteValueBase::Eighth),
            spec_plain(NoteValueBase::Eighth),
            spec_plain(NoteValueBase::Eighth),
            spec_plain(NoteValueBase::Eighth),
        ],
        seq![
            spec_plain(NoteValueBase::Eighth),
            spec_plain(NoteValueBase::Eighth),
            spec_plain(NoteValueBase::Quarter),
            spec_plain(NoteValueBase::Eighth),
            spec_plain(NoteValueBase::Eighth),
        ],
    ]
}

/// The weighted menu the fully random generator draws from: longer
/// values appear once, shorter values several times.
#[verifier::opaque]
pub open spec fn spec_rhythm_menu() -> Seq<NoteValue> {
    seq![
        spec_plain(NoteValueBase::Whole),
        spec_plain(NoteValueBase::Half),
        spec_plain(NoteValueBase::Half),
        spec_plain(NoteValueBase::Quarter),
        spec_plain(NoteValueBase::Quarter),
        spec_plain(NoteValueBase::Quarter),
        spec_plain(NoteValueBase::Eighth),
        spec_plain(NoteValueBase::Eighth),
        spec_plain(NoteValueBase::Eighth),
        spec_plain(NoteValueBase::Eighth),
        spec_plain(NoteValueBase::Sixteenth),
        spec_plain(NoteValueBase::Sixteenth),
        spec_plain(NoteValueBase::Sixteenth),
        spec_plain(NoteValueBase::Sixteenth),
        spec_plain(NoteValueBase::Sixteenth),
        spec_plain(NoteValueBase::Sixteenth),
    ]
}

/// Builds the weighted menu the fully random generator draws from.
fn rhythm_menu() -> (r: Vec<NoteValue>)
    ensures
        r@ == spec_rhythm_menu(),
{
    let mut r: Vec<NoteValue> = Vec::new();
    r.push(NoteValue { base: NoteValueBase::Whole, dotted: None });
    r.push(NoteValue { base: NoteValueBase::Half, dotted: None });
    r.push(NoteValue { base: NoteValueBase::Half, dotted: None });
    r.push(NoteValue { base: NoteValueBase::Quarter, dotted: None });
    r.push(NoteValue { base: NoteValueBase::Quarter, dotted: None });
    r.push(NoteValue { base: NoteValueBase::Quarter, dotted: None });
    r.push(NoteValue { base: NoteValueBase::Eighth, dotted: None });
    r.push(NoteValue { base: NoteValueBase::Eighth, dotted: None });
    r.push(NoteValue { base: NoteValueBase::Eighth, dotted: None });
    r.push(NoteValue { base: NoteValueBase::Eighth, dotted: None });
    r.push(NoteValue { base: NoteValueBase::Sixteenth, dotted: None });
    r.push(NoteValue { base: NoteValueBase::Sixteenth, dotted: None });
    r.push(NoteValue { base: NoteValueBase::Sixteenth, dotted: None });
    r.push(NoteValue { base: NoteValueBase::Sixteenth, dotted: None });
    r.push(NoteValue { base: NoteValueBase::Sixteenth, dotted: None });
    r.push(NoteValue { base: NoteValueBase::Sixteenth, dotted: None });
    proof {
        reveal(spec_rhythm_menu);
        assert(r@ =~= spec_rhythm_menu());
    }
    r
}

/// Picks one of the curated chord rhythm cells for the time
/// signature; an unknown signature yields no notes at all.
pub fn rhythm_pattern_generation_for_chord(
    time_signature: TimeSignature,
    seed: &mut rand::rngs::SmallRng,
) -> (r: Vec<NoteValue>)
    requires
        time_signature.spec_wf(),
    ensures
        time_signature == (TimeSignature { num: 1u32, denom: 1u32 }) ==> exists|j: int|
            0 <= j < spec_chord_cells_common().len() && r@ == spec_chord_cells_common()[j],
        time_signature == (TimeSignature { num: 3u32, denom: 4u32 }) ==> exists|j: int|
            0 <= j < spec_chord_cells_waltz().len() && r@ == spec_chord_cells_waltz()[j],
        time_signature != (TimeSignature { num: 1u32, denom: 1u32 }) && time_signature != (
        TimeSignature { num: 3u32, denom: 4u32 }) ==> r@.len() == 0,
{
    proof {
        reveal(spec_chord_cells_common);
        reveal(spec_chord_cells_waltz);
    }
    let whole = NoteValue { base: NoteValueBase::Whole, dotted: None };
    let half = NoteValue { base: NoteValueBase::Half, dotted: None };
    let half_dotted = NoteValue { base: NoteValueBase::Half, dotted: Some(NoteValueDotted::Dotted) };
    let quarter = NoteValue { base: NoteValueBase::Quarter, dotted: None };
    let mut r: Vec<NoteValue> = Vec::new();
    if time_signature.num == 1 && time_signature.denom == 1 {
        let j = rand_below(seed, 3);
        if j == 0 {
            r.push(whole);
        } else if j == 1 {
            r.push(half);
            r.push(half);
        } else {
            r.push(whole);
            r.push(half);
            r.push(half);
        }
        proof {
            if j == 0 {
                assert(r@ =~= spec_chord_cells_common()[0]);
            } else if j == 1 {
                assert(r@ =~= spec_chord_cells_common()[1]);
            } else {
                assert(r@ =~= spec_chord_cells_common()[2]);
            }
        }
    } else if time_signature.num == 3 && time_signature.denom == 4 {
        let j = rand_below(seed, 2);
        if j == 0 {
            r.push(half_dotted);
            proof {
                assert(r@ =~= spec_chord_cells_waltz()[0]);
            }
        } else {
            r.push(half);
            r.push(quarter);
            proof {
                assert(r@ =~= spec_chord_cells_waltz()[1]);
            }
        }
    }
    r
}

/// Picks one of the curated melodic rhythm cells for the time
/// signature; an unknown signature yields no notes at all.
pub fn rhythm_pattern_generation(
    time_signature: TimeSignature,
    seed: &mut rand::rngs::SmallRng,
) -> (r: Vec<NoteValue>)
    requires
        time_signature.spec_wf(),
    ensures
        time_signature == (TimeSignature { num: 1u32, denom: 1u32 }) ==> exists|j: int|
            0 <= j < spec_melody_cells_common().len() && r@ == spec_melody_cells_common()[j],
        time_signature == (TimeSignature { num: 3u32, denom: 4u32 }) ==> exists|j: int|
            0 <= j < spec_melody_cells_waltz().len() && r@ == spec_melody_cells_waltz()[j],
        time_signature != (TimeSignature { num: 1u32, denom: 1u32 }) && time_signature != (
        TimeSignature { num: 3u32, denom: 4u32 }) ==> r@.len() == 0,
        time_signature == (TimeSignature { num: 1u32, denom: 1u32 }) ==> spec_values_units(r@)
            == 128,
{
    proof {
        reveal(spec_melody_cells_common);
        reveal(spec_melody_cells_waltz);
    }
    let quarter = NoteValue { base: NoteValueBase::Quarter, dotted: None };
    let dotted_quarter = NoteValue {
        base: NoteValueBase::Quarter,
        dotted: Some(NoteValueDotted::Dotted),
    };
    let eighth = NoteValue { base: NoteValueBase::Eighth, dotted: None };
    let mut r: Vec<NoteValue> = Vec::new();
    if time_signature.num == 1 && time_signature.denom == 1 {
        let j = rand_below(seed, 5);
        if j == 0 {
            r.push(quarter);
            r.push(quarter);
            r.push(quarter);
            r.push(eighth);
            r.push(eighth);
        } else if j == 1 {
            r.push(eighth);
            r.push(eighth);
            r.push(eighth);
            r.push(quarter);
            r.push(eighth);
            r.push(quarter);
        } else if j == 2 {
            r.push(eighth);
            r.push(quarter);
            r.push(quarter);
            r.push(eighth);
            r.push(eighth);
            r.push(eighth);
        } else if j == 3 {
            r.push(quarter);
            r.push(eighth);
            r.push(quarter);
            r.push(eighth);
            r.push(eighth);
            r.push(eighth);
        } else {
            r.push(dotted_quarter);
            r.push(quarter);
            r.push(eighth);
            r.push(eighth);
            r.push(eighth);
        }
        proof {
            reveal_with_fuel(spec_values_units, 8);
            if j == 0 {
                assert(r@ =~= spec_melody_cells_common()[0]);
            } else if j == 1 {
                assert(r@ =~= spec_melody_cells_common()[1]);
            } else if j == 2 {
                assert(r@ =~= spec_melody_cells_common()[2]);
            } else if j == 3 {
                assert(r@ =~= spec_melody_cells_common()[3]);
            } else {
                assert(r@ =~= spec_melody_cells_common()[4]);
            }
            assert(spec_values_units(r@) == 128);
        }
    } else if time_signature.num == 3 && time_signature.denom == 4 {
        let j = rand_below(seed, 2);
        if j == 0 {
            r.push(quarter);
            r.push(eighth);
            r.push(eighth);
            r.push(eighth);
            r.push(eighth);
            proof {
                assert(r@ =~= spec_melody_cells_waltz()[0]);
            }
        } else {
            r.push(eighth);
            r.push(eighth);
            r.push(quarter);
            r.push(eighth);
            r.push(eighth);
            proof {
                assert(r@ =~= spec_melody_cells_waltz()[1]);
            }
        }
    }
    r
}

/// Builds a rhythm by repeatedly drawing from the weighted menu,
/// keeping a draw only while the running total stays within the time
/// signature, until the measure is exactly full.  When a drawn value
/// cannot fit, it redraws, up to the retry budget; a signature whose
/// remainder no menu value can fill thus fails instead of spinning.
///
/// Every successful run fills the signature exactly: the durations of
/// the result, weighed against the signature's denominator, sum to
/// precisely the signature's worth of whole-note 128ths.
#[verifier::loop_isolation(false)]
pub fn rhythm_pattern_rand_generation(
    time_signature: TimeSignature,
    seed: &mut rand::rngs::SmallRng,
) -> (r: Result<Vec<NoteValue>, MusicError>)
    requires
        time_signature.spec_wf(),
    ensures
        r matches Ok(v) ==> spec_values_units(v@) * time_signature.denom
            == time_signature.num * 128,
        r matches Ok(v) ==> forall|i: int|
            0 <= i < v@.len() ==> spec_rhythm_menu().contains(#[trigger] v@[i]),
        r is Err ==> r == Err::<Vec<NoteValue>, MusicError>(MusicError::GenerationFailed),
{
    proof {
        reveal(spec_rhythm_menu);
    }
    let menu = rhythm_menu();
    let capacity: u64 = (time_signature.num as u64) * 128;
    let denom: u64 = time_signature.denom as u64;
    let mut pattern: Vec<NoteValue> = Vec::new();
    let mut sum_scaled: u64 = 0;
    let mut retries: u32 = 0;
    while sum_scaled < capacity
        invariant
            sum_scaled == spec_values_units(pattern@) * denom,
            sum_scaled <= capacity,
            retries <= RHYTHM_RETRY_LIMIT,
            forall|i: int|
                0 <= i < pattern@.len() ==> spec_rhythm_menu().contains(#[trigger] pattern@[i]),
        decreases capacity - sum_scaled,
    {
        let j = rand_below(seed, 16);
        let mut pick = menu[j];
        proof {
            assert(spec_rhythm_menu().contains(pick)) by {
                assert(spec_rhythm_menu()[j as int] == pick);
            };
        }
        let mut units: u64 = pick.get_relative_duration() as u64;
        proof {
            lemma_mul_upper_bound(units as int, 240, denom as int, 0xffff_ffff);
        }
        while sum_scaled + units * denom > capacity
            invariant
                sum_scaled <= capacity,
                retries <= RHYTHM_RETRY_LIMIT,
                spec_rhythm_menu().contains(pick),
                units == pick.spec_units(),
                units <= 240,
                units * denom <= 0xef_ffff_ff10,
            decreases RHYTHM_RETRY_LIMIT - retries,
        {
            if retries >= RHYTHM_RETRY_LIMIT {
                return Err(MusicError::GenerationFailed);
            }
            retries = retries + 1;
            let j2 = rand_below(seed, 16);
            pick = menu[j2];
            proof {
                assert(spec_rhythm_menu().contains(pick)) by {
                    assert(spec_rhythm_menu()[j2 as int] == pick);
                };
            }
            units = pick.get_relative_duration() as u64;
            proof {
                lemma_mul_upper_bound(units as int, 240, denom as int, 0xffff_ffff);
            }
        }
        let ghost old_pattern = pattern@;
        pattern.push(pick);
        proof {
            assert(pattern@.drop_last() =~= old_pattern);
            lemma_mul_is_distributive_add_other_way(
                denom as int,
                spec_values_units(old_pattern),
                pick.spec_units(),
            );
            assert(pick.spec_units() >= 8);
            lemma_mul_inequality(8int, pick.spec_units(), denom as int);
            lemma_mul_inequality(1int, denom as int, 8int);
            lemma_mul_is_commutative(denom as int, 8int);
        }
        sum_scaled = sum_scaled + units * denom;
    }
    Ok(pattern)
}

} // verus!
