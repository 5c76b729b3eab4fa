use vstd::prelude::*;
use vstd::string::*;

use crate::error::MusicError;
use crate::musictheory::key::Key;
use crate::musictheory::pattern::Pattern;
use crate::musictheory::piano_key::{decimal_string, PianoKey};
use crate::musictheory::scale::Scale;
use crate::musictheory::sheet::Sheet;
use crate::rng::rand_below;
use super::pattern_generator::{pattern_generation, spec_pattern_ok};

verus! {

/// Whether one pattern carries the same music as another: the same
/// name and, measure for measure, the same notes under the same time
/// signature.
pub open spec fn spec_pattern_copy(a: Pattern, b: Pattern) -> bool {
    &&& a.name@ == b.name@
    &&& a.measures@.len() == b.measures@.len()
    &&& forall|i: int|
        0 <= i < a.measures@.len() ==> (#[trigger] a.measures@[i]).notes@ == b.measures@[i].notes@
            && a.measures@[i].time_signature == b.measures@[i].time_signature
}

/// Whether a pattern is a copy of some member of a pattern list.
pub open spec fn spec_copy_of_one(p: Pattern, gen: Seq<Pattern>) -> bool {
    exists|j: int| 0 <= j < gen.len() && spec_pattern_copy(p, #[trigger] gen[j])
}

/// A sheet that some one-to-three pattern list explains: see
/// [`spec_sheet_from`].
pub open spec fn spec_sheet_generated(
    s: Sheet,
    keys: Seq<crate::musictheory::piano_key::PianoKey>,
    nb_measures: int,
) -> bool {
    exists|gen: Seq<Pattern>| spec_sheet_from(s, gen, keys, nb_measures)
}

/// What a generated sheet is made of: four slots for each of one to
/// three source patterns, every source pattern melodically sound for
/// the key, and every slot a copy of one of the sources.
pub open spec fn spec_sheet_from(
    s: Sheet,
    gen: Seq<Pattern>,
    keys: Seq<crate::musictheory::piano_key::PianoKey>,
    nb_measures: int,
) -> bool {
    &&& 1 <= gen.len() <= 3
    &&& s.patterns@.len() == 4 * gen.len()
    &&& forall|j: int| 0 <= j < gen.len() ==> spec_pattern_ok(#[trigger] gen[j], keys, nb_measures)
    &&& forall|i: int|
        0 <= i < s.patterns@.len() ==> spec_copy_of_one(#[trigger] s.patterns@[i], gen)
}

/// Generates a whole sheet: one to three distinct melodic patterns,
/// then four pattern slots per generated pattern, each slot filled
/// with one of the patterns at random.
#[verifier::loop_isolation(false)]
#[verifier::rlimit(100)]
#[verifier::spinoff_prover]
pub fn sheet_generation(
    base_note: PianoKey,
    scale: Scale,
    octaves: u8,
    nb_measures: i32,
    use_common_pattern: bool,
    seed: &mut rand::rngs::SmallRng,
) -> (r: Result<Sheet, MusicError>)
    requires
        base_note.spec_canonical(),
        base_note.octave as int + octaves as int <= 9,
    ensures
        r matches Ok(s) ==> spec_sheet_generated(
            s,
            (Key { scale, base_note, octaves }).spec_all_keys(),
            nb_measures as int,
        ),
        r matches Ok(s) ==> forall|i: int|
            0 <= i < s.patterns@.len() ==> spec_pattern_ok(
                #[trigger] s.patterns@[i],
                (Key { scale, base_note, octaves }).spec_all_keys(),
                nb_measures as int,
            ),
        nb_measures <= 0 ==> r is Ok,
        r is Err ==> r == Err::<Sheet, MusicError>(MusicError::GenerationFailed),
{
    let ghost keys_spec = (Key { scale, base_note, octaves }).spec_all_keys();
    let mut sheet = Sheet::new();
    let nb_pattern: usize = rand_below(seed, 3) + 1;

    let mut patterns: Vec<Pattern> = Vec::new();
    let mut i: usize = 0;
    while i < nb_pattern
        invariant
            i <= nb_pattern <= 3,
            patterns@.len() == i,
            forall|q: int|
                0 <= q < i ==> spec_pattern_ok(
                    #[trigger] patterns@[q],
                    keys_spec,
                    nb_measures as int,
                ),
        decreases nb_pattern - i,
    {
        let mut name = String::from_str("Pattern ");
        let number = decimal_string(i as u64);
        name.append(number.as_str());
        let p = match pattern_generation(
            name,
            base_note,
            scale,
            octaves,
            nb_measures,
            use_common_pattern,
            seed,
        ) {
            Ok(p) => p,
            Err(e) => {
                return Err(MusicError::GenerationFailed);
            },
        };
        patterns.push(p);
        i = i + 1;
    }

    let total = nb_pattern * 4;
    let mut j: usize = 0;
    while j < total
        invariant
            j <= total,
            total == nb_pattern * 4,
            1 <= nb_pattern <= 3,
            patterns@.len() == nb_pattern,
            forall|q: int|
                0 <= q < nb_pattern ==> spec_pattern_ok(
                    #[trigger] patterns@[q],
                    keys_spec,
                    nb_measures as int,
                ),
            sheet.patterns@.len() == j,
            forall|q: int|
                0 <= q < j ==> spec_pattern_ok(
                    #[trigger] sheet.patterns@[q],
                    keys_spec,
                    nb_measures as int,
                ),
            forall|q: int|
                0 <= q < j ==> spec_copy_of_one(#[trigger] sheet.patterns@[q], patterns@),
        decreases total - j,
    {
        let pick = rand_below(seed, nb_pattern);
        let p = patterns[pick].duplicate();
        proof {
            lemma_pattern_ok_transfer(
                patterns@[pick as int],
                p,
                keys_spec,
                nb_measures as int,
            );
            assert(spec_pattern_copy(p, patterns@[pick as int]));
            assert(spec_copy_of_one(p, patterns@));
        }
        sheet.add_pattern(p);
        j = j + 1;
    }
    proof {
        assert(spec_sheet_generated(sheet, keys_spec, nb_measures as int)) by {
            assert(spec_sheet_from(sheet, patterns@, keys_spec, nb_measures as int));
        };
    }
    Ok(sheet)
}

/// A field-for-field copy of a sound pattern is itself sound: the
/// melodic promises read only the measures' notes and signatures.
#[verifier::rlimit(100)]
proof fn lemma_pattern_ok_transfer(
    a: Pattern,
    b: Pattern,
    keys: Seq<crate::musictheory::piano_key::PianoKey>,
    nb_measures: int,
)
    requires
        spec_pattern_ok(a, keys, nb_measures),
        spec_pattern_copy(b, a),
    ensures
        spec_pattern_ok(b, keys, nb_measures),
{
    assert forall|m: int|
        0 <= m < b.measures@.len() implies super::pattern_generator::spec_measure_ok(
        #[trigger] b.measures@[m],
        keys,
    ) by {
        assert(super::pattern_generator::spec_measure_ok(a.measures@[m], keys));
    }
}

} // verus!
