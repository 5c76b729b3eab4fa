use vstd::prelude::*;
use vstd::string::*;

use crate::error::MusicError;
use crate::musictheory::key::Key;
use crate::musictheory::measure::{spec_sum_units, Measure};
use crate::musictheory::note_value::NoteValue;
use crate::musictheory::pattern::Pattern;
use crate::musictheory::piano_key::PianoKey;
use crate::musictheory::scale::Scale;
use crate::musictheory::time_signature::TimeSignature;
use crate::rng::rand_below;
use super::rhythm_pattern_generator::{
    rhythm_pattern_generation,
    rhythm_pattern_rand_generation,
    spec_values_units,
};

verus! {

/// The widest melodic leap allowed between neighbouring notes of one
/// measure, in chromatic steps.
pub const MAX_NOTE_DISTANCE: i32 = 5;

/// The widest melodic leap allowed from the last note of one measure
/// to the first note of the next.
pub const MAX_MEASURE_DISTANCE: i32 = 14;

/// How many rejected draws the note picker accepts before it reports
/// failure instead of spinning.
pub const MELODY_RETRY_LIMIT: u32 = 10_000;

/// The chromatic distance between two keys.
pub open spec fn spec_distance(a: PianoKey, b: PianoKey) -> int {
    if a.spec_pos() >= b.spec_pos() {
        a.spec_pos() - b.spec_pos()
    } else {
        b.spec_pos() - a.spec_pos()
    }
}

/// What melodic generation promises of one measure it emits, over the
/// spelled-out keys of the governing musical key: the measure is
/// exactly full in the default one-whole time signature, every note
/// is drawn from those keys, and neighbouring notes differ and lie
/// within [`MAX_NOTE_DISTANCE`] chromatic steps.
pub open spec fn spec_measure_ok(meas: Measure, keys: Seq<PianoKey>) -> bool {
    &&& meas.spec_wf()
    &&& meas.time_signature == (TimeSignature { num: 1u32, denom: 1u32 })
    &&& spec_sum_units(meas.notes@) == 128
    &&& forall|j: int|
        0 <= j < meas.notes@.len() ==> keys.contains((#[trigger] meas.notes@[j]).note)
    &&& forall|j: int|
        1 <= j < meas.notes@.len() ==> (#[trigger] meas.notes@[j]).note != meas.notes@[j - 1].note
            && spec_distance(meas.notes@[j].note, meas.notes@[j - 1].note) <= MAX_NOTE_DISTANCE
}

/// What melodic generation promises of a whole pattern: every measure
/// is melodically sound, and each measure opens within
/// [`MAX_MEASURE_DISTANCE`] steps of the note that closed the
/// previous measure.
pub open spec fn spec_melodic_ok(p: Pattern, keys: Seq<PianoKey>) -> bool {
    &&& forall|m: int|
        0 <= m < p.measures@.len() ==> spec_measure_ok(#[trigger] p.measures@[m], keys)
    &&& forall|m: int|
        1 <= m < p.measures@.len() && (#[trigger] p.measures@[m].notes@).len() > 0 && p.measures@[m
            - 1].notes@.len() > 0 ==> spec_distance(
            p.measures@[m].notes@[0].note,
            p.measures@[m - 1].notes@.last().note,
        ) <= MAX_MEASURE_DISTANCE
}

/// What pattern generation promises when it succeeds: the requested
/// number of measures, melodically constrained over the key's
/// spelled-out keys.
pub open spec fn spec_pattern_ok(p: Pattern, keys: Seq<PianoKey>, nb_measures: int) -> bool {
    &&& p.measures@.len() == (if nb_measures > 0 {
        nb_measures
    } else {
        0
    })
    &&& spec_melodic_ok(p, keys)
}

/// Generates one named melodic pattern: for each measure a rhythm
/// cell, curated or fully random, and for each rhythmic slot a note
/// drawn from the key, redrawn until it differs from its predecessor
/// and stays within the melodic distance bounds.  Draws that cannot
/// satisfy the constraints within the retry budget fail instead of
/// spinning.
#[verifier::rlimit(100)]
pub fn pattern_generation(
    name: String,
    base_note: PianoKey,
    scale: Scale,
    octaves: u8,
    nb_measures: i32,
    use_common_pattern: bool,
    seed: &mut rand::rngs::SmallRng,
) -> (r: Result<Pattern, MusicError>)
    requires
        base_note.spec_canonical(),
        base_note.octave as int + octaves as int <= 9,
    ensures
        r matches Ok(p) ==> p.name@ == name@ && spec_pattern_ok(
            p,
            (Key { scale, base_note, octaves }).spec_all_keys(),
            nb_measures as int,
        ),
        nb_measures <= 0 ==> r is Ok,
        r is Err ==> r == Err::<Pattern, MusicError>(MusicError::GenerationFailed),
{
    let mut pattern = Pattern::new(name);
    let key = Key::new(scale, base_note, octaves);
    let keys = key.all_keys();
    let ghost keys_spec = key.spec_all_keys();
    let mut measure_last_note: Option<PianoKey> = None;

    let total: i32 = if nb_measures > 0 {
        nb_measures
    } else {
        0
    };
    let mut m: i32 = 0;
    while m < total
        invariant
            keys@ == keys_spec,
            keys_spec == (Key { scale, base_note, octaves }).spec_all_keys(),
            keys@.len() >= 1,
            forall|q: int| 0 <= q < keys@.len() ==> (#[trigger] keys@[q]).spec_canonical(),
            total == (if nb_measures > 0 { nb_measures as int } else { 0int }),
            pattern.measures@.len() == m,
            0 <= m <= total,
            pattern.name@ == name@,
            spec_melodic_ok(pattern, keys_spec),
            measure_last_note matches Some(k) ==> k.spec_canonical() && keys_spec.contains(k),
            m >= 1 && measure_last_note is Some && pattern.measures@[m - 1].notes@.len() > 0
                ==> measure_last_note->Some_0 == pattern.measures@[m - 1].notes@.last().note,
            m >= 1 && pattern.measures@[m - 1].notes@.len() > 0 ==> measure_last_note is Some,
        decreases total - m,
    {
        let rhythm_pattern = if use_common_pattern {
            rhythm_pattern_generation(TimeSignature::default(), seed)
        } else {
            match rhythm_pattern_rand_generation(TimeSignature::default(), seed) {
                Ok(v) => v,
                Err(e) => {
                    return Err(MusicError::GenerationFailed);
                },
            }
        };
        proof {
            vstd::arithmetic::mul::lemma_mul_basics(spec_values_units(rhythm_pattern@));
        }
        let measure = match generate_measure(&keys, &rhythm_pattern, measure_last_note, seed) {
            Ok(meas) => meas,
            Err(e) => {
                return Err(MusicError::GenerationFailed);
            },
        };
        if measure.notes.len() > 0 {
            let last = measure.notes[measure.notes.len() - 1];
            measure_last_note = Some(last.note);
        } else {
            measure_last_note = None;
        }
        let ghost before = pattern.measures@;
        pattern.add_measure(measure);
        proof {
            assert(pattern.measures@[before.len() as int] == measure);
            assert(forall|mm: int|
                0 <= mm < before.len() ==> #[trigger] pattern.measures@[mm] == before[mm]);
        }
        m = m + 1;
    }
    Ok(pattern)
}


/// Builds one measure: a note for each rhythmic slot, each drawn from
/// the key's spelled-out keys and redrawn until it satisfies the
/// melodic distance constraints against its predecessor and, for the
/// measure's first note, against the note that closed the previous
/// measure.
#[verifier::rlimit(100)]
fn generate_measure(
    keys: &Vec<PianoKey>,
    rhythm_pattern: &Vec<NoteValue>,
    measure_last_note: Option<PianoKey>,
    seed: &mut rand::rngs::SmallRng,
) -> (r: Result<Measure, MusicError>)
    requires
        keys@.len() >= 1,
        forall|q: int| 0 <= q < keys@.len() ==> (#[trigger] keys@[q]).spec_canonical(),
        measure_last_note matches Some(k) ==> k.spec_canonical(),
        spec_values_units(rhythm_pattern@) == 128,
    ensures
        r matches Ok(meas) ==> spec_measure_ok(meas, keys@) && (meas.notes@.len() > 0 ==> (
        measure_last_note matches Some(k) ==> spec_distance(meas.notes@[0].note, k)
            <= MAX_MEASURE_DISTANCE)),
        r is Err ==> r == Err::<Measure, MusicError>(MusicError::GenerationFailed),
{
    let ghost keys_spec = keys@;
    let mut measure = Measure::new(TimeSignature::default());
    let mut prev_note: Option<PianoKey> = None;
    let mut s: usize = 0;
    while s < rhythm_pattern.len()
        invariant
            keys@ == keys_spec,
            keys@.len() >= 1,
            forall|q: int| 0 <= q < keys@.len() ==> (#[trigger] keys@[q]).spec_canonical(),
            measure_last_note matches Some(k) ==> k.spec_canonical(),
            s <= rhythm_pattern@.len(),
            measure.spec_wf(),
            measure.time_signature == (TimeSignature { num: 1u32, denom: 1u32 }),
            spec_sum_units(measure.notes@) == spec_values_units(rhythm_pattern@.subrange(
                0,
                s as int,
            )),
            measure.notes@.len() > 0 ==> prev_note is Some,
            prev_note matches Some(k) ==> k.spec_canonical() && keys_spec.contains(k)
                && measure.notes@.len() > 0 && measure.notes@.last().note == k,
            forall|j: int|
                0 <= j < measure.notes@.len() ==> keys_spec.contains(
                    (#[trigger] measure.notes@[j]).note,
                ),
            forall|j: int|
                1 <= j < measure.notes@.len() ==> (#[trigger] measure.notes@[j]).note
                    != measure.notes@[j - 1].note && spec_distance(
                    measure.notes@[j].note,
                    measure.notes@[j - 1].note,
                ) <= MAX_NOTE_DISTANCE,
            measure.notes@.len() > 0 ==> (measure_last_note matches Some(k) ==> spec_distance(
                measure.notes@[0].note,
                k,
            ) <= MAX_MEASURE_DISTANCE),
        decreases rhythm_pattern@.len() - s,
    {
        let value = rhythm_pattern[s];
        let j0 = rand_below(seed, keys.len());
        let mut note = keys[j0];
        let mut retries: u32 = 0;
        proof {
            assert(keys_spec.contains(note)) by {
                assert(keys_spec[j0 as int] == note);
            };
            lemma_menu_key_canonical(keys_spec, note);
        }
        #[verifier::loop_isolation(true)]
        loop
            invariant
                keys@ == keys_spec,
                keys@.len() >= 1,
                keys_spec.contains(note),
                note.spec_canonical(),
                retries <= MELODY_RETRY_LIMIT,
                forall|q: int|
                    0 <= q < keys_spec.len() ==> (#[trigger] keys_spec[q]).spec_canonical(),
                measure_last_note matches Some(k) ==> k.spec_canonical(),
                prev_note matches Some(k) ==> k.spec_canonical(),
            ensures
                keys_spec.contains(note),
                note.spec_canonical(),
                prev_note matches Some(k) ==> note != k && spec_distance(note, k)
                    <= MAX_NOTE_DISTANCE,
                measure.notes@.len() == 0 ==> (measure_last_note matches Some(k)
                    ==> spec_distance(note, k) <= MAX_MEASURE_DISTANCE),
            decreases MELODY_RETRY_LIMIT + 1 - retries,
        {
            let mut ok = true;
            match measure_last_note {
                Some(k) => {
                    if measure.notes.len() == 0 && note.get_distance(k) > MAX_MEASURE_DISTANCE {
                        ok = false;
                    }
                },
                None => {},
            }
            match prev_note {
                Some(k) => {
                    if note == k || k.get_distance(note) > MAX_NOTE_DISTANCE {
                        ok = false;
                    }
                },
                None => {},
            }
            if ok {
                break ;
            }
            if retries >= MELODY_RETRY_LIMIT {
                return Err(MusicError::GenerationFailed);
            }
            retries = retries + 1;
            let j = rand_below(seed, keys.len());
            note = keys[j];
            proof {
                assert(keys_spec.contains(note)) by {
                    assert(keys_spec[j as int] == note);
                };
                lemma_menu_key_canonical(keys_spec, note);
            }
        }
        let ghost notes_before = measure.notes@;
        match measure.add_note(note, value) {
            Ok(u) => u,
            Err(e) => {
                return Err(MusicError::GenerationFailed);
            },
        };
        proof {
            assert(measure.notes@.drop_last() =~= notes_before);
            assert(rhythm_pattern@.subrange(0, s as int + 1).drop_last() =~= rhythm_pattern@
                .subrange(0, s as int));
        }
        prev_note = Some(note);
        s = s + 1;
    }
    proof {
        assert(rhythm_pattern@.subrange(0, rhythm_pattern@.len() as int) =~= rhythm_pattern@);
    }
    Ok(measure)
}

/// A key drawn from an all-canonical list is canonical.
proof fn lemma_menu_key_canonical(keys: Seq<PianoKey>, k: PianoKey)
    requires
        keys.contains(k),
        forall|q: int| 0 <= q < keys.len() ==> (#[trigger] keys[q]).spec_canonical(),
    ensures
        k.spec_canonical(),
{
    let q = choose|q: int| 0 <= q < keys.len() && keys[q] == k;
    assert(keys[q].spec_canonical());
}

} // verus!
