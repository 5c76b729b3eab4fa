use rand::SeedableRng;

use pmusic::musicgeneration::chord_progression_generator::chord_progression_generation;
use pmusic::musicgeneration::pattern_generator::pattern_generation;
use pmusic::musicgeneration::random_scale::{get_random_base_note, get_random_scale};
use pmusic::musicgeneration::rhythm_pattern_generator::{
    rhythm_pattern_generation, rhythm_pattern_generation_for_chord, rhythm_pattern_rand_generation,
};
use pmusic::musicgeneration::sheet_from_binary::sheet_from_bytes;
use pmusic::musicgeneration::sheet_generator::sheet_generation;
use pmusic::musictheory::chord_progression::ChordProgression;
use pmusic::musictheory::piano_key::PianoKey;
use pmusic::musictheory::scale::Scale;
use pmusic::musictheory::time_signature::TimeSignature;

fn rng(seed: u64) -> rand::rngs::SmallRng {
    rand::rngs::SmallRng::seed_from_u64(seed)
}

#[test]
fn test_rand_pattern_generation() {
    let mut seed_gen = rand::rngs::SmallRng::from_entropy();
    let rhythm_pattern =
        rhythm_pattern_rand_generation(TimeSignature::default(), &mut seed_gen).unwrap();
    let total: u32 = rhythm_pattern
        .iter()
        .map(|nv| nv.get_relative_duration())
        .sum();
    // a full default measure: one whole note's worth of 128ths
    assert_eq!(total, 128);
}

#[test]
fn test_common_rhythm_pattern_fills_default_measure() {
    let mut r = rng(7);
    for _ in 0..20 {
        let cell = rhythm_pattern_generation(TimeSignature::default(), &mut r);
        let total: u32 = cell.iter().map(|nv| nv.get_relative_duration()).sum();
        assert_eq!(total, 128);
    }
    let none = rhythm_pattern_generation(TimeSignature::from_fraction(5, 4).unwrap(), &mut r);
    assert!(none.is_empty());
}

#[test]
fn test_chord_rhythm_cells() {
    let mut r = rng(11);
    let cell = rhythm_pattern_generation_for_chord(TimeSignature::default(), &mut r);
    assert!(!cell.is_empty());
    let waltz = rhythm_pattern_generation_for_chord(TimeSignature::from_fraction(3, 4).unwrap(), &mut r);
    assert!(!waltz.is_empty());
    let none = rhythm_pattern_generation_for_chord(TimeSignature::from_fraction(5, 4).unwrap(), &mut r);
    assert!(none.is_empty());
}

#[test]
fn test_pattern_generation_counts_measures() {
    let mut r = rng(42);
    let p = pattern_generation(
        "trial".to_string(),
        PianoKey::new("C4").unwrap(),
        Scale::default(),
        1,
        4,
        true,
        &mut r,
    )
    .unwrap();
    assert_eq!(p.name, "trial");
    assert_eq!(p.measures.len(), 4);
    for m in &p.measures {
        assert!(!m.notes.is_empty());
    }
}

#[test]
fn test_generation_is_deterministic_for_a_seed() {
    let base = PianoKey::new("C4").unwrap();
    let mut r1 = rng(1234);
    let mut r2 = rng(1234);
    let s1 = sheet_generation(base, Scale::default(), 1, 4, false, &mut r1).unwrap();
    let s2 = sheet_generation(base, Scale::default(), 1, 4, false, &mut r2).unwrap();
    assert_eq!(s1, s2);
    let mut r3 = rng(9876);
    let mut r4 = rng(9876);
    let p1 = chord_progression_generation(Scale::default(), TimeSignature::default(), true, &mut r3);
    let p2 = chord_progression_generation(Scale::default(), TimeSignature::default(), true, &mut r4);
    assert_eq!(p1, p2);
}

#[test]
fn test_sheet_generation_shape() {
    let mut r = rng(5);
    let s = sheet_generation(
        PianoKey::new("C4").unwrap(),
        Scale::default(),
        1,
        2,
        true,
        &mut r,
    )
    .unwrap();
    assert!(s.patterns.len() == 4 || s.patterns.len() == 8 || s.patterns.len() == 12);
    for p in &s.patterns {
        assert_eq!(p.measures.len(), 2);
    }
}

#[test]
fn test_curated_progression_parses() {
    let mut r = rng(3);
    let text = chord_progression_generation(Scale::default(), TimeSignature::default(), false, &mut r);
    let parsed = ChordProgression::from_scale_and_str(
        Scale::default(),
        PianoKey::new("C4").unwrap(),
        &text,
    );
    assert!(parsed.is_ok());
}

#[test]
fn test_random_scale_and_base_note() {
    let mut r = rng(8);
    let scale = get_random_scale(&mut r);
    let _ = scale.name_string();
    let base = get_random_base_note(&mut r);
    assert_eq!(base.octave, 4);
}

#[test]
fn test_sheet_from_bytes_whole_bytes() {
    let bytes: Vec<u8> = vec![0, 2, 4, 5, 7, 9, 11, 12];
    let sheet = sheet_from_bytes(PianoKey::new("C4").unwrap(), &bytes, false);
    assert_eq!(sheet.patterns.len(), 1);
    let measures = &sheet.patterns[0].measures;
    assert_eq!(measures.len(), 2);
    let names: Vec<String> = measures
        .iter()
        .flat_map(|m| m.notes.iter().map(|n| n.note.name_string()))
        .collect();
    assert_eq!(names, vec!["C4", "D4", "E4", "F4", "G4", "A4", "B4", "C5"]);
}

#[test]
fn test_sheet_from_bytes_keeps_trailing_measure() {
    // five units: one full measure of four quarters, then a partial
    // measure holding the fifth note
    let bytes: Vec<u8> = vec![0, 2, 4, 5, 7];
    let sheet = sheet_from_bytes(PianoKey::new("C4").unwrap(), &bytes, false);
    let measures = &sheet.patterns[0].measures;
    assert_eq!(measures.len(), 2);
    assert_eq!(measures[0].notes.len(), 4);
    assert_eq!(measures[1].notes.len(), 1);
    assert_eq!(measures[1].notes[0].note.name_string(), "G4");
}

#[test]
fn test_sheet_from_bytes_half_bytes() {
    // one byte splits into its high then low four bits: 0x24 -> 2, 4
    let bytes: Vec<u8> = vec![0x24, 0x57, 0x9B, 0xC0];
    let sheet = sheet_from_bytes(PianoKey::new("C4").unwrap(), &bytes, true);
    let measures = &sheet.patterns[0].measures;
    assert_eq!(measures.len(), 2);
    let names: Vec<String> = measures
        .iter()
        .flat_map(|m| m.notes.iter().map(|n| n.note.name_string()))
        .collect();
    assert_eq!(names, vec!["D4", "E4", "F4", "G4", "A4", "B4", "C5", "C4"]);
}
