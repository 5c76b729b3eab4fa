use pmusic::error::MusicError;
use pmusic::musictheory::chord::{Chord, ChordInversion, ChordType};
use pmusic::musictheory::chord_progression::ChordProgression;
use pmusic::musictheory::interval::Interval;
use pmusic::musictheory::piano_key::PianoKey;
use pmusic::musictheory::scale::Scale;

#[test]
fn test_chord_interval() {
    assert_eq!(ChordType::MajorSixth.get_intervals(), vec![Interval::Maj3, Interval::Perfect5, Interval::Maj6]);
    assert_eq!(ChordType::MinorSeventh.get_intervals(), vec![Interval::Min3, Interval::Perfect5, Interval::Min7]);
    assert_eq!(ChordType::DiminishedTriad.get_intervals(), vec![Interval::Min3, Interval::Tritone]);
}

#[test]
fn test_c4_major_triad() {
    assert_eq!(
        &Chord::new(ChordType::MajorTriad, PianoKey::new("C4").unwrap(), ChordInversion::Root).get_keys_string(),
        "| C4 E4 G4 |"
    );
}

#[test]
fn test_c4_minor_triad() {
    assert_eq!(
        &Chord::new(ChordType::MinorTriad, PianoKey::new("C4").unwrap(), ChordInversion::Root).get_keys_string(),
        "| C4 D#4 G4 |"
    );
}

#[test]
fn test_c4_augmented_triad() {
    assert_eq!(
        &Chord::new(ChordType::AugmentedTriad, PianoKey::new("C4").unwrap(), ChordInversion::Root).get_keys_string(),
        "| C4 E4 G#4 |"
    );
}

#[test]
fn test_g_sharp3_diminished_seventh() {
    assert_eq!(
        &Chord::new(ChordType::DiminishedSeventh, PianoKey::new("G#4").unwrap(), ChordInversion::Root).get_keys_string(),
        "| G#4 B4 D5 F5 |"
    );
}

#[test]
fn test_e3_power_triad() {
    assert_eq!(
        &Chord::new(ChordType::PowerTriad, PianoKey::new("E3").unwrap(), ChordInversion::Root).get_keys_string(),
        "| E3 B3 E4 |"
    )
}

#[test]
fn test_custom_chord() {
    let chord = Chord::new(ChordType::CustomChord, PianoKey::new("A4").unwrap(), ChordInversion::Root)
        .set_intervals(vec![Interval::Min2, Interval::Maj3]);
    assert_eq!(&chord.get_keys_string(), "| A4 A#4 C#5 |")
}

#[test]
fn test_c4_major_triad_first_inversion() {
    assert_eq!(
        &Chord::new(ChordType::MajorTriad, PianoKey::new("C4").unwrap(), ChordInversion::First).get_keys_string(),
        "| E4 G4 C5 |"
    );
}

#[test]
fn test_c4_augmented_second_inversion() {
    assert_eq!(
        &Chord::new(ChordType::AugmentedTriad, PianoKey::new("C4").unwrap(), ChordInversion::Second).get_keys_string(),
        "| G#4 C5 E5 |"
    );
}

#[test]
fn test_chord_i_v_vi_iv_c_major_scale() {
    let progression = ChordProgression::from_scale_and_str(
        Scale::default(),
        PianoKey::new("C4").unwrap(),
        "I-V-vi-IV",
    )
    .unwrap();
    assert_eq!(
        &progression.display_string(),
        "I-V-vi-IV ([ C4maj G4maj A4min F4maj ])"
    );
}

#[test]
fn test_chord_i_ii_iii7_viidim_viidim7_c_major_scale() {
    let progression = ChordProgression::from_scale_and_str(
        Scale::default(),
        PianoKey::new("C4").unwrap(),
        "I-ii6-iii7-vii°-vii°7",
    )
    .unwrap();
    assert_eq!(
        &progression.display_string(),
        "I-ii6-iii7-vii°-vii°7 ([ C4maj D4min6 E4min7 B4dim B4dim7 ])"
    )
}

#[test]
fn test_bare_vii_is_diminished() {
    let progression = ChordProgression::from_scale_and_str(
        Scale::default(),
        PianoKey::new("C4").unwrap(),
        "vii",
    )
    .unwrap();
    assert_eq!(&progression.display_string(), "vii ([ B4dim ])");
    // the rule touches only the bare token: other lower-case degrees
    // stay minor
    let minor = ChordProgression::from_scale_and_str(
        Scale::default(),
        PianoKey::new("C4").unwrap(),
        "vi",
    )
    .unwrap();
    assert_eq!(&minor.display_string(), "vi ([ A4min ])");
}

#[test]
fn test_chord_progression_rejects_unknown_degree() {
    let base = PianoKey::new("C4").unwrap();
    assert!(ChordProgression::from_scale_and_str(Scale::default(), base, "X").is_err());
    assert!(ChordProgression::from_scale_and_str(Scale::default(), base, "").is_err());
}

#[test]
fn test_chord_progression_rejects_unknown_quality() {
    let base = PianoKey::new("C4").unwrap();
    assert!(ChordProgression::from_scale_and_str(Scale::default(), base, "I7").is_err());
}

#[test]
fn test_progression_errors_carry_the_token() {
    let base = PianoKey::new("C4").unwrap();
    assert!(matches!(
        ChordProgression::from_scale_and_str(Scale::default(), base, "I-X-V"),
        Err(MusicError::InvalidChordDegree(t)) if t == "X"
    ));
    assert!(matches!(
        ChordProgression::from_scale_and_str(Scale::default(), base, "I7"),
        Err(MusicError::UnknownChordType(q)) if q == "maj7"
    ));
}

#[test]
fn test_chord_type_parsing() {
    assert_eq!(ChordType::from_str("maj").unwrap(), ChordType::MajorTriad);
    assert_eq!(
        ChordType::from_str("HDIM7").unwrap(),
        ChordType::HalfDiminishedSeventh
    );
    assert!(ChordType::from_str("nope").is_err());
}
