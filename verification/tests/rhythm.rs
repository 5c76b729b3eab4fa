use pmusic::error::MusicError;
use pmusic::musictheory::measure::Measure;
use pmusic::musictheory::note_value::{NoteValue, NoteValueBase, NoteValueDotted};
use pmusic::musictheory::piano_key::PianoKey;
use pmusic::musictheory::time_signature::TimeSignature;

#[test]
fn test_note_value_to_str() {
    assert_eq!(NoteValue::default().name_string(), "\u{1D15F}");
    assert_eq!(
        NoteValue { base: NoteValueBase::Whole, dotted: None }.name_string(),
        "\u{1D15D}"
    );
    assert_eq!(
        NoteValue { base: NoteValueBase::Half, dotted: Some(NoteValueDotted::Dotted) }.name_string(),
        "\u{1D15E}."
    );
    assert_eq!(
        NoteValue { base: NoteValueBase::Eighth, dotted: Some(NoteValueDotted::DoubleDotted) }.name_string(),
        "\u{1D160}.."
    );
}

#[test]
fn test_note_value_relative_duration() {
    // durations in 1/128ths of a whole note: a quarter is 32, a whole
    // 128, a dotted half 96, a double-dotted whole 224
    assert_eq!(NoteValue::default().get_relative_duration(), 32);
    assert_eq!(
        NoteValue { base: NoteValueBase::Whole, dotted: None }.get_relative_duration(),
        128
    );
    assert_eq!(
        NoteValue { base: NoteValueBase::Half, dotted: Some(NoteValueDotted::Dotted) }.get_relative_duration(),
        96
    );
    assert_eq!(
        NoteValue { base: NoteValueBase::Whole, dotted: Some(NoteValueDotted::DoubleDotted) }.get_relative_duration(),
        224
    );
}

#[test]
fn test_new_time_signature() {
    assert_eq!(TimeSignature::default(), TimeSignature { num: 1, denom: 1 });
    assert_eq!(
        TimeSignature::from_str("4/4").unwrap(),
        TimeSignature::default()
    );
    assert_eq!(
        TimeSignature::from_str("3/4").unwrap(),
        TimeSignature::from_fraction(3, 4).unwrap()
    );
    assert_eq!(
        TimeSignature::from_str("5/4").unwrap(),
        TimeSignature::from_fraction(5, 4).unwrap()
    );
    assert_eq!(
        TimeSignature::from_str("2/4").unwrap(),
        TimeSignature::from_fraction(2, 4).unwrap()
    );
    assert_eq!(
        TimeSignature::from_str("3/8").unwrap(),
        TimeSignature::from_fraction(3, 8).unwrap()
    );
}

#[test]
fn test_new_incorrect_time_signature() {
    assert!(TimeSignature::from_str("4/0").is_err());
}

#[test]
fn test_new_incorrect_time_signature_2() {
    assert!(TimeSignature::from_str("4/3").is_err());
}

#[test]
fn test_time_signature_errors_carry_the_input() {
    assert!(matches!(
        TimeSignature::from_str("4/3"),
        Err(MusicError::InvalidTimeSignature(t)) if t == "4/3"
    ));
    assert!(matches!(
        TimeSignature::from_fraction(4, 3),
        Err(MusicError::InvalidTimeSignature(t)) if t == "4/3"
    ));
}

#[test]
fn test_time_signature_to_str() {
    assert_eq!(TimeSignature::from_fraction(3, 4).unwrap().display_string(), "3/4");
    assert_eq!(TimeSignature::from_fraction(3, 8).unwrap().display_string(), "3/8");
    assert_eq!(TimeSignature::from_fraction(4, 4).unwrap().display_string(), "4/4");
    assert_eq!(TimeSignature::from_fraction(2, 4).unwrap().display_string(), "2/4");
}

#[test]
fn test_time_signature_round_trip() {
    let ts = TimeSignature::from_str("3/4").unwrap();
    assert_eq!(ts, TimeSignature::from_fraction(3, 4).unwrap());
    assert_eq!(TimeSignature::from_str(&ts.display_string()).unwrap(), ts);
    // six eighths and three quarters are the same signature
    assert_eq!(TimeSignature::from_str("6/8").unwrap(), ts);
}

#[test]
fn test_measure_remaining_value() {
    let mut measure = Measure::new(TimeSignature::default());
    measure
        .add_note(PianoKey::default(), NoteValue::default())
        .unwrap();
    // remaining room in 1/128ths of a whole: three quarters left
    assert_eq!(measure.get_remaining_value(), 96);
    measure
        .add_note(PianoKey::default(), NoteValue { base: NoteValueBase::Half, dotted: None })
        .unwrap();
    assert_eq!(measure.get_remaining_value(), 32);
}

#[test]
fn test_measure_is_complete() {
    let mut measure = Measure::new(TimeSignature::default());
    assert_eq!(measure.is_measure_complete(), false);
    measure
        .add_note(PianoKey::default(), NoteValue { base: NoteValueBase::Whole, dotted: None })
        .unwrap();
    assert_eq!(measure.is_measure_complete(), true);
}

#[test]
fn test_measure_add_note_over_total_duration_fails() {
    let mut measure = Measure::new(TimeSignature::default());
    let overflowing = NoteValue { base: NoteValueBase::Whole, dotted: Some(NoteValueDotted::Dotted) };
    assert!(measure.add_note(PianoKey::default(), overflowing).is_err());
    // the refused note left the measure untouched
    assert_eq!(measure.get_remaining_value(), 128);
}
