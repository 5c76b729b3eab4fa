use pmusic::error::MusicError;
use pmusic::musictheory::char_strs;
use pmusic::musictheory::interval::Interval;
use pmusic::musictheory::key::Key;
use pmusic::musictheory::note::{Accidental, Note, NoteLetter};
use pmusic::musictheory::piano_key::PianoKey;
use pmusic::musictheory::pitch::{Pitch, C_ZERO_MICRO_HZ, PITCH_TOLERANCE_MICRO_HZ};
use pmusic::musictheory::scale::Scale;
use pmusic::musictheory::mode::{Mode, PentatonicMode};

#[test]
fn test_new_piano_key() {
    assert_eq!(
        PianoKey::default(),
        PianoKey {
            note: Note {
                letter: NoteLetter::C,
                accidental: None
            },
            octave: 0
        }
    );
    assert_eq!(
        PianoKey::new("A4").unwrap(),
        PianoKey {
            note: Note {
                letter: NoteLetter::A,
                accidental: None
            },
            octave: 4
        }
    );
    assert_eq!(
        PianoKey::new("Gb2").unwrap(),
        PianoKey {
            note: Note {
                letter: NoteLetter::G,
                accidental: Some(Accidental::Flat)
            },
            octave: 2
        }
    );
    assert_eq!(
        PianoKey::new("F#8").unwrap(),
        PianoKey {
            note: Note {
                letter: NoteLetter::F,
                accidental: Some(Accidental::Sharp)
            },
            octave: 8
        }
    );
}

#[test]
fn test_reject_piano_key_too_high() {
    assert!(PianoKey::new("A9").is_err());
}

#[test]
fn test_parse_errors_carry_the_offending_input() {
    assert!(matches!(PianoKey::new("A9"), Err(MusicError::InvalidOctave(t)) if t == "A9"));
    assert!(matches!(PianoKey::new("Q7"), Err(MusicError::InvalidNoteLetter(t)) if t == "Q"));
    assert!(matches!(PianoKey::new("Cx4"), Err(MusicError::InvalidAccidental(t)) if t == "Cx"));
    assert!(matches!(Scale::from_str("whole"), Err(MusicError::UnknownScale(t)) if t == "whole"));
}

#[test]
fn test_reject_piano_key_invalid_letter() {
    assert!(PianoKey::new("Q7").is_err());
}

#[test]
fn test_piano_key_to_str() {
    assert_eq!(PianoKey::default().name_string(), "C0".to_string());
    assert_eq!(PianoKey::new("A#4").unwrap().name_string(), "A#4".to_string());
    assert_eq!(PianoKey::new("Bb5").unwrap().name_string(), "Bb5".to_string());
}

#[test]
fn test_char_strs() {
    let expected: Vec<String> = ["H", "e", "l", "l", "o"]
        .iter()
        .map(|s| s.to_string())
        .collect();
    assert_eq!(char_strs("Hello"), expected)
}

#[test]
fn test_add_interval() {
    assert_eq!(Interval::Unison.add(Interval::Unison), Interval::Unison);
    assert_eq!(Interval::Unison.add(Interval::Maj3), Interval::Maj3);
    assert_eq!(Interval::Maj2.add(Interval::Min3), Interval::Perfect4);
    assert_eq!(Interval::Octave.add(Interval::Octave), Interval::Unison);
    assert_eq!(Interval::Tritone.add(Interval::Tritone), Interval::Unison);
    assert_eq!(Interval::Maj7.add(Interval::Min3), Interval::Maj2);
}

#[test]
fn test_sub_interval() {
    assert_eq!(Interval::Unison.sub(Interval::Unison), Interval::Unison);
    assert_eq!(Interval::Unison.sub(Interval::Maj3), Interval::Min6);
    assert_eq!(Interval::Maj2.sub(Interval::Min3), Interval::Maj7);
    assert_eq!(Interval::Octave.sub(Interval::Octave), Interval::Unison);
    assert_eq!(Interval::Tritone.sub(Interval::Tritone), Interval::Unison);
    assert_eq!(Interval::Maj7.sub(Interval::Min3), Interval::Min6);
}

#[test]
fn test_get_note_interval_from_c() {
    assert_eq!(Note::from_str("A").unwrap().interval_from_c(), Interval::Maj6);
    assert_eq!(Note::from_str("A#").unwrap().interval_from_c(), Interval::Min7);
    assert_eq!(Note::from_str("Bb").unwrap().interval_from_c(), Interval::Min7);
    assert_eq!(Note::from_str("B").unwrap().interval_from_c(), Interval::Maj7);
    assert_eq!(Note::from_str("C").unwrap().interval_from_c(), Interval::Unison);
    assert_eq!(Note::from_str("C#").unwrap().interval_from_c(), Interval::Min2);
    assert_eq!(Note::from_str("D").unwrap().interval_from_c(), Interval::Maj2);
    assert_eq!(Note::from_str("D#").unwrap().interval_from_c(), Interval::Min3);
    assert_eq!(Note::from_str("E").unwrap().interval_from_c(), Interval::Maj3);
    assert_eq!(Note::from_str("F").unwrap().interval_from_c(), Interval::Perfect4);
    assert_eq!(Note::from_str("F#").unwrap().interval_from_c(), Interval::Tritone);
    assert_eq!(Note::from_str("G").unwrap().interval_from_c(), Interval::Perfect5);
    assert_eq!(Note::from_str("G#").unwrap().interval_from_c(), Interval::Min6);
}

#[test]
fn test_get_note_offset() {
    let a = Note::from_str("A").unwrap();
    assert_eq!(Note::from_str("A").unwrap().get_offset(a), Interval::Unison);
    assert_eq!(Note::from_str("A#").unwrap().get_offset(a), Interval::Min2);
    assert_eq!(Note::from_str("B").unwrap().get_offset(a), Interval::Maj2);
    assert_eq!(Note::from_str("C").unwrap().get_offset(a), Interval::Min3);
    assert_eq!(Note::from_str("C#").unwrap().get_offset(a), Interval::Maj3);
    assert_eq!(Note::from_str("D").unwrap().get_offset(a), Interval::Perfect4);
    assert_eq!(Note::from_str("D#").unwrap().get_offset(a), Interval::Tritone);
    assert_eq!(Note::from_str("E").unwrap().get_offset(a), Interval::Perfect5);
    assert_eq!(Note::from_str("F").unwrap().get_offset(a), Interval::Min6);
    assert_eq!(Note::from_str("F#").unwrap().get_offset(a), Interval::Maj6);
    assert_eq!(Note::from_str("G").unwrap().get_offset(a), Interval::Min7);
    assert_eq!(Note::from_str("G#").unwrap().get_offset(a), Interval::Maj7);
}

#[test]
fn test_add_interval_to_note() {
    let a = Note::from_str("A").unwrap();
    assert_eq!(a.add_interval(Interval::Unison), a);
    assert_eq!(a.add_interval(Interval::Min2), Note::from_str("A#").unwrap());
    assert_eq!(a.add_interval(Interval::Maj2), Note::from_str("B").unwrap());
    assert_eq!(a.add_interval(Interval::Min3), Note::from_str("C").unwrap());
    assert_eq!(a.add_interval(Interval::Maj3), Note::from_str("C#").unwrap());
    assert_eq!(a.add_interval(Interval::Perfect4), Note::from_str("D").unwrap());
    assert_eq!(a.add_interval(Interval::Tritone), Note::from_str("D#").unwrap());
    assert_eq!(a.add_interval(Interval::Perfect5), Note::from_str("E").unwrap());
    assert_eq!(a.add_interval(Interval::Min6), Note::from_str("F").unwrap());
    assert_eq!(a.add_interval(Interval::Maj6), Note::from_str("F#").unwrap());
    assert_eq!(a.add_interval(Interval::Min7), Note::from_str("G").unwrap());
    assert_eq!(a.add_interval(Interval::Maj7), Note::from_str("G#").unwrap());
}

#[test]
fn test_note_letter_to_interval() {
    assert_eq!(NoteLetter::C.interval_from_c(), Interval::Unison);
    assert_eq!(NoteLetter::D.interval_from_c(), Interval::Maj2);
    assert_eq!(NoteLetter::E.interval_from_c(), Interval::Maj3);
    assert_eq!(NoteLetter::F.interval_from_c(), Interval::Perfect4);
    assert_eq!(NoteLetter::G.interval_from_c(), Interval::Perfect5);
    assert_eq!(NoteLetter::A.interval_from_c(), Interval::Maj6);
    assert_eq!(NoteLetter::B.interval_from_c(), Interval::Maj7);
}

#[test]
fn test_c_major() {
    assert_eq!(
        &Key::new(Scale::default(), PianoKey::new("C4").unwrap(), 1).name_string(),
        "[ C D E F G A B C ]"
    )
}

#[test]
fn test_a_major() {
    assert_eq!(
        &Key::new(Scale::default(), PianoKey::new("A4").unwrap(), 1).name_string(),
        "[ A B C# D E F# G# A ]"
    )
}

#[test]
fn test_g_major() {
    assert_eq!(
        &Key::new(Scale::default(), PianoKey::new("G4").unwrap(), 1).name_string(),
        "[ G A B C D E F# G ]"
    )
}

#[test]
fn test_a_minor() {
    assert_eq!(
        &Key::new(Scale::Diatonic(Mode::Aeolian), PianoKey::new("A4").unwrap(), 1).name_string(),
        "[ A B C D E F G A ]"
    )
}

#[test]
fn test_pentatonic_c_major() {
    assert_eq!(
        &Key::new(Scale::Pentatonic(PentatonicMode::Major), PianoKey::new("C4").unwrap(), 1).name_string(),
        "[ C D E G A C ]"
    )
}

#[test]
fn test_pentatonic_a_minor() {
    assert_eq!(
        &Key::new(Scale::Pentatonic(PentatonicMode::Minor), PianoKey::new("A4").unwrap(), 1).name_string(),
        "[ A C D E G A ]"
    )
}

#[test]
fn test_pentatonic_c_suspended() {
    assert_eq!(
        &Key::new(Scale::Pentatonic(PentatonicMode::Suspended), PianoKey::new("C4").unwrap(), 1).name_string(),
        "[ C D F G A# C ]"
    )
}

#[test]
fn test_pentatonic_e_blues_minor() {
    assert_eq!(
        &Key::new(Scale::Pentatonic(PentatonicMode::BluesMinor), PianoKey::new("E4").unwrap(), 1).name_string(),
        "[ E G A C D E ]"
    )
}

#[test]
fn test_tetratonic_closes_the_octave() {
    assert_eq!(
        &Key::new(Scale::Tetratonic, PianoKey::new("C4").unwrap(), 1).name_string(),
        "[ C C# D# G C ]"
    );
    assert_eq!(Scale::Tetratonic.get_intervals().len(), 4);
}

#[test]
fn test_add_interval_to_piano_key() {
    let sp = PianoKey::new("B3").unwrap();
    assert_eq!(sp.add_interval(Interval::Min2).name_string(), "C4");
    assert_eq!(sp.add_interval(Interval::Min3).name_string(), "D4");
    assert_eq!(sp.add_interval(Interval::Maj3).name_string(), "D#4");
    assert_eq!(sp.add_interval(Interval::Octave).name_string(), "B4");
}

#[test]
fn test_piano_key_get_distance() {
    assert_eq!(
        PianoKey::new("C4").unwrap().get_distance(PianoKey::new("B3").unwrap()),
        1
    );
    assert_eq!(
        PianoKey::new("C4").unwrap().get_distance(PianoKey::new("C#4").unwrap()),
        1
    );
    assert_eq!(
        PianoKey::new("C#4").unwrap().get_distance(PianoKey::new("D5").unwrap()),
        13
    );
    assert_eq!(
        PianoKey::new("D5").unwrap().get_distance(PianoKey::new("C#4").unwrap()),
        13
    );
    assert_eq!(
        PianoKey::new("A#3").unwrap().get_distance(PianoKey::new("C4").unwrap()),
        2
    );
    assert_eq!(
        PianoKey::new("F#4").unwrap().get_distance(PianoKey::new("A5").unwrap()),
        15
    );
}

#[test]
fn test_distance_zero_on_equal_keys() {
    let c4 = PianoKey::new("C4").unwrap();
    assert_eq!(c4.get_distance(c4), 0);
    assert_ne!(c4.get_distance(PianoKey::new("C#4").unwrap()), 0);
}

#[test]
fn test_piano_key_to_pitch() {
    let a4 = Pitch::from_piano_key(PianoKey::new("A4").unwrap());
    assert!(a4.approx_eq(Pitch::default()));
    let c0 = Pitch::from_piano_key(PianoKey::default());
    assert_eq!(c0.micro_hz(), C_ZERO_MICRO_HZ);
}

#[test]
fn test_pitch_reference_points() {
    let c0 = Pitch::from_piano_key(PianoKey::default());
    let diff_c0 = c0.micro_hz().abs_diff(16_352_000);
    assert!(diff_c0 < PITCH_TOLERANCE_MICRO_HZ);
    let a4 = Pitch::from_piano_key(PianoKey::new("A4").unwrap());
    let diff_a4 = a4.micro_hz().abs_diff(440_000_000);
    assert!(diff_a4 < PITCH_TOLERANCE_MICRO_HZ);
}

#[test]
fn test_scale_parsing_round() {
    assert_eq!(
        Scale::from_str("major").unwrap(),
        Scale::Diatonic(Mode::Ionian)
    );
    assert_eq!(
        Scale::from_str("PENTABLUESMINOR").unwrap(),
        Scale::Pentatonic(PentatonicMode::BluesMinor)
    );
    assert!(Scale::from_str("unknown").is_err());
    assert_eq!(&Scale::default().name_string(), "major scale");
}
