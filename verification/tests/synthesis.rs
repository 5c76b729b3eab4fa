use rand::SeedableRng;

use pmusic::musicgeneration::sheet_from_binary::sheet_from_bytes;
use pmusic::musicsource::chord_music_maker::ChordMusicMaker;
use pmusic::musicsource::melody_music_maker::MelodyMusicMaker;
use pmusic::musicsource::sheet_music_maker::SheetMusicMaker;
use pmusic::musictheory::chord_progression::ChordProgression;
use pmusic::musictheory::note_value::{NoteValue, NoteValueBase};
use pmusic::musictheory::piano_key::PianoKey;
use pmusic::musictheory::scale::Scale;
use pmusic::signal::adsr_envelop::AdsrEnvelop;

#[test]
fn test_adsr_segment_boundaries() {
    let env = AdsrEnvelop::new(100, 200, 300, 400);
    assert_eq!(env.get_decay_start(), 100);
    assert_eq!(env.get_sustain_start(), 300);
    assert_eq!(env.get_release_start(), 600);
    assert_eq!(env.get_note_duration(), 1000);
}

#[test]
fn test_adsr_amplitude_profile() {
    // one second per segment, at a thousand samples per second
    let env = AdsrEnvelop::new(1000, 1000, 1000, 1000);
    let rate = 1000;
    // halfway through the attack: half of the one-and-a-half peak
    assert_eq!(env.get_amplitude_for_sample(500, rate), 750_000);
    // halfway through the decay: halfway from the peak down to one
    assert_eq!(env.get_amplitude_for_sample(1500, rate), 1_250_000);
    // sustain holds at one
    assert_eq!(env.get_amplitude_for_sample(2500, rate), 1_000_000);
    // halfway through the release: half amplitude
    assert_eq!(env.get_amplitude_for_sample(3500, rate), 500_000);
    // after the envelope: silence
    assert_eq!(env.get_amplitude_for_sample(4500, rate), 0);
}

#[test]
fn test_adsr_default_is_flat_gain() {
    let env = AdsrEnvelop::default();
    assert_eq!(env.get_amplitude_for_sample(1, 44_100), 1_000_000);
    assert_eq!(env.get_amplitude_for_sample(44_100, 44_100), 1_000_000);
}

#[test]
fn test_melody_maker_ticks() {
    let seed = rand::rngs::SmallRng::seed_from_u64(1);
    let mut maker = MelodyMusicMaker::new(
        PianoKey::new("C4").unwrap(),
        Scale::default(),
        1,
        60,
        seed,
    );
    // the melody opens on middle C
    let (freq, tick) = maker.next();
    assert_eq!(freq, 261_632_000);
    assert_eq!(tick, 1);
    let (_, tick2) = maker.next();
    assert_eq!(tick2, 2);
}

#[test]
fn test_sheet_maker_walks_notes() {
    let sheet = sheet_from_bytes(PianoKey::new("C4").unwrap(), &vec![0, 2, 4, 5], false);
    let mut maker = SheetMusicMaker::new(sheet, 60);
    let (freq, tick, amplitude) = maker.next();
    // the first tick voices C4 at full default amplitude
    assert_eq!(freq, 261_632_000);
    assert_eq!(tick, 1);
    assert_eq!(amplitude, 1_000_000);
    // a quarter note at sixty beats per minute lasts one second: the
    // cursor still points at the first note a few ticks in
    let (freq2, _, _) = maker.next();
    assert_eq!(freq2, 261_632_000);
}

#[test]
fn test_chord_maker_voices_all_tones() {
    let progression = ChordProgression::from_scale_and_str(
        Scale::default(),
        PianoKey::new("C4").unwrap(),
        "I",
    )
    .unwrap();
    let rhythm = vec![NoteValue { base: NoteValueBase::Whole, dotted: None }];
    let mut maker = ChordMusicMaker::new(progression, rhythm, 60, false);
    let (freqs, tick) = maker.next();
    assert_eq!(tick, 1);
    // the tonic triad of C major: C4, E4, G4
    assert_eq!(freqs, vec![261_632_000, 329_635_664, 392_005_072]);
}

#[test]
fn test_chord_maker_advances_past_short_values() {
    let progression = ChordProgression::from_scale_and_str(
        Scale::default(),
        PianoKey::new("C4").unwrap(),
        "I-V",
    )
    .unwrap();
    // a sixteenth note at a brisk tempo passes after few ticks
    let rhythm = vec![NoteValue { base: NoteValueBase::Sixteenth, dotted: None }];
    let mut maker = ChordMusicMaker::new(progression, rhythm, 240, false);
    let mut advanced = false;
    for _ in 0..50_000 {
        maker.next();
        if maker.current_chord == 1 {
            advanced = true;
            break;
        }
    }
    assert!(advanced);
}
