use vstd::prelude::*;

use crate::musictheory::mode::{Mode, PentatonicMode};
use crate::musictheory::note::{Accidental, Note, NoteLetter};
use crate::musictheory::piano_key::PianoKey;
use crate::musictheory::scale::Scale;
use crate::rng::rand_below;

verus! {

/// Every scale the random picker may yield, in order.
pub open spec fn spec_scale_menu() -> Seq<Scale> {
    seq![
        Scale::Diatonic(Mode::Ionian),
        Scale::Diatonic(Mode::Dorian),
        Scale::Diatonic(Mode::Phrygian),
        Scale::Diatonic(Mode::Lydian),
        Scale::Diatonic(Mode::Mixolydian),
        Scale::Diatonic(Mode::Aeolian),
        Scale::Diatonic(Mode::Locrian),
        Scale::Pentatonic(PentatonicMode::Major),
        Scale::Pentatonic(PentatonicMode::Suspended),
        Scale::Pentatonic(PentatonicMode::BluesMajor),
        Scale::Pentatonic(PentatonicMode::BluesMinor),
        Scale::Pentatonic(PentatonicMode::Minor),
        Scale::Chromatic,
        Scale::Tetratonic,
    ]
}

/// The twelve chromatic keys of the fourth octave, the roots the
/// random picker chooses from.
pub open spec fn spec_base_note_menu() -> Seq<PianoKey> {
    seq![
        spec_key4(NoteLetter::A, false),
        spec_key4(NoteLetter::A, true),
        spec_key4(NoteLetter::B, false),
        spec_key4(NoteLetter::C, false),
        spec_key4(NoteLetter::C, true),
        spec_key4(NoteLetter::D, false),
        spec_key4(NoteLetter::D, true),
        spec_key4(NoteLetter::E, false),
        spec_key4(NoteLetter::F, false),
        spec_key4(NoteLetter::F, true),
        spec_key4(NoteLetter::G, false),
        spec_key4(NoteLetter::G, true),
    ]
}

/// A fourth-octave key, natural or sharp.
pub open spec fn spec_key4(letter: NoteLetter, sharp: bool) -> PianoKey {
    PianoKey {
        note: Note {
            accidental: if sharp {
                Some(Accidental::Sharp)
            } else {
                None
            },
            letter,
        },
        octave: 4,
    }
}

/// Picks one of the fourteen scales uniformly.
pub fn get_random_scale(seed: &mut rand::rngs::SmallRng) -> (r: Scale)
    ensures
        spec_scale_menu().contains(r),
{
    let mut menu: Vec<Scale> = Vec::new();
    menu.push(Scale::Diatonic(Mode::Ionian));
    menu.push(Scale::Diatonic(Mode::Dorian));
    menu.push(Scale::Diatonic(Mode::Phrygian));
    menu.push(Scale::Diatonic(Mode::Lydian));
    menu.push(Scale::Diatonic(Mode::Mixolydian));
    menu.push(Scale::Diatonic(Mode::Aeolian));
    menu.push(Scale::Diatonic(Mode::Locrian));
    menu.push(Scale::Pentatonic(PentatonicMode::Major));
    menu.push(Scale::Pentatonic(PentatonicMode::Suspended));
    menu.push(Scale::Pentatonic(PentatonicMode::BluesMajor));
    menu.push(Scale::Pentatonic(PentatonicMode::BluesMinor));
    menu.push(Scale::Pentatonic(PentatonicMode::Minor));
    menu.push(Scale::Chromatic);
    menu.push(Scale::Tetratonic);
    proof {
        assert(menu@ =~= spec_scale_menu());
    }
    let j = rand_below(seed, 14);
    let r = menu[j];
    proof {
        assert(spec_scale_menu().contains(r)) by {
            assert(spec_scale_menu()[j as int] == r);
        };
    }
    r
}

/// Picks one of the twelve fourth-octave roots uniformly.  Every
/// candidate is natural or sharp, so the melodic distance constraints
/// downstream are well defined.
pub fn get_random_base_note(seed: &mut rand::rngs::SmallRng) -> (r: PianoKey)
    ensures
        spec_base_note_menu().contains(r),
        r.spec_canonical(),
        r.octave == 4,
{
    let mut menu: Vec<PianoKey> = Vec::new();
    menu.push(PianoKey { note: Note { accidental: None, letter: NoteLetter::A }, octave: 4 });
    menu.push(
        PianoKey { note: Note { accidental: Some(Accidental::Sharp), letter: NoteLetter::A }, octave: 4 },
    );
    menu.push(PianoKey { note: Note { accidental: None, letter: NoteLetter::B }, octave: 4 });
    menu.push(PianoKey { note: Note { accidental: None, letter: NoteLetter::C }, octave: 4 });
    menu.push(
        PianoKey { note: Note { accidental: Some(Accidental::Sharp), letter: NoteLetter::C }, octave: 4 },
    );
    menu.push(PianoKey { note: Note { accidental: None, letter: NoteLetter::D }, octave: 4 });
    menu.push(
        PianoKey { note: Note { accidental: Some(Accidental::Sharp), letter: NoteLetter::D }, octave: 4 },
    );
    menu.push(PianoKey { note: Note { accidental: None, letter: NoteLetter::E }, octave: 4 });
    menu.push(PianoKey { note: Note { accidental: None, letter: NoteLetter::F }, octave: 4 });
    menu.push(
        PianoKey { note: Note { accidental: Some(Accidental::Sharp), letter: NoteLetter::F }, octave: 4 },
    );
    menu.push(PianoKey { note: Note { accidental: None, letter: NoteLetter::G }, octave: 4 });
    menu.push(
        PianoKey { note: Note { accidental: Some(Accidental::Sharp), letter: NoteLetter::G }, octave: 4 },
    );
    proof {
        assert(menu@ =~= spec_base_note_menu());
    }
    let j = rand_below(seed, 12);
    let r = menu[j];
    proof {
        assert(spec_base_note_menu().contains(r)) by {
            assert(spec_base_note_menu()[j as int] == r);
        };
    }
    r
}

} // verus!
