use vstd::prelude::*;

verus! {

/// The failures this library reports instead of panicking.
///
/// Parse and validation failures carry the offending input: the
/// character or string that could not be read.  Structural and
/// generation failures carry nothing; the caller holds the inputs.
#[derive(Debug, Clone, PartialEq)]
pub enum MusicError {
    /// A note letter outside A..G; carries the rejected note name.
    InvalidNoteLetter(String),
    /// An accidental other than `#` or `b`; carries the rejected note
    /// name.
    InvalidAccidental(String),
    /// A piano-key octave above 8, or no octave digit at all; carries
    /// the rejected key name.
    InvalidOctave(String),
    /// A time signature whose denominator is not a positive power of
    /// two, or that is not written as `total/counting`; carries the
    /// rejected signature.
    InvalidTimeSignature(String),
    /// A scale name outside the known list; carries the rejected name.
    UnknownScale(String),
    /// A chord-type name outside the known list; carries the rejected
    /// quality name.
    UnknownChordType(String),
    /// A chord-progression token whose degree is not a roman numeral
    /// within the key; carries the rejected token.
    InvalidChordDegree(String),
    /// Adding a note whose duration exceeds the measure's remaining
    /// room.
    MeasureOverflow,
    /// A random generator could not satisfy its constraints within the
    /// retry budget.
    GenerationFailed,
}

} // verus!
