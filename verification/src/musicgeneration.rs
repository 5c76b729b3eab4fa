//! Procedural composition: rhythm, melody, chord-progression and
//! sheet generators, all drawing from an explicit random source.

pub mod chord_progression_generator;
pub mod pattern_generator;
pub mod random_scale;
pub mod rhythm_pattern_generator;
pub mod sheet_from_binary;
pub mod sheet_generator;
