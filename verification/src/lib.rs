//! Procedural music composition library.
//!
//! The library is organised in four layers: music-theory primitives
//! (notes, intervals, scales, chords, time signatures), procedural
//! generation of sheets and chord progressions from an explicit random
//! source, a streaming synthesis cursor for each kind of piece, and the
//! ADSR amplitude envelope.  All rhythmic quantities are carried as
//! integer counts of 1/128ths of a whole note, and frequencies as
//! integer microhertz, so every computation is exact.

pub mod error;
pub mod musicgeneration;
pub mod musicsource;
pub mod musictheory;
pub mod rng;
pub mod signal;
