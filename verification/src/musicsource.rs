//! Streaming synthesis cursors: each maker walks a musical structure
//! one sample tick at a time, reporting the data an audio backend
//! needs to voice that tick.

pub mod chord_music_maker;
pub mod melody_music_maker;
pub mod sheet_music_maker;

use vstd::prelude::*;

verus! {

/// The sample rate every maker starts with, in samples per second.
pub const SAMPLE_RATE_HZ: u32 = 44_100;

} // verus!
