//! Amplitude shaping for the synthesis engine.

pub mod adsr_envelop;
