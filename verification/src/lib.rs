//! Audio capture, mono downmix, 16-bit PCM waveform encoding, and the
//! record/transcribe orchestration state machine.
//!
//! Samples are modelled as fixed-point integers: a sample value `k`
//! stands for the normalized amplitude `k / 32767`. Quantizing a sample
//! to the signed 16-bit container therefore reduces to clamping.

pub mod api;
pub mod audio;
pub mod config;
pub mod db;
pub mod device;
pub mod orchestrator;
pub mod recorder;
pub mod wav;
