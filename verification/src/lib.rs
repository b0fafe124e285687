//! A real-time metronome core: a tick scheduler and playback state machine
//! that decide, for every block of audio samples an output device requests,
//! which samples carry a click tone and which beat of the measure it marks.
//!
//! Time is carried in whole nanoseconds on a monotonic clock, volume as a
//! per-mille fraction of full scale, and each output sample as a
//! [`engine::SampleCmd`]; the audio layer around the library turns those
//! commands into waveform samples and hands them to the device.

pub mod config;
pub mod control;
pub mod engine;
pub mod laws;
