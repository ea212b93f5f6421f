//! Transcription of live audio.

pub mod online;
