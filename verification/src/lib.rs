//! Core logic of a text-to-speech backend service: error classification,
//! configuration, the emotion preset catalogue, voice model records,
//! training job bookkeeping, synthesis planning and transcript handling.

pub mod error;
pub mod text;
pub mod clock;
pub mod ids;
pub mod config;
pub mod emotion;
pub mod json;
pub mod model;
pub mod training;
pub mod cache;
pub mod tts;
pub mod annotation;
pub mod laws;
