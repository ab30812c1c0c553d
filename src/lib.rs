//! Capture-to-transcript core: voice-activity detection on 16-bit PCM,
//! frame-buffered denoising, per-engine chunking for the transcriber
//! worker, the recording-session state machine, acceleration fallback and
//! rolling prompt context of the recognizers, transcript clean-up,
//! spelling correction, model-file recognition and the model download
//! registry.

pub mod denoise;
pub mod engine;
pub mod models;
pub mod registry;
pub mod session;
pub mod spellcheck;
pub mod transcriber;
pub mod transcript;
pub mod types;
pub mod vad;
