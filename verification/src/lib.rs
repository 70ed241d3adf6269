//! Verified core of a desktop dictation tool: hotkey parsing, model-file
//! bookkeeping, configuration handling and the decision logic of the audio
//! and transcription workers.

pub mod text;
pub mod error;
pub mod config;
pub mod hotkey;
pub mod model_files;
pub mod transcription;
pub mod audio;
pub mod worker;
