//! Streaming speech recognition sessions for the Nemotron ASR engine: latency
//! modes, cache configuration, backend discovery and the bookkeeping of
//! model contexts and transcription streams.
//!
//! The recognition engine itself runs outside this library. Where an operation
//! needs the engine (loading a model, opening a stream, decoding audio), the
//! caller performs that step and the function here takes the engine's answer
//! as an argument and decides what the caller gets back.

pub mod backend;
pub mod config;
pub mod error;
pub mod latency;
pub mod session;
pub mod text;
pub mod transcribe;

pub use backend::{backend_count, get_backend, list_backends, BackendDevice, BackendRegistry};
pub use config::CacheConfig;
pub use error::{InitializationError, StreamInitializationError};
pub use latency::LatencyMode;
pub use session::{Context, Stream};
