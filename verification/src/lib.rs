//! The local backend of a voice assistant: microphone capture into 16-bit
//! waveform files, and supervision of the worker process that does the speech
//! processing.
//!
//! The library decides; the application around it performs. Every operation
//! that needs outside work is a step function: it takes the state and an
//! event, changes the state, and returns the action to perform next.

pub mod device;
pub mod error;
pub mod format;
pub mod monitor;
pub mod naming;
pub mod recorder;
pub mod sample;
pub mod sidecar;
