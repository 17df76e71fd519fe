//! Core logic of a push-to-talk voice-dictation pipeline: a capped sample
//! buffer with mono downmix, a capture-thread command protocol, pure sample
//! rate conversion for streaming chunks, the push-to-talk session state
//! machine with streaming reconciliation, and the voice-command text parser.
//!
//! Everything that talks to hardware, the network or the file system lives in
//! the host program; this crate holds the decisions and transformations, each
//! with a proved contract.

pub mod buffer;
pub mod capture;
pub mod engines;
pub mod hotkeys;
pub mod llm;
pub mod models;
pub mod parser;
pub mod resample;
pub mod session;
pub mod snippets;
pub mod streaming;
pub mod text;
pub mod types;

