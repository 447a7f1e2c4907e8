//! Decision logic of a text-to-speech command-line tool.
//!
//! The speech engine, the transcoder, the audio device and the file system
//! are outside collaborators. This library holds everything that is decided
//! between the calls to them: which input is spoken, where the audio goes,
//! whether it is re-encoded, and which error ends a request.

pub mod error;
pub mod format;
pub mod path;
pub mod request;
pub mod session;

