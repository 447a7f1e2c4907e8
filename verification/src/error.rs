//! The closed set of errors that end a request.

use vstd::prelude::*;

verus! {

/// A failure reported by the platform (speech engine, storage, playback).
/// The library never looks inside: it carries the failure to the caller.
#[derive(Clone, Debug, PartialEq, Eq)]
pub struct PlatformError {
    pub code: i32,
    pub message: String,
}

/// Why a request failed.
#[derive(Clone, Debug, PartialEq, Eq)]
pub enum SpeakError {
    /// The path has no parent directory.
    NoPathParent,
    /// The path has no file name.
    NoFileName,
    /// The transcoder cannot convert the synthesized stream to the format.
    TranscodeFailed,
    /// The platform failed; passed on untouched.
    Platform(PlatformError),
}

impl SpeakError {
    /// The human-readable text of the error.
    pub open spec fn text(self) -> Seq<char> {
        match self {
            SpeakError::NoPathParent => "invalid path parent"@,
            SpeakError::NoFileName => "invalid file name"@,
            SpeakError::TranscodeFailed => "failed to transcode stream"@,
            SpeakError::Platform(e) => e.message@,
        }
    }

    /// The message shown to the user when the request ends with this error.
    pub fn message(&self) -> (s: String)
        ensures
            s@ == self.text(),
    {
        match self {
            SpeakError::NoPathParent => "invalid path parent".to_owned(),
            SpeakError::NoFileName => "invalid file name".to_owned(),
            SpeakError::TranscodeFailed => "failed to transcode stream".to_owned(),
            SpeakError::Platform(e) => e.message.clone(),
        }
    }
}

/// Turns the outcome of a platform call into the outcome of the request.
pub open spec fn lifted(outcome: Result<(), PlatformError>) -> Result<(), SpeakError> {
    match outcome {
        Ok(()) => Ok(()),
        Err(e) => Err(SpeakError::Platform(e)),
    }
}

} // verus!
