//! Errors of the capture and transcription pipeline.
use vstd::prelude::*;

verus! {

/// A failure somewhere in the pipeline, with a human-readable message.
#[derive(Debug, Clone, PartialEq, Eq)]
pub enum VMTError {
    /// The capture stream could not be started.
    PlayStream { message: String },
    /// The capture stream could not be paused.
    StopStream { message: String },
    /// A segment could not be encoded.
    Hound { message: String },
    /// The transcription service failed or answered with malformed data.
    Transcript { message: String },
    /// More samples were requested from the ring buffer than it held.
    RtrbChunk { message: String },
}

impl VMTError {
    /// The message carried by the error.
    pub fn message(&self) -> (r: &String)
        ensures
            r == match self {
                VMTError::PlayStream { message } => message,
                VMTError::StopStream { message } => message,
                VMTError::Hound { message } => message,
                VMTError::Transcript { message } => message,
                VMTError::RtrbChunk { message } => message,
            },
    {
        match self {
            VMTError::PlayStream { message } => message,
            VMTError::StopStream { message } => message,
            VMTError::Hound { message } => message,
            VMTError::Transcript { message } => message,
            VMTError::RtrbChunk { message } => message,
        }
    }
}

} // verus!
