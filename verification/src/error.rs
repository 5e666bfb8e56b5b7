//! Failure taxonomy of the commands.

use vstd::prelude::*;

verus! {

/// What went wrong, independent of the wording shown to the user.
#[derive(Debug, Clone, Copy, PartialEq, Eq, Structural)]
pub enum ErrorKind {
    /// A resource was busy or its lock was poisoned.
    LockContention,
    /// The command needs a parsed system or a diagram and none is stored.
    NotLoaded,
    /// A parser or a configuration check rejected its input.
    ValidationError,
    /// The system or the diagram could not be turned into text.
    SerializationError,
    /// Reading or writing a file failed.
    IOError,
    /// No text editor could be found or started.
    ExternalToolUnavailable,
    /// The raster export was asked for an image it cannot produce.
    RasterError,
}

/// A failure of a command: its kind and the text reported for it.
#[derive(Debug)]
pub struct CommandError {
    pub kind: ErrorKind,
    pub message: String,
}

impl CommandError {
    /// A failure of `kind` reported as `message`.
    pub fn new(kind: ErrorKind, message: String) -> (error: CommandError)
        ensures
            error.kind == kind,
            error.message == message,
    {
        CommandError { kind, message }
    }

    /// A failure of `kind` reported with a fixed text.
    pub fn fixed(kind: ErrorKind, text: &str) -> (error: CommandError)
        ensures
            error.kind == kind,
            error.message@ == text@,
    {
        CommandError { kind, message: text.to_owned() }
    }
}

} // verus!
