//! The error taxonomy every fallible operation of the crate reports.

use vstd::prelude::*;

verus! {

/// Discriminant of a [`WindowsAudioError`].
///
/// `NotFound`, `InvalidArgument` and `IndexOutOfRange` describe inputs the
/// crate itself rejects. `EnumerationFailed`, `ResolutionFailed` and
/// `PermissionOrStateError` carry opaque platform failures through.
/// `ConversionFailed` marks a raw notification payload that could not be
/// read as a typed event. `ChannelClosed` marks a consumer that is gone.
#[derive(Clone, Copy, Debug, PartialEq, Eq, Structural)]
pub enum ErrorKind {
    NotFound,
    InvalidArgument,
    IndexOutOfRange,
    NoDefaultDevice,
    EnumerationFailed,
    ResolutionFailed,
    PermissionOrStateError,
    ConversionFailed,
    ChannelClosed,
}

/// A typed failure: a discriminant plus a human-readable message.
#[derive(Clone, Debug)]
pub struct WindowsAudioError {
    pub kind: ErrorKind,
    pub message: String,
}

impl WindowsAudioError {
    pub fn new(kind: ErrorKind, message: String) -> (e: WindowsAudioError)
        ensures
            e.kind == kind,
            e.message == message,
    {
        WindowsAudioError { kind, message }
    }

    /// The discriminant, for dispatch without reading the message.
    pub fn kind(&self) -> (k: ErrorKind)
        ensures
            k == self.kind,
    {
        self.kind
    }

    /// The human-readable message.
    pub fn message(&self) -> (m: &String)
        ensures
            m == self.message,
    {
        &self.message
    }
}

} // verus!
