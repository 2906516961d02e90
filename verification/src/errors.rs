//! The failures this layer reports. Every error is returned as a value; none
//! aborts the process, and none is retried.

use vstd::prelude::*;

verus! {

/// What a call into this layer can fail with.
///
/// A `PathConversionError` is detected before any native call and so never
/// carries a native message. `LoadError` and `SaveError` carry the native
/// library's last-error text, read immediately after the failing call, since
/// that text lives in a single global slot a later call would overwrite.
#[derive(Clone, Debug, PartialEq, Eq)]
pub enum ImageError {
    /// A path or text handed to a native call cannot be represented as a
    /// null-terminated byte string.
    PathConversionError,
    /// A native load call returned a null handle.
    LoadError(String),
    /// A native save call returned a non-zero status.
    SaveError(String),
}

impl ImageError {
    /// The human-readable description a caller sees.
    pub open spec fn message_spec(self) -> Seq<char> {
        match self {
            ImageError::PathConversionError => "path holds an embedded null byte"@,
            ImageError::LoadError(s) => s@,
            ImageError::SaveError(s) => s@,
        }
    }

    /// Renders this error's diagnostic text: the fixed description for a
    /// conversion failure, else the native last-error text carried inside.
    pub fn message(&self) -> (r: String)
        ensures
            r@ == self.message_spec(),
    {
        match self {
            ImageError::PathConversionError => "path holds an embedded null byte".to_owned(),
            ImageError::LoadError(s) => s.clone(),
            ImageError::SaveError(s) => s.clone(),
        }
    }
}

} // verus!
