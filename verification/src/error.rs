//! The error taxonomy of the library: every failure a core operation can
//! surface, each carrying enough context to identify what failed.

use vstd::prelude::*;

verus! {

/// Why a core operation failed.
#[derive(Debug)]
pub enum LibraryError {
    /// The URL's host is recognized by no backend.
    UnsupportedService,
    /// A backend failed to resolve a playlist URL; the payload is the
    /// backend's own description of the failure.
    ResolutionFailed(String),
    /// A single track transfer failed; the payload describes the reason.
    DownloadFailed(String),
    /// The durable state exists but could not be read or parsed.
    ConfigReadError(String),
    /// The durable state could not be written.
    ConfigWriteError(String),
}

impl Clone for LibraryError {
    fn clone(&self) -> (r: Self)
        ensures
            r == *self,
    {
        match self {
            LibraryError::UnsupportedService => LibraryError::UnsupportedService,
            LibraryError::ResolutionFailed(m) => LibraryError::ResolutionFailed(m.clone()),
            LibraryError::DownloadFailed(m) => LibraryError::DownloadFailed(m.clone()),
            LibraryError::ConfigReadError(m) => LibraryError::ConfigReadError(m.clone()),
            LibraryError::ConfigWriteError(m) => LibraryError::ConfigWriteError(m.clone()),
        }
    }
}

} // verus!
