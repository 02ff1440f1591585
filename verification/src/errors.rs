//! The error taxonomy of the updater. Every failure is fatal: the caller
//! reports the message and exits with a non-zero status.

use vstd::prelude::*;

verus! {

/// Why an update run failed.
#[derive(Clone, Copy, Debug, PartialEq, Eq, Structural)]
pub enum UpdateError {
    /// The install directory could not be resolved.
    Configuration,
    /// An HTTP request could not be sent, or its response could not be read.
    Network,
    /// The release list was empty.
    ReleaseNotFound,
    /// No asset in the release carried the expected file name.
    AssetNotFound,
    /// The downloaded file could not be marked executable.
    Permission,
    /// The installed binary could not be spawned.
    Launch,
}

impl UpdateError {
    /// The human-readable message reported for this failure.
    pub fn message(&self) -> (r: &'static str)
        ensures
            *self is Configuration ==> r@ == "Cannot get the data directory"@,
            *self is Network ==> r@ == "Network request failed"@,
            *self is ReleaseNotFound ==> r@ == "Cannot get osu release"@,
            *self is AssetNotFound ==> r@ == "Cannot get the AppImage file"@,
            *self is Permission ==> r@ == "Cannot make the file executable"@,
            *self is Launch ==> r@ == "Cannot launch the file"@,
    {
        match self {
            UpdateError::Configuration => "Cannot get the data directory",
            UpdateError::Network => "Network request failed",
            UpdateError::ReleaseNotFound => "Cannot get osu release",
            UpdateError::AssetNotFound => "Cannot get the AppImage file",
            UpdateError::Permission => "Cannot make the file executable",
            UpdateError::Launch => "Cannot launch the file",
        }
    }
}

} // verus!
