//! The ways in which an update can fail.

use vstd::prelude::*;

verus! {

/// Why an update, or one step of it, did not complete.
#[derive(Clone, Copy, Debug, PartialEq, Eq, Structural)]
pub enum UpdateError {
    /// The target directory is not writable and elevation cannot help.
    PermissionDenied,
    /// The user or a policy declined the request for higher privileges.
    ElevationRefused,
    /// The release host could not be reached.
    NetworkError,
    /// The project, or a release of it, does not exist on the release host.
    NotFound,
    /// The release holds no asset of the wanted name.
    AssetNotFound,
    /// A local file could not be written, renamed, removed or opened.
    IOError,
}

impl UpdateError {
    /// The process exit status that reports this error.
    pub open spec fn spec_exit_code(self) -> int {
        match self {
            UpdateError::PermissionDenied => 2,
            UpdateError::ElevationRefused => 3,
            UpdateError::NetworkError => 4,
            UpdateError::NotFound => 5,
            UpdateError::AssetNotFound => 6,
            UpdateError::IOError => 7,
        }
    }

    /// The process exit status that reports this error: never zero, and
    /// different for each kind.
    pub fn exit_code(self) -> (code: i32)
        ensures
            code == self.spec_exit_code(),
            code != 0,
    {
        match self {
            UpdateError::PermissionDenied => 2,
            UpdateError::ElevationRefused => 3,
            UpdateError::NetworkError => 4,
            UpdateError::NotFound => 5,
            UpdateError::AssetNotFound => 6,
            UpdateError::IOError => 7,
        }
    }

    /// The text shown to the user for this error.
    pub open spec fn spec_message(self) -> Seq<char> {
        match self {
            UpdateError::PermissionDenied => "the target directory is not writable"@,
            UpdateError::ElevationRefused => "the request for elevated privileges was refused"@,
            UpdateError::NetworkError => "the release host could not be reached"@,
            UpdateError::NotFound => "the project has no published release"@,
            UpdateError::AssetNotFound => "the release holds no asset of that name"@,
            UpdateError::IOError => "a local file operation failed"@,
        }
    }

    /// The text shown to the user for this error.
    pub fn message(self) -> (text: &'static str)
        ensures
            text@ == self.spec_message(),
    {
        match self {
            UpdateError::PermissionDenied => "the target directory is not writable",
            UpdateError::ElevationRefused => "the request for elevated privileges was refused",
            UpdateError::NetworkError => "the release host could not be reached",
            UpdateError::NotFound => "the project has no published release",
            UpdateError::AssetNotFound => "the release holds no asset of that name",
            UpdateError::IOError => "a local file operation failed",
        }
    }
}

} // verus!
