//! The platform families that the updater tells apart.

use vstd::prelude::*;

verus! {

/// How the main application is updated on the running platform.
#[derive(Clone, Copy, Debug, PartialEq, Eq, Structural)]
pub enum Platform {
    /// An installer with its own prompt does the work; nothing is done here.
    PromptInstall,
    /// The release ships a disk image that is downloaded and opened.
    DiskImage,
    /// No managed install path is known; nothing is done here.
    NoManagedPath,
}

/// How a process obtains higher privileges.
#[derive(Clone, Copy, Debug, PartialEq, Eq, Structural)]
pub enum ElevationModel {
    /// A new, elevated process is started through the native prompt and does
    /// the work; the calling process waits for it and then ends.
    Relaunch,
    /// The calling process itself is raised by a privilege utility.
    InPlace,
}

impl Platform {
    /// The elevation model of this platform.
    pub open spec fn elevation_model(self) -> ElevationModel {
        match self {
            Platform::PromptInstall => ElevationModel::Relaunch,
            Platform::DiskImage => ElevationModel::InPlace,
            Platform::NoManagedPath => ElevationModel::InPlace,
        }
    }
}

} // verus!
