//! Failures reported by the configuration core.
use vstd::prelude::*;

verus! {

/// Why an operation of the core did not succeed.
#[derive(PartialEq, Eq, Structural, Clone, Copy, Debug)]
pub enum CoreError {
    /// No project is registered under the given path.
    ProjectNotFound,
    /// No group carries the given name.
    GroupNotFound,
    /// An install was requested without a version.
    VersionMissing,
    /// The settings name no distribution mirror.
    MirrorMissing,
    /// The settings name no install directory.
    DirectoryMissing,
}

} // verus!
