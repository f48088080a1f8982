//! Per-project runtime version management: a draft/commit/rollback store for
//! the settings, project and group domains, the cross-domain changes that
//! keep project assignments and group membership in step, batch admission for
//! marker-file writes, and time-gated progress forwarding.
use vstd::prelude::*;

pub mod draft;
pub mod error;
pub mod groups;
pub mod install;
pub mod projects;
pub mod settings;
pub mod sync;
pub mod throttle;
pub mod transaction;

verus! {

/// Name of the per-project marker file holding the assigned runtime version.
pub const MARKER_FILE_NAME: &'static str = ".nvmdrc";

} // verus!
