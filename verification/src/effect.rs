//! The closed vocabulary of side-effect requests.
//!
//! An effect describes *what to do*, never *how*; it is always produced by
//! the reducer as part of its return value and performed by the executor
//! outside this crate, which resolves it into new actions.

use vstd::prelude::*;

use crate::state::AppConfig;

verus! {

/// A side-effect request produced by the reducer.
#[derive(Debug, Clone)]
pub enum Effect {
    /// Load the persisted configuration.
    LoadConfig,
    /// Load the cached list of available packages.
    LoadAvailablePackages,
    /// Persist the given configuration.
    SaveConfig(AppConfig),
    /// Scan one level of the given folder for project folders.
    ScanProjectsFolder { root: String },
    /// Read the package manifest of the given project.
    ReadManifest { project_path: String },
    /// Spawn the named program with the given arguments, tracked under the
    /// given task id and label.
    RunCommand { task_id: u64, label: String, program: String, args: Vec<String> },
    /// Signal the cancellation handle of the given task.
    CancelTask { task_id: u64 },
}

} // verus!
