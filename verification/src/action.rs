//! The closed vocabulary of inbound events.
//!
//! An action either originates from an external source (the timer, the
//! keyboard) or is the resolution of a previously issued effect (configuration
//! loaded, folder scanned, manifest read, subprocess output, subprocess
//! termination).  Actions carry no behaviour, only data: every payload is a
//! plain value, so the reducer itself never performs I/O.

use vstd::prelude::*;

use crate::state::{AppConfig, AvailablePackage, ManifestSummary};

verus! {

/// Which of the two line-oriented output channels of a subprocess a line
/// came from.
#[derive(Debug, Clone, Copy, PartialEq, Eq, Structural)]
pub enum OutputStream {
    Stdout,
    Stderr,
}

/// The keys the dashboard reacts to.  The event source maps the terminal's
/// key events onto this closed set; anything else arrives as `Other`.
#[derive(Debug, Clone, Copy, PartialEq, Eq, Structural)]
pub enum KeyCode {
    Char(char),
    Enter,
    Esc,
    Backspace,
    Tab,
    Left,
    Right,
    Up,
    Down,
    Other,
}

/// One key press: the key, and whether the control modifier was held.
#[derive(Debug, Clone, Copy, PartialEq, Eq, Structural)]
pub struct KeyPress {
    pub code: KeyCode,
    pub ctrl: bool,
}

/// The loaded configuration together with, for each project in it, whether
/// its folder is present on disk.  The presence flags are gathered by the
/// persistence collaborator so that the reducer itself touches no filesystem.
#[derive(Debug, Clone)]
pub struct ConfigSnapshot {
    pub config: AppConfig,
    pub present: Vec<bool>,
}

/// An inbound event consumed by the reducer.
#[derive(Debug)]
pub enum Action {
    /// Bootstrap: enqueued once before the first dispatch.
    Init,
    /// Periodic timer tick.
    Tick,
    /// A key press from the input source.
    Key(KeyPress),
    /// Resolution of `Effect::LoadConfig`.
    ConfigLoaded(Result<ConfigSnapshot, String>),
    /// Resolution of `Effect::SaveConfig`.
    ConfigSaved(Result<(), String>),
    /// Resolution of `Effect::ScanProjectsFolder`: the project folders found.
    FolderScanned(Result<Vec<String>, String>),
    /// Resolution of `Effect::LoadAvailablePackages`.
    AvailablePackagesLoaded(Result<Vec<AvailablePackage>, String>),
    /// Resolution of `Effect::ReadManifest`.
    ManifestLoaded(Result<ManifestSummary, String>),
    /// One line of subprocess output, tagged with the task and the stream.
    TaskOutput { task_id: u64, stream: OutputStream, line: String },
    /// Termination of a task.  `pending_path_exists` reports whether the
    /// folder of the task's pending project (if any) is present on disk; the
    /// dispatch loop fills it in so that the reducer performs no I/O.
    TaskDone {
        task_id: u64,
        success: bool,
        cancelled: bool,
        exit_code: Option<i32>,
        error: Option<String>,
        pending_path_exists: bool,
    },
}

} // verus!
