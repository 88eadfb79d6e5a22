//! Decision logic of the task supervisor.
//!
//! The executor that spawns external processes and streams their output
//! lives outside this crate; the decisions it has to make — how a child's
//! termination or a failure to launch is reported, and what happens when a
//! cancellation targets a task with no live handle — are pure functions of
//! plain values and are verified here.

use vstd::prelude::*;

use crate::action::{Action, OutputStream};
use crate::textutil::{concat3, dec_str, fmt_u64};

verus! {

/// The supervisor's client for running the external package tool.
#[derive(Debug, Clone, Default)]
pub struct VpmClient;

impl VpmClient {
    /// The completion action reported once a child process is gone.
    ///
    /// A cancelled task is always reported `cancelled = true, success =
    /// false`, whatever the process's own exit status; otherwise success is
    /// exactly "the process exited with status code zero".  A failure while
    /// waiting carries the error text instead of an exit code.  The
    /// `pending_path_exists` flag is left `false`: the dispatch loop fills
    /// it in before reducing.
    pub fn completion_action(&self, task_id: u64, cancelled: bool, wait: Result<
        Option<i32>,
        String,
    >) -> (r: Action)
        ensures
            r matches Action::TaskDone {
                task_id: t,
                success,
                cancelled: c,
                exit_code,
                error,
                pending_path_exists,
            } && t == task_id && c == cancelled && pending_path_exists == false && success == (
            !cancelled && (wait matches Ok(code) && code == Some(0i32))) && (match wait {
                Ok(code) => exit_code == code && error is None,
                Err(e) => exit_code is None && error == Some(e),
            }),
    {
        match wait {
            Ok(code) => {
                let success = !cancelled && match code {
                    Some(c) => c == 0,
                    None => false,
                };
                Action::TaskDone {
                    task_id,
                    success,
                    cancelled,
                    exit_code: code,
                    error: None,
                    pending_path_exists: false,
                }
            },
            Err(err) => Action::TaskDone {
                task_id,
                success: false,
                cancelled,
                exit_code: None,
                error: Some(err),
                pending_path_exists: false,
            },
        }
    }

    /// The completion action reported when the program could not even be
    /// launched: an immediately-failed completion carrying the error text,
    /// never a crash of the executor.
    pub fn launch_failure_action(&self, task_id: u64, error: String) -> (r: Action)
        ensures
            r == (Action::TaskDone {
                task_id,
                success: false,
                cancelled: false,
                exit_code: None,
                error: Some(error),
                pending_path_exists: false,
            }),
    {
        Action::TaskDone {
            task_id,
            success: false,
            cancelled: false,
            exit_code: None,
            error: Some(error),
            pending_path_exists: false,
        }
    }
}

/// What the executor does with a cancellation request: when a live handle
/// exists it is signalled and nothing is reported (`None`); when none exists
/// — the task already finished, or the id is unknown — a diagnostic action
/// is reported instead of failing silently, and no state is touched.
pub fn cancel_outcome(task_id: u64, handle_present: bool) -> (r: Option<Action>)
    ensures
        handle_present ==> r is None,
        !handle_present ==> (r matches Some(a) && a matches Action::TaskOutput {
            task_id: t,
            stream,
            line,
        } && t == task_id && stream == OutputStream::Stderr && line@ == "task #"@ + dec_str(
            task_id as int,
        ) + " is not running"@),
{
    if handle_present {
        None
    } else {
        let idstr = fmt_u64(task_id);
        let line = concat3("task #", idstr.as_str(), " is not running");
        Some(Action::TaskOutput { task_id, stream: OutputStream::Stderr, line })
    }
}

} // verus!
