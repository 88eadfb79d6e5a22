//! The pure state-transition function of the dispatch engine.
//!
//! [`reduce`] consumes one [`Action`], mutates the [`AppState`] in place, and
//! returns the ordered list of [`Effect`]s to perform as a consequence.  It is
//! total over the action vocabulary, performs no I/O, and is the only place
//! the state is mutated.  Each arm's exact transition is written down as a
//! spec function (`..._post`), and `reduce` ensures the one matching the
//! consumed action, together with the structural invariant and the task-id
//! allocation guarantees.

use vstd::prelude::*;

use crate::action::{Action, ConfigSnapshot, OutputStream};
use crate::effect::Effect;
use crate::state::{
    clamped_index, filtered_available_model, log_push_model, manifest_len, sat_inc_u64, sel_ok,
    AppConfig, AppState, LogEntry, LogEntryV, ProjectMeta, ProjectMetaV, SystemChecks, TaskRecord,
    TaskRecordV, TaskState, MAX_LOG_LINES,
};
use crate::textutil::{
    concat2, concat3, dec_str, dec_str_signed, fmt_u64, is_prefix, str_eq, str_starts_with,
};

verus! {

/// The tag under which a stream's lines appear in the log.
pub open spec fn stream_tag(s: OutputStream) -> Seq<char> {
    match s {
        OutputStream::Stdout => "out"@,
        OutputStream::Stderr => "err"@,
    }
}

/// The log line for one line of subprocess output.
#[verifier::opaque]
pub open spec fn output_log_text(id: u64, stream: OutputStream, line: Seq<char>) -> Seq<char> {
    "["@ + dec_str(id as int) + ":"@ + stream_tag(stream) + "] "@ + line
}

/// The log line recorded when a task is admitted.
#[verifier::opaque]
pub open spec fn start_log_text(id: u64, label: Seq<char>) -> Seq<char> {
    "[task:"@ + dec_str(id as int) + "] start "@ + label
}

/// The status/log message recorded when a task completes.
#[verifier::opaque]
pub open spec fn done_message(id: u64, success: bool, cancelled: bool) -> Seq<char> {
    if cancelled {
        "Task "@ + dec_str(id as int) + " cancelled"@
    } else if success {
        "Task "@ + dec_str(id as int) + " done"@
    } else {
        "Task "@ + dec_str(id as int) + " failed"@
    }
}

/// Some task record carries the given id.
pub open spec fn has_task(tasks: Seq<TaskRecord>, id: u64) -> bool {
    exists|i: int| 0 <= i < tasks.len() && #[trigger] tasks[i].id == id
}

/// The index of the task record carrying the given id (unique under the
/// state invariant).
pub open spec fn task_index(tasks: Seq<TaskRecord>, id: u64) -> int {
    choose|i: int| 0 <= i < tasks.len() && #[trigger] tasks[i].id == id
}

/// No two task records share an id.
pub open spec fn tasks_ids_unique(tasks: Seq<TaskRecord>) -> bool {
    forall|i: int, j: int| 0 <= i < j < tasks.len() ==> tasks[i].id != tasks[j].id
}

/// The task with the given id exists and carries the given label.
pub open spec fn spec_task_is_label(s: AppState, id: u64, label: Seq<char>) -> bool {
    has_task(s.tasks@, id) && s.tasks@[task_index(s.tasks@, id)].label@ == label
}

/// Some project carries the given path.
pub open spec fn has_path(projects: Seq<ProjectMetaV>, path: Seq<char>) -> bool {
    exists|i: int| 0 <= i < projects.len() && #[trigger] projects[i].path == path
}

/// Task admission: one new `Running` record under the next fresh id, a
/// `Running <label>` status, a start log line, and a `RunCommand` effect —
/// all atomic from the caller's point of view.
pub open spec fn task_admitted(
    o: AppState,
    n: AppState,
    label: Seq<char>,
    program: Seq<char>,
    args: Seq<Seq<char>>,
    refresh: Option<Seq<char>>,
    pending: Option<ProjectMetaV>,
    e: Effect,
) -> bool {
    &&& n == (AppState {
        tasks: n.tasks,
        next_task_id: n.next_task_id,
        status_line: n.status_line,
        logs: n.logs,
        ..o
    })
    &&& n.next_task_id == sat_inc_u64(o.next_task_id)
    &&& n.tasks@.len() == o.tasks@.len() + 1
    &&& n.tasks@.subrange(0, o.tasks@.len() as int) == o.tasks@
    &&& n.tasks@.last().deep_view() == (TaskRecordV {
        id: o.next_task_id,
        label,
        state: TaskState::Running,
        exit_code: None,
        error: None,
        refresh_manifest_path: refresh,
        pending_add_project: pending,
    })
    &&& n.status_line@ == "Running "@ + label
    &&& n.logs.deep_view() == log_push_model(
        o.logs.deep_view(),
        Some(o.next_task_id),
        start_log_text(o.next_task_id, label),
    )
    &&& n.logs@.len() <= MAX_LOG_LINES
    &&& e matches Effect::RunCommand { task_id, label: l, program: p, args: a } && task_id
        == o.next_task_id && l@ == label && p@ == program && a.deep_view() == args
}

/// The predicate on indices for the presence flags of a loaded
/// configuration.
pub open spec fn present_pred(present: Seq<bool>) -> spec_fn(int) -> bool {
    |i: int| 0 <= i < present.len() && present[i]
}

/// Picking elements of a sequence by index.
pub open spec fn pick_fn(projects: Seq<ProjectMetaV>) -> spec_fn(int) -> ProjectMetaV {
    |i: int| projects[i]
}

/// Projects kept from a loaded configuration: those whose folder the
/// collaborator found present.
pub open spec fn present_filter(projects: Seq<ProjectMetaV>, present: Seq<bool>) -> Seq<
    ProjectMetaV,
> {
    Seq::new(projects.len(), |i: int| i).filter(present_pred(present)).map_values(
        pick_fn(projects),
    )
}

/// The project record created for a scanned or typed-in path.
pub open spec fn scanned_project(path: Seq<char>) -> ProjectMetaV {
    ProjectMetaV {
        path,
        display_name: crate::files::file_name_model(path),
        tags: Seq::empty(),
        last_opened: None,
    }
}

/// Folding a list of scanned paths into the project list: paths already
/// tracked are skipped, the rest are appended in order.
pub open spec fn scan_merge(projects: Seq<ProjectMetaV>, paths: Seq<Seq<char>>) -> Seq<ProjectMetaV>
    decreases paths.len(),
{
    if paths.len() == 0 {
        projects
    } else {
        let next = if has_path(projects, paths[0]) {
            projects
        } else {
            projects.push(scanned_project(paths[0]))
        };
        scan_merge(next, paths.drop_first())
    }
}

/// The terminal state for a completion with the given flags.
pub open spec fn completion_state(success: bool, cancelled: bool) -> TaskState {
    if cancelled {
        TaskState::Cancelled
    } else if success {
        TaskState::Success
    } else {
        TaskState::Failed
    }
}

/// The text shown for a task's lifecycle state.
#[verifier::opaque]
pub open spec fn spec_task_state_text(t: TaskRecordV) -> Seq<char> {
    match t.state {
        TaskState::Running => "running"@,
        TaskState::Success => "ok"@,
        TaskState::Cancelled => "cancelled"@,
        TaskState::Failed => match t.error {
            Some(e) => "failed: "@ + e,
            None => "failed (exit="@ + dec_str_signed(
                match t.exit_code {
                    Some(c) => c as int,
                    None => -1,
                },
            ) + ")"@,
        },
    }
}

/// Membership predicate for log entries of one task.
pub open spec fn log_is_for(id: u64) -> spec_fn(LogEntryV) -> bool {
    |e: LogEntryV| e.task_id == Some(id)
}

/// The text of a log entry.
pub open spec fn log_text_fn() -> spec_fn(LogEntryV) -> Seq<char> {
    |e: LogEntryV| e.text
}

/// The texts of all log entries recorded for one task, in order.
pub open spec fn task_output_lines(logs: Seq<LogEntryV>, id: u64) -> Seq<Seq<char>> {
    logs.filter(log_is_for(id)).map_values(log_text_fn())
}

/// A transition that only records a log line and a status message.
pub open spec fn simple_log_status_post(
    o: AppState,
    n: AppState,
    effects: Seq<Effect>,
    log_text: Seq<char>,
    status: Seq<char>,
) -> bool {
    &&& effects.len() == 0
    &&& n == (AppState { status_line: n.status_line, logs: n.logs, ..o })
    &&& n.logs.deep_view() == log_push_model(o.logs.deep_view(), None, log_text)
    &&& n.status_line@ == status
}

/// The bootstrap transition: request the startup loads and admit the two
/// environment version checks.
pub open spec fn init_post(o: AppState, n: AppState, effects: Seq<Effect>) -> bool {
    &&& effects.len() == 4
    &&& effects[0] is LoadConfig
    &&& effects[1] is LoadAvailablePackages
    &&& exists|mid: AppState|
        #[trigger] task_admitted(
            o,
            mid,
            "vpm --version"@,
            "vpm"@,
            seq!["--version"@],
            None,
            None,
            effects[2],
        ) && task_admitted(
            mid,
            n,
            "dotnet --version"@,
            "dotnet"@,
            seq!["--version"@],
            None,
            None,
            effects[3],
        )
}

/// The timer transition: count the tick, nothing else.
pub open spec fn tick_post(o: AppState, n: AppState, effects: Seq<Effect>) -> bool {
    &&& effects.len() == 0
    &&& n == (AppState { tick_count: sat_inc_u64(o.tick_count), ..o })
}

/// The transition for a successfully loaded configuration: keep the projects
/// whose folders are present, clamp the selection, report, and re-save when
/// anything was dropped; then read the selected project's manifest.
pub open spec fn config_loaded_ok_post(
    o: AppState,
    n: AppState,
    snap: ConfigSnapshot,
    effects: Seq<Effect>,
) -> bool {
    let keptv = present_filter(snap.config.projects.deep_view(), snap.present@);
    let removed = snap.config.projects@.len() - keptv.len();
    &&& n == (AppState {
        projects: n.projects,
        selected_project: n.selected_project,
        status_line: n.status_line,
        logs: n.logs,
        ..o
    })
    &&& n.projects.deep_view() == keptv
    &&& n.selected_project as int == clamped_index(
        o.selected_project as int,
        keptv.len() as int,
    )
    &&& n.status_line@ == "Loaded "@ + dec_str(keptv.len() as int) + " project(s)"@
    &&& (if removed > 0 {
        n.logs.deep_view() == log_push_model(
            o.logs.deep_view(),
            None,
            "[config] removed "@ + dec_str(removed as int)
                + " missing project(s) from local list"@,
        )
    } else {
        n.logs == o.logs
    })
    &&& effects.len() == ((if removed > 0 {
        1int
    } else {
        0int
    }) + (if keptv.len() > 0 {
        1int
    } else {
        0int
    }))
    &&& (removed > 0 ==> (effects[0] matches Effect::SaveConfig(c) && c.deep_view().projects
        == keptv))
    &&& (keptv.len() > 0 ==> (effects.last() matches Effect::ReadManifest { project_path }
        && project_path@ == keptv[n.selected_project as int].path))
}

/// The transition for a completed folder scan: merge the found paths into
/// the project list, clamp the selection, report, and re-save.
pub open spec fn folder_scanned_ok_post(
    o: AppState,
    n: AppState,
    paths: Seq<Seq<char>>,
    effects: Seq<Effect>,
) -> bool {
    let merged = scan_merge(o.projects.deep_view(), paths);
    let added = merged.len() - o.projects@.len();
    &&& n == (AppState {
        projects: n.projects,
        selected_project: n.selected_project,
        status_line: n.status_line,
        ..o
    })
    &&& n.projects.deep_view() == merged
    &&& n.selected_project as int == clamped_index(
        o.selected_project as int,
        merged.len() as int,
    )
    &&& n.status_line@ == "Add folder scan complete: "@ + dec_str(added as int)
        + " project(s) added"@
    &&& effects.len() == 1
    &&& effects[0] matches Effect::SaveConfig(c) && c.deep_view().projects == merged
}

/// The transition for a loaded available-package list.
pub open spec fn packages_loaded_ok_post(
    o: AppState,
    n: AppState,
    packages: Vec<crate::state::AvailablePackage>,
    effects: Seq<Effect>,
) -> bool {
    &&& effects.len() == 0
    &&& n == (AppState {
        available_packages: n.available_packages,
        selected_available_package: n.selected_available_package,
        status_line: n.status_line,
        ..o
    })
    &&& n.available_packages == packages
    &&& n.selected_available_package as int == clamped_index(
        o.selected_available_package as int,
        filtered_available_model(packages.deep_view(), o.available_package_search@).len() as int,
    )
    &&& n.status_line@ == "Loaded "@ + dec_str(packages@.len() as int) + " available package(s)"@
}

/// The transition for a loaded manifest summary.
pub open spec fn manifest_loaded_ok_post(
    o: AppState,
    n: AppState,
    summary: crate::state::ManifestSummary,
    effects: Seq<Effect>,
) -> bool {
    &&& effects.len() == 0
    &&& n == (AppState {
        selected_project_manifest: Some(summary),
        selected_manifest_package: n.selected_manifest_package,
        ..o
    })
    &&& n.selected_manifest_package as int == clamped_index(
        o.selected_manifest_package as int,
        summary.packages@.len() as int,
    )
}

/// The transition for a failed manifest read: clear the manifest view and
/// log the error.
pub open spec fn manifest_loaded_err_post(
    o: AppState,
    n: AppState,
    err: Seq<char>,
    effects: Seq<Effect>,
) -> bool {
    &&& effects.len() == 0
    &&& n == (AppState {
        selected_project_manifest: None,
        selected_manifest_package: 0,
        logs: n.logs,
        ..o
    })
    &&& n.logs.deep_view() == log_push_model(o.logs.deep_view(), None, "[manifest] failed: "@ + err)
}

/// The transition for one line of subprocess output: log it, and capture it
/// as a version-check result when it is the first-stream output of one of
/// the version-check tasks.
pub open spec fn task_output_post(
    o: AppState,
    n: AppState,
    task_id: u64,
    stream: OutputStream,
    line: String,
    effects: Seq<Effect>,
) -> bool {
    &&& effects.len() == 0
    &&& n == (AppState { logs: n.logs, system_checks: n.system_checks, ..o })
    &&& n.logs.deep_view() == log_push_model(
        o.logs.deep_view(),
        Some(task_id),
        output_log_text(task_id, stream, line@),
    )
    &&& (if stream is Stdout && spec_task_is_label(o, task_id, "vpm --version"@) {
        n.system_checks == (SystemChecks { vpm_version: Some(line), ..o.system_checks })
    } else if stream is Stdout && spec_task_is_label(o, task_id, "dotnet --version"@) {
        n.system_checks == (SystemChecks { dotnet_version: Some(line), ..o.system_checks })
    } else {
        n.system_checks == o.system_checks
    })
}

/// The task-resolution transition; see the body for the policies it spells
/// out: the record's terminal state, the version-check captures, repository
/// refreshes, pending-project adoption (only on success and only when the
/// folder was created), manifest refresh, the tool-install recheck, and the
/// completion message.  Completing an id with no record changes nothing but
/// the status line and the log.
pub open spec fn task_done_post(
    o: AppState,
    n: AppState,
    task_id: u64,
    success: bool,
    cancelled: bool,
    exit_code: Option<i32>,
    error: Option<String>,
    pending_path_exists: bool,
    effects: Seq<Effect>,
) -> bool {
    let message = done_message(task_id, success, cancelled);
    if !has_task(o.tasks@, task_id) {
        &&& n == (AppState { status_line: n.status_line, logs: n.logs, ..o })
        &&& n.status_line@ == message
        &&& n.logs.deep_view() == log_push_model(o.logs.deep_view(), Some(task_id), message)
        &&& effects.len() == 0
    } else {
        task_done_found_post(
            o,
            n,
            task_id,
            success,
            cancelled,
            exit_code,
            error,
            pending_path_exists,
            effects,
        )
    }
}

/// The part of the task-resolution transition for an id whose record
/// exists.
#[verifier::opaque]
pub open spec fn task_done_found_post(
    o: AppState,
    n: AppState,
    task_id: u64,
    success: bool,
    cancelled: bool,
    exit_code: Option<i32>,
    error: Option<String>,
    pending_path_exists: bool,
    effects: Seq<Effect>,
) -> bool {
    {
        let message = done_message(task_id, success, cancelled);
        let i = task_index(o.tasks@, task_id);
        let t = o.tasks@[i].deep_view();
        let updated = TaskRecordV {
            exit_code,
            error: error.deep_view(),
            state: completion_state(success, cancelled),
            ..t
        };
        let is_vpm_fail = t.label == "vpm --version"@ && !success;
        let is_dotnet_fail = t.label == "dotnet --version"@ && !success;
        let is_hub = t.label == "vpm check hub"@;
        let is_unity = t.label == "vpm check unity"@;
        let is_list_unity = t.label == "vpm list unity"@;
        let is_add_repo = is_prefix("vpm add repo "@, t.label);
        let recheck = (t.label == "dotnet tool install vpm"@ || t.label
            == "dotnet tool update vpm"@) && success;
        let adopt = success && t.pending_add_project is Some && pending_path_exists && !has_path(
            o.projects.deep_view(),
            t.pending_add_project->0.path,
        );
        let warn = success && t.pending_add_project is Some && !pending_path_exists;
        let k0 = if is_add_repo {
            1int
        } else {
            0int
        };
        let k1 = if adopt {
            1int
        } else {
            0int
        };
        let k2 = if t.refresh_manifest_path is Some {
            1int
        } else {
            0int
        };
        let k3 = if recheck {
            1int
        } else {
            0int
        };
        let logs1 = if warn {
            log_push_model(
                o.logs.deep_view(),
                Some(task_id),
                "Project path was not created: "@ + t.pending_add_project->0.path,
            )
        } else {
            o.logs.deep_view()
        };
        let logs2 = if recheck {
            log_push_model(
                logs1,
                Some(o.next_task_id),
                start_log_text(o.next_task_id, "vpm --version"@),
            )
        } else {
            logs1
        };
        &&& n == (AppState {
            tasks: n.tasks,
            next_task_id: n.next_task_id,
            projects: n.projects,
            selected_project: n.selected_project,
            system_checks: n.system_checks,
            status_line: n.status_line,
            logs: n.logs,
            ..o
        })
        &&& n.tasks.deep_view() == (if recheck {
            o.tasks.deep_view().update(i, updated).push(
                TaskRecordV {
                    id: o.next_task_id,
                    label: "vpm --version"@,
                    state: TaskState::Running,
                    exit_code: None,
                    error: None,
                    refresh_manifest_path: None,
                    pending_add_project: None,
                },
            )
        } else {
            o.tasks.deep_view().update(i, updated)
        })
        &&& n.next_task_id == (if recheck {
            sat_inc_u64(o.next_task_id)
        } else {
            o.next_task_id
        })
        &&& n.projects.deep_view() == (if adopt {
            o.projects.deep_view().push(t.pending_add_project->0)
        } else {
            o.projects.deep_view()
        })
        &&& n.selected_project == (if adopt {
            o.projects@.len() as usize
        } else {
            o.selected_project
        })
        &&& (if is_vpm_fail {
            n.system_checks.vpm_version matches Some(v) && v@ == "not installed"@
        } else {
            n.system_checks.vpm_version == o.system_checks.vpm_version
        })
        &&& (if is_dotnet_fail {
            n.system_checks.dotnet_version matches Some(v) && v@ == "not installed"@
        } else {
            n.system_checks.dotnet_version == o.system_checks.dotnet_version
        })
        &&& (if is_hub {
            n.system_checks.hub_check matches Some(v) && v@ == spec_task_state_text(updated)
        } else {
            n.system_checks.hub_check == o.system_checks.hub_check
        })
        &&& (if is_unity {
            n.system_checks.unity_check matches Some(v) && v@ == spec_task_state_text(updated)
        } else {
            n.system_checks.unity_check == o.system_checks.unity_check
        })
        &&& (if is_list_unity {
            n.system_checks.unity_list.deep_view() == task_output_lines(
                o.logs.deep_view(),
                task_id,
            )
        } else {
            n.system_checks.unity_list == o.system_checks.unity_list
        })
        &&& n.status_line@ == message
        &&& n.logs.deep_view() == log_push_model(logs2, Some(task_id), message)
        &&& effects.len() == k0 + k1 + k2 + k3
        &&& (is_add_repo ==> effects[0] is LoadAvailablePackages)
        &&& (adopt ==> (effects[k0] matches Effect::SaveConfig(c) && c.deep_view().projects
            == n.projects.deep_view()))
        &&& (t.refresh_manifest_path is Some ==> (effects[k0 + k1] matches Effect::ReadManifest {
            project_path,
        } && project_path@ == t.refresh_manifest_path->0))
        &&& (recheck ==> (effects[k0 + k1 + k2] matches Effect::RunCommand {
            task_id: tid,
            label: l,
            program: p,
            args: a,
        } && tid == o.next_task_id && l@ == "vpm --version"@ && p@ == "vpm"@ && a.deep_view()
            == seq!["--version"@]))
    }
}

/// What every reduction step guarantees, whatever the action: the structural
/// invariant is preserved (as long as the id counter is not about to
/// saturate), the filtered-selection invariant is preserved, the id counter
/// never decreases, records are never deleted, existing records keep their
/// ids, and new records get ids at or above the old counter — so an id is
/// never reused.
pub open spec fn engine_guarantees(o: AppState, n: AppState) -> bool {
    &&& o.inv() && o.next_task_id + 1 < u64::MAX ==> n.inv()
    &&& o.inv() && o.avail_sel_inv() ==> n.avail_sel_inv()
    &&& n.next_task_id >= o.next_task_id
    &&& n.tasks@.len() >= o.tasks@.len()
    &&& forall|i: int| 0 <= i < o.tasks@.len() ==> (#[trigger] n.tasks@[i]).id == o.tasks@[i].id
    &&& forall|i: int|
        o.tasks@.len() <= i < n.tasks@.len() ==> (#[trigger] n.tasks@[i]).id >= o.next_task_id
}

/// Saturating increment on a `u64` counter.
fn saturating_inc_u64(n: u64) -> (r: u64)
    ensures
        r == sat_inc_u64(n),
{
    if n == u64::MAX {
        n
    } else {
        n + 1
    }
}

/// Clone a project list, keeping the model.
pub(crate) fn clone_projects_list(v: &Vec<ProjectMeta>) -> (r: Vec<ProjectMeta>)
    ensures
        r.deep_view() == v.deep_view(),
{
    let mut r: Vec<ProjectMeta> = Vec::new();
    let mut i: usize = 0;
    while i < v.len()
        invariant
            i <= v@.len(),
            r@.len() == i,
            forall|j: int| 0 <= j < i ==> (#[trigger] r@[j]).deep_view() == v@[j].deep_view(),
        decreases v@.len() - i,
    {
        r.push(v[i].clone());
        i += 1;
    }
    proof {
        assert(r.deep_view() =~= v.deep_view());
    }
    r
}

/// The first (and, under the invariant, only) index of the task with the
/// given id.
fn find_task_index(tasks: &Vec<TaskRecord>, id: u64) -> (r: Option<usize>)
    requires
        tasks_ids_unique(tasks@),
    ensures
        (r is Some) == has_task(tasks@, id),
        r matches Some(i) ==> i < tasks@.len() && tasks@[i as int].id == id && task_index(
            tasks@,
            id,
        ) == i as int,
{
    let mut i: usize = 0;
    while i < tasks.len()
        invariant
            i <= tasks@.len(),
            tasks_ids_unique(tasks@),
            forall|j: int| 0 <= j < i ==> (#[trigger] tasks@[j]).id != id,
        decreases tasks@.len() - i,
    {
        if tasks[i].id == id {
            proof {
                assert(has_task(tasks@, id));
                let w = task_index(tasks@, id);
                assert(tasks@[w].id == id);
                assert(w == i as int);
            }
            return Some(i);
        }
        i += 1;
    }
    proof {
        assert(!has_task(tasks@, id));
    }
    None
}

/// Whether the task with the given id exists and carries the given label.
fn task_is_label(state: &AppState, task_id: u64, label: &str) -> (r: bool)
    requires
        tasks_ids_unique(state.tasks@),
    ensures
        r == spec_task_is_label(*state, task_id, label@),
{
    match find_task_index(&state.tasks, task_id) {
        Some(i) => str_eq(state.tasks[i].label.as_str(), label),
        None => false,
    }
}

/// Whether some tracked project carries the given path.
pub(crate) fn has_project_path_exec(projects: &Vec<ProjectMeta>, path: &str) -> (r: bool)
    ensures
        r == has_path(projects.deep_view(), path@),
{
    let mut i: usize = 0;
    while i < projects.len()
        invariant
            i <= projects@.len(),
            forall|j: int| 0 <= j < i ==> (#[trigger] projects.deep_view()[j]).path != path@,
        decreases projects@.len() - i,
    {
        if str_eq(projects[i].path.as_str(), path) {
            proof {
                assert(projects.deep_view()[i as int].path == path@);
            }
            return true;
        }
        i += 1;
    }
    false
}

/// Admit a new task: allocate the next id, append a `Running` record, set
/// the status, log the start line, and return the `RunCommand` effect.
fn enqueue_command_task(
    state: &mut AppState,
    label: String,
    program: &str,
    args: Vec<String>,
    refresh_manifest_path: Option<String>,
    pending_add_project: Option<ProjectMeta>,
) -> (e: Effect)
    ensures
        task_admitted(
            *old(state),
            *final(state),
            label@,
            program@,
            args.deep_view(),
            refresh_manifest_path.deep_view(),
            pending_add_project.deep_view(),
            e,
        ),
{
    proof {
        reveal(start_log_text);
    }
    let task_id = state.next_task_id;
    state.next_task_id = saturating_inc_u64(state.next_task_id);
    let record_label = label.clone();
    state.tasks.push(
        TaskRecord {
            id: task_id,
            label: record_label,
            state: TaskState::Running,
            exit_code: None,
            error: None,
            refresh_manifest_path,
            pending_add_project,
        },
    );
    state.status_line = concat2("Running ", label.as_str());
    let idstr = fmt_u64(task_id);
    let line = crate::textutil::concat4("[task:", idstr.as_str(), "] start ", label.as_str());
    state.push_log(Some(task_id), line);
    proof {
        assert(state.tasks@.subrange(0, old(state).tasks@.len() as int) =~= old(state).tasks@);
        assert(state.tasks@.last().deep_view() =~= (TaskRecordV {
            id: old(state).next_task_id,
            label: label@,
            state: TaskState::Running,
            exit_code: None,
            error: None,
            refresh_manifest_path: refresh_manifest_path.deep_view(),
            pending_add_project: pending_add_project.deep_view(),
        }));
    }
    Effect::RunCommand { task_id, label, program: program.to_owned(), args }
}

/// Admit a task that runs the wrapped package tool.
pub(crate) fn enqueue_project_task(
    state: &mut AppState,
    label: String,
    args: Vec<String>,
    refresh_manifest_path: Option<String>,
    pending_add_project: Option<ProjectMeta>,
) -> (e: Effect)
    ensures
        task_admitted(
            *old(state),
            *final(state),
            label@,
            "vpm"@,
            args.deep_view(),
            refresh_manifest_path.deep_view(),
            pending_add_project.deep_view(),
            e,
        ),
{
    enqueue_command_task(state, label, "vpm", args, refresh_manifest_path, pending_add_project)
}

/// Admit a package-tool task with no follow-ups.
pub(crate) fn enqueue_system_task(state: &mut AppState, label: &str, args: Vec<String>) -> (e: Effect)
    ensures
        task_admitted(
            *old(state),
            *final(state),
            label@,
            "vpm"@,
            args.deep_view(),
            None,
            None,
            e,
        ),
{
    enqueue_project_task(state, label.to_owned(), args, None, None)
}

/// Admit a task that runs the dotnet tool with no follow-ups.
pub(crate) fn enqueue_dotnet_task(state: &mut AppState, label: &str, args: Vec<String>) -> (e: Effect)
    ensures
        task_admitted(
            *old(state),
            *final(state),
            label@,
            "dotnet"@,
            args.deep_view(),
            None,
            None,
            e,
        ),
{
    enqueue_command_task(state, label.to_owned(), "dotnet", args, None, None)
}

/// Extending the kept prefix of a loaded configuration by one project.
proof fn lemma_present_filter_step(projects: Seq<ProjectMetaV>, present: Seq<bool>, i: int)
    requires
        0 <= i < projects.len(),
    ensures
        present_filter(projects.subrange(0, i + 1), present) == (if 0 <= i < present.len()
            && present[i] {
            present_filter(projects.subrange(0, i), present).push(projects[i])
        } else {
            present_filter(projects.subrange(0, i), present)
        }),
{
    let sub1 = projects.subrange(0, i + 1);
    let sub0 = projects.subrange(0, i);
    let idx1 = Seq::new(sub1.len(), |k: int| k);
    let idx0 = Seq::new(sub0.len(), |k: int| k);
    let pred = present_pred(present);
    assert(idx1 =~= idx0.push(i));
    idx0.lemma_filter_push(i, pred);
    assert forall|j: int|
        0 <= j < idx0.filter(pred).len() implies 0 <= #[trigger] idx0.filter(pred)[j] < i by {
        let v = idx0.filter(pred)[j];
        assert(idx0.filter(pred).contains(v));
        idx0.lemma_filter_contains_rev(pred, v);
        let k = choose|k: int| 0 <= k < idx0.len() && idx0[k] == v;
        assert(idx0[k] == k);
    }
    if pred(i) {
        assert(idx1.filter(pred) == idx0.filter(pred).push(i));
        assert(idx1.filter(pred).map_values(pick_fn(sub1)) =~= idx0.filter(pred).map_values(
            pick_fn(sub0),
        ).push(projects[i]));
    } else {
        assert(idx1.filter(pred) == idx0.filter(pred));
        assert(idx1.filter(pred).map_values(pick_fn(sub1)) =~= idx0.filter(pred).map_values(
            pick_fn(sub0),
        ));
    }
}

/// Extending a folder scan by one found path.
proof fn lemma_scan_merge_push(projects: Seq<ProjectMetaV>, paths: Seq<Seq<char>>, p: Seq<char>)
    ensures
        scan_merge(projects, paths.push(p)) == (if has_path(scan_merge(projects, paths), p) {
            scan_merge(projects, paths)
        } else {
            scan_merge(projects, paths).push(scanned_project(p))
        }),
    decreases paths.len(),
{
    if paths.len() == 0 {
        let pp = paths.push(p);
        assert(pp[0] == p);
        assert(pp.drop_first() =~= Seq::<Seq<char>>::empty());
        let next0 = if has_path(projects, p) {
            projects
        } else {
            projects.push(scanned_project(p))
        };
        assert(scan_merge(next0, pp.drop_first()) == next0);
        assert(scan_merge(projects, paths) == projects);
    } else {
        let next = if has_path(projects, paths[0]) {
            projects
        } else {
            projects.push(scanned_project(paths[0]))
        };
        assert(paths.push(p)[0] == paths[0]);
        assert(paths.push(p).drop_first() =~= paths.drop_first().push(p));
        lemma_scan_merge_push(next, paths.drop_first(), p);
    }
}

/// Task admission preserves the invariant (below id saturation) and never
/// reuses an id.
pub(crate) proof fn lemma_admission_preserves(
    o: AppState,
    n: AppState,
    label: Seq<char>,
    program: Seq<char>,
    args: Seq<Seq<char>>,
    refresh: Option<Seq<char>>,
    pending: Option<ProjectMetaV>,
    e: Effect,
)
    requires
        task_admitted(o, n, label, program, args, refresh, pending, e),
    ensures
        forall|i: int| 0 <= i < o.tasks@.len() ==> (#[trigger] n.tasks@[i]) == o.tasks@[i],
        n.tasks@.last().id == o.next_task_id,
        n.next_task_id >= o.next_task_id,
        n.tasks.deep_view() == o.tasks.deep_view().push(n.tasks@.last().deep_view()),
        o.inv() && o.next_task_id < u64::MAX ==> n.inv(),
        o.inv() && o.avail_sel_inv() ==> n.avail_sel_inv(),
{
    assert forall|i: int| 0 <= i < o.tasks@.len() implies (#[trigger] n.tasks@[i])
        == o.tasks@[i] by {
        assert(n.tasks@.subrange(0, o.tasks@.len() as int)[i] == n.tasks@[i]);
    }
    assert(n.tasks.deep_view() =~= o.tasks.deep_view().push(n.tasks@.last().deep_view()));
    assert(n.tasks@.last().deep_view().id == o.next_task_id);
    assert(n.tasks@.last().id == o.next_task_id);
    if o.inv() && o.next_task_id < u64::MAX {
        assert forall|i: int, j: int|
            0 <= i < j < n.tasks@.len() implies n.tasks@[i].id < n.tasks@[j].id by {
            if j < o.tasks@.len() {
                assert(o.tasks@[i].id < o.tasks@[j].id);
            } else {
                assert(n.tasks@[j].id == o.next_task_id);
                assert(o.tasks@[i].id < o.next_task_id);
            }
        }
        assert(manifest_len(n) == manifest_len(o));
        assert(n.inv());
    }
    if o.inv() && o.avail_sel_inv() {
        assert(n.available_packages == o.available_packages);
        assert(n.available_packages.deep_view() == o.available_packages.deep_view());
        assert(n.avail_sel_inv());
    }
}

/// A state whose task list kept its ids, whose counter is unchanged, and
/// whose selections and log are in range satisfies the invariant again.
pub(crate) proof fn lemma_inv_from_parts(o: AppState, m: AppState)
    requires
        o.inv(),
        m.tasks@.len() == o.tasks@.len(),
        forall|j: int| 0 <= j < o.tasks@.len() ==> (#[trigger] m.tasks@[j]).id == o.tasks@[j].id,
        m.next_task_id == o.next_task_id,
        m.logs@.len() <= MAX_LOG_LINES,
        sel_ok(m.selected_project as int, m.projects@.len() as int),
        sel_ok(m.selected_manifest_package as int, manifest_len(m)),
        sel_ok(m.selected_available_package as int, m.available_packages@.len() as int),
        m.new_project_template_idx < 3,
    ensures
        m.inv(),
{
}

/// Changing only the status line and the log (kept within its capacity)
/// preserves the invariant.
proof fn lemma_inv_log_frame(a: AppState, b: AppState)
    requires
        a.inv(),
        b == (AppState { status_line: b.status_line, logs: b.logs, ..a }),
        b.logs@.len() <= MAX_LOG_LINES,
    ensures
        b.inv(),
{
    assert(manifest_len(b) == manifest_len(a));
}

/// A state with the same available packages, search and selection keeps the
/// filtered-selection invariant.
pub(crate) proof fn lemma_avail_frame(a: AppState, b: AppState)
    requires
        a.avail_sel_inv(),
        b.available_packages == a.available_packages,
        b.available_package_search == a.available_package_search,
        b.selected_available_package == a.selected_available_package,
    ensures
        b.avail_sel_inv(),
{
}

/// A state that keeps every field the invariant speaks of keeps the
/// invariant.
pub(crate) proof fn lemma_inv_unchanged(o: AppState, n: AppState)
    requires
        o.inv(),
        n.logs == o.logs,
        n.tasks == o.tasks,
        n.next_task_id == o.next_task_id,
        n.projects == o.projects,
        n.selected_project == o.selected_project,
        n.selected_project_manifest == o.selected_project_manifest,
        n.selected_manifest_package == o.selected_manifest_package,
        n.available_packages == o.available_packages,
        n.selected_available_package == o.selected_available_package,
        n.new_project_template_idx == o.new_project_template_idx,
    ensures
        n.inv(),
{
    assert(manifest_len(n) == manifest_len(o));
}

/// The bootstrap arm: request the startup loads and admit the two
/// environment version checks.
pub fn on_init(state: &mut AppState) -> (effects: Vec<Effect>)
    requires
        old(state).inv(),
    ensures
        engine_guarantees(*old(state), *final(state)),
        init_post(*old(state), *final(state), effects@),
{
    let mut effects: Vec<Effect> = Vec::new();
    effects.push(Effect::LoadConfig);
    effects.push(Effect::LoadAvailablePackages);
    let args2 = vec!["--version".to_owned()];
    proof {
        assert(args2.deep_view() =~= seq!["--version"@]);
    }
    let e2 = enqueue_system_task(state, "vpm --version", args2);
    effects.push(e2);
    let ghost mid = *state;
    let args3 = vec!["--version".to_owned()];
    proof {
        assert(args3.deep_view() =~= seq!["--version"@]);
    }
    let e3 = enqueue_dotnet_task(state, "dotnet --version", args3);
    effects.push(e3);
    proof {
        assert(task_admitted(
            *old(state),
            mid,
            "vpm --version"@,
            "vpm"@,
            seq!["--version"@],
            None,
            None,
            effects@[2],
        ));
        assert(task_admitted(
            mid,
            *state,
            "dotnet --version"@,
            "dotnet"@,
            seq!["--version"@],
            None,
            None,
            effects@[3],
        ));
        lemma_admission_preserves(
            *old(state),
            mid,
            "vpm --version"@,
            "vpm"@,
            seq!["--version"@],
            None,
            None,
            effects@[2],
        );
        lemma_admission_preserves(
            mid,
            *state,
            "dotnet --version"@,
            "dotnet"@,
            seq!["--version"@],
            None,
            None,
            effects@[3],
        );
    }
    effects
}

/// The arm for a resolved configuration load.
pub fn on_config_loaded(state: &mut AppState, result: Result<ConfigSnapshot, String>) -> (effects: Vec<
    Effect,
>)
    requires
        old(state).inv(),
    ensures
        engine_guarantees(*old(state), *final(state)),
        match result {
            Ok(snap) => config_loaded_ok_post(*old(state), *final(state), snap, effects@),
            Err(e) => simple_log_status_post(
                *old(state),
                *final(state),
                effects@,
                "[config] load failed: "@ + e@,
                "Config load failed; using defaults"@,
            ),
        },
{
    match result {
        Ok(snap) => {
            let ConfigSnapshot { config, present } = snap;
            let AppConfig { projects: loaded } = config;
            let ghost ldv = loaded.deep_view();
            let orig_len = loaded.len();
            let mut kept: Vec<ProjectMeta> = Vec::new();
            let mut i: usize = 0;
            proof {
                reveal(Seq::filter);
                assert(ldv.subrange(0, 0) =~= Seq::<ProjectMetaV>::empty());
                assert(Seq::new(0, |k: int| k) =~= Seq::<int>::empty());
                assert(present_filter(ldv.subrange(0, 0), present@) =~= Seq::<
                    ProjectMetaV,
                >::empty());
            }
            while i < loaded.len()
                invariant
                    i <= loaded@.len(),
                    ldv == loaded.deep_view(),
                    kept.deep_view() == present_filter(ldv.subrange(0, i as int), present@),
                    kept@.len() <= i,
                decreases loaded@.len() - i,
            {
                proof {
                    lemma_present_filter_step(ldv, present@, i as int);
                }
                if i < present.len() && present[i] {
                    let ghost prev = kept.deep_view();
                    kept.push(loaded[i].clone());
                    proof {
                        assert(kept.deep_view() =~= prev.push(ldv[i as int]));
                    }
                }
                i += 1;
            }
            proof {
                assert(ldv.subrange(0, ldv.len() as int) =~= ldv);
            }
            let kept_len = kept.len();
            state.projects = kept;
            state.selected_project_clamped();
            let removed = orig_len - kept_len;
            let lenstr = fmt_u64(kept_len as u64);
            state.status_line = concat3("Loaded ", lenstr.as_str(), " project(s)");
            let mut effects: Vec<Effect> = Vec::new();
            if removed > 0 {
                let remstr = fmt_u64(removed as u64);
                let msg = concat3(
                    "[config] removed ",
                    remstr.as_str(),
                    " missing project(s) from local list",
                );
                state.push_log(None, msg);
                effects.push(
                    Effect::SaveConfig(AppConfig { projects: clone_projects_list(&state.projects) }),
                );
            }
            let mut manifest_path: Option<String> = None;
            match state.selected_project() {
                Some(p) => { manifest_path = Some(p.path.clone()) },
                None => {},
            }
            match manifest_path {
                Some(path) => { effects.push(Effect::ReadManifest { project_path: path }) },
                None => {},
            }
            effects
        },
        Err(err) => {
            let msg = concat2("[config] load failed: ", err.as_str());
            state.push_log(None, msg);
            state.status_line = "Config load failed; using defaults".to_owned();
            Vec::new()
        },
    }
}

/// The arm for a resolved configuration save.
pub fn on_config_saved(state: &mut AppState, result: Result<(), String>) -> (effects: Vec<Effect>)
    ensures
        engine_guarantees(*old(state), *final(state)),
        match result {
            Ok(u) => effects@.len() == 0 && *final(state) == *old(state),
            Err(e) => simple_log_status_post(
                *old(state),
                *final(state),
                effects@,
                "[config] save failed: "@ + e@,
                "Config save failed"@,
            ),
        },
{
    match result {
        Ok(_) => Vec::new(),
        Err(err) => {
            let msg = concat2("[config] save failed: ", err.as_str());
            state.push_log(None, msg);
            state.status_line = "Config save failed".to_owned();
            Vec::new()
        },
    }
}

/// The arm for a resolved folder scan.
pub fn on_folder_scanned(state: &mut AppState, result: Result<Vec<String>, String>) -> (effects: Vec<
    Effect,
>)
    requires
        old(state).inv(),
    ensures
        engine_guarantees(*old(state), *final(state)),
        match result {
            Ok(paths) => folder_scanned_ok_post(
                *old(state),
                *final(state),
                paths.deep_view(),
                effects@,
            ),
            Err(e) => simple_log_status_post(
                *old(state),
                *final(state),
                effects@,
                "[add] folder scan failed: "@ + e@,
                "Folder scan failed"@,
            ),
        },
{
    match result {
        Ok(paths) => {
            let ghost pv = paths.deep_view();
            let ghost base = old(state).projects.deep_view();
            let base_len = state.projects.len();
            let mut i: usize = 0;
            proof {
                assert(pv.subrange(0, 0) =~= Seq::<Seq<char>>::empty());
            }
            while i < paths.len()
                invariant
                    i <= paths@.len(),
                    pv == paths.deep_view(),
                    base == old(state).projects.deep_view(),
                    state.projects.deep_view() == scan_merge(base, pv.subrange(0, i as int)),
                    base_len == old(state).projects@.len(),
                    state.projects@.len() >= old(state).projects@.len(),
                    *state == (AppState { projects: state.projects, ..*old(state) }),
                decreases paths@.len() - i,
            {
                proof {
                    lemma_scan_merge_push(base, pv.subrange(0, i as int), pv[i as int]);
                    assert(pv.subrange(0, i as int).push(pv[i as int]) =~= pv.subrange(
                        0,
                        i + 1,
                    ));
                }
                if !has_project_path_exec(&state.projects, paths[i].as_str()) {
                    let display_name = crate::files::file_name_of(paths[i].as_str());
                    let ghost prev = state.projects.deep_view();
                    state.projects.push(
                        ProjectMeta {
                            path: paths[i].clone(),
                            display_name,
                            tags: Vec::new(),
                            last_opened: None,
                        },
                    );
                    proof {
                        assert(state.projects.deep_view() =~~= prev.push(
                            scanned_project(pv[i as int]),
                        ));
                    }
                }
                i += 1;
            }
            proof {
                assert(pv.subrange(0, pv.len() as int) =~= pv);
            }
            state.selected_project_clamped();
            let added = state.projects.len() - base_len;
            let addstr = fmt_u64(added as u64);
            state.status_line = concat3(
                "Add folder scan complete: ",
                addstr.as_str(),
                " project(s) added",
            );
            let mut effects: Vec<Effect> = Vec::new();
            effects.push(
                Effect::SaveConfig(AppConfig { projects: clone_projects_list(&state.projects) }),
            );
            effects
        },
        Err(err) => {
            state.status_line = "Folder scan failed".to_owned();
            let msg = concat2("[add] folder scan failed: ", err.as_str());
            state.push_log(None, msg);
            Vec::new()
        },
    }
}

/// The arm for a loaded available-package list.
pub fn on_packages_loaded(
    state: &mut AppState,
    result: Result<Vec<crate::state::AvailablePackage>, String>,
) -> (effects: Vec<Effect>)
    requires
        old(state).inv(),
    ensures
        engine_guarantees(*old(state), *final(state)),
        match result {
            Ok(packages) => packages_loaded_ok_post(*old(state), *final(state), packages, effects@),
            Err(e) => simple_log_status_post(
                *old(state),
                *final(state),
                effects@,
                "[packages] load failed: "@ + e@,
                "Available package load failed"@,
            ),
        },
{
    match result {
        Ok(packages) => {
            let len = packages.len();
            state.available_packages = packages;
            state.selected_available_package_clamped();
            let lenstr = fmt_u64(len as u64);
            state.status_line = concat3("Loaded ", lenstr.as_str(), " available package(s)");
            Vec::new()
        },
        Err(err) => {
            let msg = concat2("[packages] load failed: ", err.as_str());
            state.push_log(None, msg);
            state.status_line = "Available package load failed".to_owned();
            Vec::new()
        },
    }
}

/// The arm for a resolved manifest read.
pub fn on_manifest_loaded(
    state: &mut AppState,
    result: Result<crate::state::ManifestSummary, String>,
) -> (effects: Vec<Effect>)
    requires
        old(state).inv(),
    ensures
        engine_guarantees(*old(state), *final(state)),
        match result {
            Ok(summary) => manifest_loaded_ok_post(*old(state), *final(state), summary, effects@),
            Err(e) => manifest_loaded_err_post(*old(state), *final(state), e@, effects@),
        },
{
    match result {
        Ok(summary) => {
            state.selected_project_manifest = Some(summary);
            state.selected_manifest_package_clamped();
            Vec::new()
        },
        Err(err) => {
            state.selected_project_manifest = None;
            state.selected_manifest_package = 0;
            let msg = concat2("[manifest] failed: ", err.as_str());
            state.push_log(None, msg);
            Vec::new()
        },
    }
}

/// The arm for one line of subprocess output.
#[verifier::rlimit(100)]
pub fn on_task_output(state: &mut AppState, task_id: u64, stream: OutputStream, line: String) -> (effects:
    Vec<Effect>)
    requires
        old(state).inv(),
    ensures
        engine_guarantees(*old(state), *final(state)),
        task_output_post(*old(state), *final(state), task_id, stream, line, effects@),
{
    proof {
        reveal(output_log_text);
    }
    let is_stdout = matches!(stream, OutputStream::Stdout);
    let is_vpm = is_stdout && task_is_label(state, task_id, "vpm --version");
    let is_dotnet = !is_vpm && is_stdout && task_is_label(state, task_id, "dotnet --version");
    let prefix: &str = match stream {
        OutputStream::Stdout => "out",
        OutputStream::Stderr => "err",
    };
    let idstr = fmt_u64(task_id);
    let part = crate::textutil::concat4("[", idstr.as_str(), ":", prefix);
    let text = concat3(part.as_str(), "] ", line.as_str());
    proof {
        assert(text@ == output_log_text(task_id, stream, line@));
    }
    state.push_log(Some(task_id), text);
    if is_vpm {
        state.system_checks.vpm_version = Some(line);
    } else if is_dotnet {
        state.system_checks.dotnet_version = Some(line);
    }
    let effects: Vec<Effect> = Vec::new();
    proof {
        assert(state.logs.deep_view() == log_push_model(
            old(state).logs.deep_view(),
            Some(task_id),
            output_log_text(task_id, stream, line@),
        ));
        assert(*state == (AppState {
            logs: state.logs,
            system_checks: state.system_checks,
            ..*old(state)
        }));
        assert(manifest_len(*state) == manifest_len(*old(state)));
    }
    effects
}


/// Clone an optional string, keeping the model.
fn clone_opt_string(s: &Option<String>) -> (r: Option<String>)
    ensures
        r.deep_view() == s.deep_view(),
{
    match s {
        Some(v) => Some(v.clone()),
        None => None,
    }
}

/// The text shown for a task's lifecycle state.
fn task_state_text(task: &TaskRecord) -> (r: String)
    ensures
        r@ == spec_task_state_text(task.deep_view()),
{
    proof {
        reveal(spec_task_state_text);
    }
    match task.state {
        TaskState::Running => "running".to_owned(),
        TaskState::Success => "ok".to_owned(),
        TaskState::Cancelled => "cancelled".to_owned(),
        TaskState::Failed => match &task.error {
            Some(err) => concat2("failed: ", err.as_str()),
            None => {
                let code: i32 = match task.exit_code {
                    Some(c) => c,
                    None => -1,
                };
                let cs = crate::textutil::fmt_i32(code);
                concat3("failed (exit=", cs.as_str(), ")")
            },
        },
    }
}

/// The completion message for a task.
fn done_message_exec(task_id: u64, success: bool, cancelled: bool) -> (r: String)
    ensures
        r@ == done_message(task_id, success, cancelled),
{
    proof {
        reveal(done_message);
    }
    let idstr = fmt_u64(task_id);
    if cancelled {
        concat3("Task ", idstr.as_str(), " cancelled")
    } else if success {
        concat3("Task ", idstr.as_str(), " done")
    } else {
        concat3("Task ", idstr.as_str(), " failed")
    }
}

/// The texts of all log entries recorded for one task, in order.
fn collect_task_lines(logs: &Vec<LogEntry>, id: u64) -> (r: Vec<String>)
    ensures
        r.deep_view() == task_output_lines(logs.deep_view(), id),
{
    let ghost s = logs.deep_view();
    let mut r: Vec<String> = Vec::new();
    let mut i: usize = 0;
    proof {
        reveal(Seq::filter);
        assert(s.subrange(0, 0) =~= Seq::<LogEntryV>::empty());
        assert(r.deep_view() =~= s.subrange(0, 0).filter(log_is_for(id)).map_values(
            log_text_fn(),
        ));
    }
    while i < logs.len()
        invariant
            i <= logs@.len(),
            s == logs.deep_view(),
            r.deep_view() == s.subrange(0, i as int).filter(log_is_for(id)).map_values(
                log_text_fn(),
            ),
        decreases logs@.len() - i,
    {
        let ghost prefix = s.subrange(0, i as int);
        let keep = match &logs[i].task_id {
            Some(t) => *t == id,
            None => false,
        };
        proof {
            prefix.lemma_filter_push(s[i as int], log_is_for(id));
            assert(prefix.push(s[i as int]) =~= s.subrange(0, i + 1));
        }
        if keep {
            let ghost prev = r.deep_view();
            r.push(logs[i].text.clone());
            proof {
                assert(r.deep_view() =~= prev.push(s[i as int].text));
                assert(prefix.filter(log_is_for(id)).push(s[i as int]).map_values(log_text_fn())
                    =~= prefix.filter(log_is_for(id)).map_values(log_text_fn()).push(
                    s[i as int].text,
                ));
            }
        }
        i += 1;
    }
    proof {
        assert(s.subrange(0, s.len() as int) =~= s);
    }
    r
}

/// Record the completion message of a task in the status line and the log.
fn finish_completion(state: &mut AppState, task_id: u64, success: bool, cancelled: bool)
    ensures
        *final(state) == (AppState {
            status_line: final(state).status_line,
            logs: final(state).logs,
            ..*old(state)
        }),
        final(state).status_line@ == done_message(task_id, success, cancelled),
        final(state).logs.deep_view() == log_push_model(
            old(state).logs.deep_view(),
            Some(task_id),
            done_message(task_id, success, cancelled),
        ),
        final(state).logs@.len() <= MAX_LOG_LINES,
{
    let message = done_message_exec(task_id, success, cancelled);
    state.status_line = message.clone();
    state.push_log(Some(task_id), message);
}

/// What the tail of a task resolution does: the manifest refresh request,
/// the deferred warning line, the tool recheck admission, and the completion
/// message.
#[verifier::opaque]
pub open spec fn task_tail_post(
    o: AppState,
    n: AppState,
    task_id: u64,
    success: bool,
    cancelled: bool,
    refresh: Option<String>,
    deferred: Option<String>,
    recheck: bool,
    effects: Seq<Effect>,
) -> bool {
    let logs1 = match deferred {
        Some(d) => log_push_model(o.logs.deep_view(), Some(task_id), d@),
        None => o.logs.deep_view(),
    };
    let logs2 = if recheck {
        log_push_model(logs1, Some(o.next_task_id), start_log_text(o.next_task_id, "vpm --version"@))
    } else {
        logs1
    };
    &&& n == (AppState {
        tasks: n.tasks,
        next_task_id: n.next_task_id,
        status_line: n.status_line,
        logs: n.logs,
        ..o
    })
    &&& n.tasks.deep_view() == (if recheck {
        o.tasks.deep_view().push(
            TaskRecordV {
                id: o.next_task_id,
                label: "vpm --version"@,
                state: TaskState::Running,
                exit_code: None,
                error: None,
                refresh_manifest_path: None,
                pending_add_project: None,
            },
        )
    } else {
        o.tasks.deep_view()
    })
    &&& n.next_task_id == (if recheck {
        sat_inc_u64(o.next_task_id)
    } else {
        o.next_task_id
    })
    &&& n.status_line@ == done_message(task_id, success, cancelled)
    &&& n.logs.deep_view() == log_push_model(
        logs2,
        Some(task_id),
        done_message(task_id, success, cancelled),
    )
    &&& n.logs@.len() <= MAX_LOG_LINES
    &&& effects.len() == (if refresh is Some {
        1int
    } else {
        0int
    }) + (if recheck {
        1int
    } else {
        0int
    })
    &&& (refresh matches Some(p) ==> (effects[0] matches Effect::ReadManifest { project_path }
        && project_path == p))
    &&& (recheck ==> (effects.last() matches Effect::RunCommand {
        task_id: tid,
        label: l,
        program: pr,
        args: a,
    } && tid == o.next_task_id && l@ == "vpm --version"@ && pr@ == "vpm"@ && a.deep_view()
        == seq!["--version"@]))
}

/// Perform the tail of a task resolution; see [`task_tail_post`].
#[verifier::rlimit(100)]
#[verifier::spinoff_prover]
fn complete_task_tail(
    state: &mut AppState,
    task_id: u64,
    success: bool,
    cancelled: bool,
    refresh: Option<String>,
    deferred: Option<String>,
    recheck: bool,
) -> (effects: Vec<Effect>)
    requires
        old(state).inv(),
    ensures
        task_tail_post(
            *old(state),
            *final(state),
            task_id,
            success,
            cancelled,
            refresh,
            deferred,
            recheck,
            effects@,
        ),
        final(state).inv() || (recheck && old(state).next_task_id == u64::MAX),
        old(state).avail_sel_inv() ==> final(state).avail_sel_inv(),
{
    proof {
        reveal(task_tail_post);
    }
    let mut effects: Vec<Effect> = Vec::new();
    match refresh {
        Some(path) => { effects.push(Effect::ReadManifest { project_path: path }) },
        None => {},
    }
    match deferred {
        Some(line2) => { state.push_log(Some(task_id), line2) },
        None => {},
    }
    if recheck {
        let args = vec!["--version".to_owned()];
        proof {
            assert(args.deep_view() =~= seq!["--version"@]);
        }
        let ghost before_admit = *state;
        proof {
            assert(manifest_len(before_admit) == manifest_len(*old(state)));
            lemma_inv_from_parts(*old(state), before_admit);
        }
        let e = enqueue_system_task(state, "vpm --version", args);
        effects.push(e);
        proof {
            lemma_admission_preserves(
                before_admit,
                *state,
                "vpm --version"@,
                "vpm"@,
                seq!["--version"@],
                None,
                None,
                e,
            );
        }
    }
    let ghost after_work = *state;
    finish_completion(state, task_id, success, cancelled);
    proof {
        let o = *old(state);
        let n = *state;
        assert(manifest_len(n) == manifest_len(o));
        if o.avail_sel_inv() {
            lemma_avail_frame(o, n);
        }
        if !recheck {
            lemma_inv_from_parts(o, after_work);
            lemma_inv_log_frame(after_work, n);
        } else if o.next_task_id < u64::MAX {
            lemma_inv_log_frame(after_work, n);
        }
    }
    effects
}

/// Set a task record's terminal state, exit code and error in place.
fn apply_resolution(
    state: &mut AppState,
    idx: usize,
    exit_code: Option<i32>,
    error: Option<String>,
    success: bool,
    cancelled: bool,
)
    requires
        idx < old(state).tasks@.len(),
    ensures
        *final(state) == (AppState { tasks: final(state).tasks, ..*old(state) }),
        final(state).tasks@.len() == old(state).tasks@.len(),
        final(state).tasks.deep_view() == old(state).tasks.deep_view().update(
            idx as int,
            (TaskRecordV {
                exit_code,
                error: error.deep_view(),
                state: completion_state(success, cancelled),
                ..old(state).tasks@[idx as int].deep_view()
            }),
        ),
        forall|j: int|
            0 <= j < old(state).tasks@.len() ==> (#[trigger] final(state).tasks@[j]).id == old(
                state,
            ).tasks@[j].id,
        final(state).tasks@[idx as int].deep_view() == (TaskRecordV {
            exit_code,
            error: error.deep_view(),
            state: completion_state(success, cancelled),
            ..old(state).tasks@[idx as int].deep_view()
        }),
        old(state).inv() ==> final(state).inv(),
{
    let new_ts = if cancelled {
        TaskState::Cancelled
    } else if success {
        TaskState::Success
    } else {
        TaskState::Failed
    };
    {
        let t = vstd::std_specs::vec::vec_index_mut(&mut state.tasks, idx);
        t.exit_code = exit_code;
        t.error = error;
        t.state = new_ts;
    }
    proof {
        assert(state.tasks.deep_view() =~= old(state).tasks.deep_view().update(
            idx as int,
            (TaskRecordV {
                exit_code,
                error: error.deep_view(),
                state: completion_state(success, cancelled),
                ..old(state).tasks@[idx as int].deep_view()
            }),
        )) by {
            assert(state.tasks@.len() == old(state).tasks@.len());
        };
        assert(forall|j: int|
            0 <= j < old(state).tasks@.len() && j != idx as int ==> state.tasks@[j] == old(
                state,
            ).tasks@[j]);
        assert(state.tasks@[idx as int].id == old(state).tasks@[idx as int].id);
        assert(state.tasks@[idx as int].deep_view() == state.tasks.deep_view()[idx as int]);
        if old(state).inv() {
            assert(manifest_len(*state) == manifest_len(*old(state)));
            lemma_inv_from_parts(*old(state), *state);
        }
    }
}

/// Updating one record (keeping its id) and possibly admitting the recheck
/// task preserves all earlier ids and gives the new record a fresh id.
proof fn lemma_task_done_compose(
    o: AppState,
    mid: AppState,
    n: AppState,
    i: int,
    updated: TaskRecordV,
    recheck: bool,
)
    requires
        0 <= i < o.tasks@.len(),
        updated.id == o.tasks@[i].id,
        mid.tasks.deep_view() == o.tasks.deep_view().update(i, updated),
        n.tasks.deep_view() == (if recheck {
            mid.tasks.deep_view().push(
                TaskRecordV {
                    id: o.next_task_id,
                    label: "vpm --version"@,
                    state: TaskState::Running,
                    exit_code: None,
                    error: None,
                    refresh_manifest_path: None,
                    pending_add_project: None,
                },
            )
        } else {
            mid.tasks.deep_view()
        }),
    ensures
        n.tasks@.len() >= o.tasks@.len(),
        forall|j: int| 0 <= j < o.tasks@.len() ==> (#[trigger] n.tasks@[j]).id == o.tasks@[j].id,
        forall|j: int|
            o.tasks@.len() <= j < n.tasks@.len() ==> (#[trigger] n.tasks@[j]).id
                >= o.next_task_id,
{
    assert(n.tasks@.len() == n.tasks.deep_view().len());
    assert forall|j: int|
        0 <= j < o.tasks@.len() implies (#[trigger] n.tasks@[j]).id == o.tasks@[j].id by {
        assert(n.tasks@[j].deep_view() == n.tasks.deep_view()[j]);
        assert(n.tasks.deep_view()[j] == mid.tasks.deep_view()[j]);
        if j == i {
            assert(mid.tasks.deep_view()[j] == updated);
        } else {
            assert(mid.tasks.deep_view()[j] == o.tasks.deep_view()[j]);
        }
    }
    assert forall|j: int|
        o.tasks@.len() <= j < n.tasks@.len() implies (#[trigger] n.tasks@[j]).id
            >= o.next_task_id by {
        assert(n.tasks@[j].deep_view() == n.tasks.deep_view()[j]);
    }
}

/// What the version-check captures do to the system-check fields.
pub open spec fn checks_post(
    o: AppState,
    n: AppState,
    t: TaskRecordV,
    task_id: u64,
    success: bool,
) -> bool {
    &&& n == (AppState { system_checks: n.system_checks, ..o })
    &&& (if t.label == "vpm --version"@ && !success {
        n.system_checks.vpm_version matches Some(v) && v@ == "not installed"@
    } else {
        n.system_checks.vpm_version == o.system_checks.vpm_version
    })
    &&& (if t.label == "dotnet --version"@ && !success {
        n.system_checks.dotnet_version matches Some(v) && v@ == "not installed"@
    } else {
        n.system_checks.dotnet_version == o.system_checks.dotnet_version
    })
    &&& (if t.label == "vpm check hub"@ {
        n.system_checks.hub_check matches Some(v) && v@ == spec_task_state_text(t)
    } else {
        n.system_checks.hub_check == o.system_checks.hub_check
    })
    &&& (if t.label == "vpm check unity"@ {
        n.system_checks.unity_check matches Some(v) && v@ == spec_task_state_text(t)
    } else {
        n.system_checks.unity_check == o.system_checks.unity_check
    })
    &&& (if t.label == "vpm list unity"@ {
        n.system_checks.unity_list.deep_view() == task_output_lines(o.logs.deep_view(), task_id)
    } else {
        n.system_checks.unity_list == o.system_checks.unity_list
    })
}

/// Capture a resolved task's output into the system-check fields; see
/// [`checks_post`].
#[verifier::rlimit(100)]
#[verifier::spinoff_prover]
fn capture_system_checks(state: &mut AppState, idx: usize, task_id: u64, success: bool)
    requires
        idx < old(state).tasks@.len(),
    ensures
        checks_post(
            *old(state),
            *final(state),
            old(state).tasks@[idx as int].deep_view(),
            task_id,
            success,
        ),
{
    let label_vpm = str_eq(state.tasks[idx].label.as_str(), "vpm --version");
    let label_dotnet = str_eq(state.tasks[idx].label.as_str(), "dotnet --version");
    let label_hub = str_eq(state.tasks[idx].label.as_str(), "vpm check hub");
    let label_unity = str_eq(state.tasks[idx].label.as_str(), "vpm check unity");
    let label_list_unity = str_eq(state.tasks[idx].label.as_str(), "vpm list unity");
    if label_vpm && !success {
        state.system_checks.vpm_version = Some("not installed".to_owned());
    }
    if label_dotnet && !success {
        state.system_checks.dotnet_version = Some("not installed".to_owned());
    }
    if label_hub {
        let txt = task_state_text(&state.tasks[idx]);
        state.system_checks.hub_check = Some(txt);
    }
    if label_unity {
        let txt = task_state_text(&state.tasks[idx]);
        state.system_checks.unity_check = Some(txt);
    }
    if label_list_unity {
        let lines = collect_task_lines(&state.logs, task_id);
        state.system_checks.unity_list = lines;
    }
}

/// What resolving a completed record does to the version checks, the
/// project list and the immediate effects; the returned values feed the
/// resolution tail: the manifest path to refresh, the deferred warning
/// line, and whether the tool recheck runs.
#[verifier::opaque]
pub open spec fn outcomes_post(
    o: AppState,
    n: AppState,
    t: TaskRecordV,
    task_id: u64,
    success: bool,
    pending_path_exists: bool,
    effects: Seq<Effect>,
    refresh: Option<String>,
    deferred: Option<String>,
    recheck: bool,
) -> bool {
    let is_vpm_fail = t.label == "vpm --version"@ && !success;
    let is_dotnet_fail = t.label == "dotnet --version"@ && !success;
    let is_hub = t.label == "vpm check hub"@;
    let is_unity = t.label == "vpm check unity"@;
    let is_list_unity = t.label == "vpm list unity"@;
    let is_add_repo = is_prefix("vpm add repo "@, t.label);
    let adopt = success && t.pending_add_project is Some && pending_path_exists && !has_path(
        o.projects.deep_view(),
        t.pending_add_project->0.path,
    );
    let warn = success && t.pending_add_project is Some && !pending_path_exists;
    let k0 = if is_add_repo {
        1int
    } else {
        0int
    };
    &&& n == (AppState {
        projects: n.projects,
        selected_project: n.selected_project,
        system_checks: n.system_checks,
        ..o
    })
    &&& n.projects.deep_view() == (if adopt {
        o.projects.deep_view().push(t.pending_add_project->0)
    } else {
        o.projects.deep_view()
    })
    &&& n.selected_project == (if adopt {
        o.projects@.len() as usize
    } else {
        o.selected_project
    })
    &&& (if is_vpm_fail {
        n.system_checks.vpm_version matches Some(v) && v@ == "not installed"@
    } else {
        n.system_checks.vpm_version == o.system_checks.vpm_version
    })
    &&& (if is_dotnet_fail {
        n.system_checks.dotnet_version matches Some(v) && v@ == "not installed"@
    } else {
        n.system_checks.dotnet_version == o.system_checks.dotnet_version
    })
    &&& (if is_hub {
        n.system_checks.hub_check matches Some(v) && v@ == spec_task_state_text(
            o.tasks@[task_index(o.tasks@, task_id)].deep_view(),
        )
    } else {
        n.system_checks.hub_check == o.system_checks.hub_check
    })
    &&& (if is_unity {
        n.system_checks.unity_check matches Some(v) && v@ == spec_task_state_text(
            o.tasks@[task_index(o.tasks@, task_id)].deep_view(),
        )
    } else {
        n.system_checks.unity_check == o.system_checks.unity_check
    })
    &&& (if is_list_unity {
        n.system_checks.unity_list.deep_view() == task_output_lines(o.logs.deep_view(), task_id)
    } else {
        n.system_checks.unity_list == o.system_checks.unity_list
    })
    &&& effects.len() == k0 + (if adopt {
        1int
    } else {
        0int
    })
    &&& (is_add_repo ==> effects[0] is LoadAvailablePackages)
    &&& (adopt ==> (effects[k0] matches Effect::SaveConfig(c) && c.deep_view().projects
        == n.projects.deep_view()))
    &&& refresh.deep_view() == t.refresh_manifest_path
    &&& (if warn {
        deferred matches Some(d) && d@ == "Project path was not created: "@
            + t.pending_add_project->0.path
    } else {
        deferred is None
    })
    &&& recheck == ((t.label == "dotnet tool install vpm"@ || t.label
        == "dotnet tool update vpm"@) && success)
}

/// Resolve a completed record's outcomes; see [`outcomes_post`].  Runs on
/// the state whose record at `idx` already carries its terminal state; the
/// label, follow-up paths and pending project are unchanged by that update.
#[verifier::rlimit(100)]
#[verifier::spinoff_prover]
fn apply_outcomes(
    state: &mut AppState,
    idx: usize,
    task_id: u64,
    success: bool,
    pending_path_exists: bool,
) -> (r: (Vec<Effect>, Option<String>, Option<String>, bool))
    requires
        old(state).inv(),
        idx < old(state).tasks@.len(),
        old(state).tasks@[idx as int].id == task_id,
        task_index(old(state).tasks@, task_id) == idx as int,
    ensures
        outcomes_post(
            *old(state),
            *final(state),
            old(state).tasks@[idx as int].deep_view(),
            task_id,
            success,
            pending_path_exists,
            r.0@,
            r.1,
            r.2,
            r.3,
        ),
        *final(state) == (AppState {
            projects: final(state).projects,
            selected_project: final(state).selected_project,
            system_checks: final(state).system_checks,
            ..*old(state)
        }),
        ({
            let nsel = final(state).selected_project;
            let nlen = final(state).projects@.len();
            let osel = old(state).selected_project;
            let olen = old(state).projects@.len();
            (nsel == osel && nlen == olen) || (nsel as int == olen && nlen == olen + 1)
        }),
{
    proof {
        reveal(outcomes_post);
    }
    let ghost t = old(state).tasks@[idx as int].deep_view();
    let mut effects: Vec<Effect> = Vec::new();
    let label_add_repo = str_starts_with(state.tasks[idx].label.as_str(), "vpm add repo ");
    let label_tool = str_eq(state.tasks[idx].label.as_str(), "dotnet tool install vpm")
        || str_eq(state.tasks[idx].label.as_str(), "dotnet tool update vpm");
    let refresh = clone_opt_string(&state.tasks[idx].refresh_manifest_path);
    let pending: Option<ProjectMeta> = match &state.tasks[idx].pending_add_project {
        Some(p) => Some(p.clone()),
        None => None,
    };
    capture_system_checks(state, idx, task_id, success);
    if label_add_repo {
        effects.push(Effect::LoadAvailablePackages);
    }
    let recheck = label_tool && success;
    let mut deferred: Option<String> = None;
    if success {
        match pending {
            Some(proj) => {
                if pending_path_exists {
                    if !has_project_path_exec(&state.projects, proj.path.as_str()) {
                        let ghost prev = state.projects.deep_view();
                        state.projects.push(proj);
                        proof {
                            assert(state.projects.deep_view() =~~= prev.push(
                                t.pending_add_project->0,
                            ));
                        }
                        state.selected_project = state.projects.len() - 1;
                        effects.push(
                            Effect::SaveConfig(
                                AppConfig { projects: clone_projects_list(&state.projects) },
                            ),
                        );
                    }
                } else {
                    deferred = Some(
                        concat2("Project path was not created: ", proj.path.as_str()),
                    );
                }
            },
            None => {},
        }
    }
    (effects, refresh, deferred, recheck)
}

/// Composing the three stages of a found-record resolution — the record
/// update, the outcome stage, and the tail — yields the full resolution
/// transition.
#[verifier::rlimit(100)]
#[verifier::spinoff_prover]
proof fn lemma_found_compose(
    o: AppState,
    s1: AppState,
    mid: AppState,
    n: AppState,
    idx: int,
    task_id: u64,
    success: bool,
    cancelled: bool,
    exit_code: Option<i32>,
    error: Option<String>,
    pending_path_exists: bool,
    head: Seq<Effect>,
    tailv: Seq<Effect>,
    refresh: Option<String>,
    deferred: Option<String>,
    recheck: bool,
)
    requires
        o.inv(),
        0 <= idx < o.tasks@.len(),
        o.tasks@[idx].id == task_id,
        task_index(o.tasks@, task_id) == idx,
        s1 == (AppState { tasks: s1.tasks, ..o }),
        s1.tasks@.len() == o.tasks@.len(),
        s1.tasks.deep_view() == o.tasks.deep_view().update(
            idx,
            (TaskRecordV {
                exit_code,
                error: error.deep_view(),
                state: completion_state(success, cancelled),
                ..o.tasks@[idx].deep_view()
            }),
        ),
        s1.tasks@[idx].deep_view() == (TaskRecordV {
            exit_code,
            error: error.deep_view(),
            state: completion_state(success, cancelled),
            ..o.tasks@[idx].deep_view()
        }),
        task_index(s1.tasks@, task_id) == idx,
        outcomes_post(
            s1,
            mid,
            s1.tasks@[idx].deep_view(),
            task_id,
            success,
            pending_path_exists,
            head,
            refresh,
            deferred,
            recheck,
        ),
        task_tail_post(
            mid,
            n,
            task_id,
            success,
            cancelled,
            refresh,
            deferred,
            recheck,
            tailv,
        ),
    ensures
        task_done_found_post(
            o,
            n,
            task_id,
            success,
            cancelled,
            exit_code,
            error,
            pending_path_exists,
            head + tailv,
        ),
        mid.next_task_id == o.next_task_id,
        n.next_task_id >= o.next_task_id,
        n.tasks@.len() >= o.tasks@.len(),
        forall|j: int| 0 <= j < o.tasks@.len() ==> (#[trigger] n.tasks@[j]).id == o.tasks@[j].id,
        forall|j: int|
            o.tasks@.len() <= j < n.tasks@.len() ==> (#[trigger] n.tasks@[j]).id
                >= o.next_task_id,
        n.available_packages == o.available_packages,
        n.available_package_search == o.available_package_search,
        n.selected_available_package == o.selected_available_package,
{
    reveal(task_done_found_post);
    reveal(outcomes_post);
    reveal(task_tail_post);
    let t = o.tasks@[idx].deep_view();
    let updated = TaskRecordV {
        exit_code,
        error: error.deep_view(),
        state: completion_state(success, cancelled),
        ..t
    };
    assert(mid.tasks.deep_view() == o.tasks.deep_view().update(idx, updated));
    lemma_task_done_compose(o, mid, n, idx, updated, recheck);
    let effects = head + tailv;
    assert(effects.subrange(0, head.len() as int) =~= head);
    assert forall|j: int| 0 <= j < tailv.len() implies effects[head.len() + j] == tailv[j] by {}
    if tailv.len() > 0 {
        assert(effects.last() == tailv.last());
    }
    assert(task_done_found_post(
        o,
        n,
        task_id,
        success,
        cancelled,
        exit_code,
        error,
        pending_path_exists,
        effects,
    ));
}

/// A record update that keeps every id keeps the id lookup stable.
proof fn lemma_task_index_stable(o: AppState, s1: AppState, idx: int, task_id: u64)
    requires
        o.inv(),
        0 <= idx < o.tasks@.len(),
        o.tasks@[idx].id == task_id,
        s1.tasks@.len() == o.tasks@.len(),
        forall|j: int| 0 <= j < o.tasks@.len() ==> (#[trigger] s1.tasks@[j]).id == o.tasks@[j].id,
    ensures
        has_task(s1.tasks@, task_id),
        task_index(s1.tasks@, task_id) == idx,
{
    assert(s1.tasks@[idx].id == task_id);
    assert(has_task(s1.tasks@, task_id));
    let w = task_index(s1.tasks@, task_id);
    assert(0 <= w < s1.tasks@.len() && s1.tasks@[w].id == task_id);
    if w != idx {
        assert(o.tasks@[w].id != o.tasks@[idx].id);
    }
}

/// The task-resolution arm for an id whose record exists.
#[verifier::rlimit(100)]
#[verifier::spinoff_prover]
fn on_task_done_found(
    state: &mut AppState,
    idx: usize,
    task_id: u64,
    success: bool,
    cancelled: bool,
    exit_code: Option<i32>,
    error: Option<String>,
    pending_path_exists: bool,
) -> (effects: Vec<Effect>)
    requires
        old(state).inv(),
        idx < old(state).tasks@.len(),
        old(state).tasks@[idx as int].id == task_id,
        task_index(old(state).tasks@, task_id) == idx as int,
    ensures
        engine_guarantees(*old(state), *final(state)),
        task_done_found_post(
            *old(state),
            *final(state),
            task_id,
            success,
            cancelled,
            exit_code,
            error,
            pending_path_exists,
            effects@,
        ),
{
    proof {
        assert(has_task(old(state).tasks@, task_id));
    }
    let ghost tv = old(state).tasks@[idx as int].deep_view();
    apply_resolution(state, idx, exit_code, error, success, cancelled);
    let ghost updated = TaskRecordV {
        exit_code,
        error: error.deep_view(),
        state: completion_state(success, cancelled),
        ..tv
    };
    let ghost s1 = *state;
    proof {
        assert(s1.tasks@[idx as int].deep_view() == updated);
        lemma_task_index_stable(*old(state), s1, idx as int, task_id);
    }
    let (mut effects, refresh, deferred, recheck) = apply_outcomes(
        state,
        idx,
        task_id,
        success,
        pending_path_exists,
    );
    let ghost head = effects@;
    let ghost mid = *state;
    proof {
        assert(s1.inv());
        assert(manifest_len(mid) == manifest_len(s1));
        lemma_inv_from_parts(s1, mid);
    }
    let mut tail = complete_task_tail(
        state,
        task_id,
        success,
        cancelled,
        refresh,
        deferred,
        recheck,
    );
    let ghost tailv = tail@;
    effects.append(&mut tail);
    proof {
        let o = *old(state);
        let n = *state;
        assert(effects@ == head + tailv);
        lemma_found_compose(
            o,
            s1,
            mid,
            n,
            idx as int,
            task_id,
            success,
            cancelled,
            exit_code,
            error,
            pending_path_exists,
            head,
            tailv,
            refresh,
            deferred,
            recheck,
        );
        if o.avail_sel_inv() {
            lemma_avail_frame(o, n);
        }
    }
    effects
}

/// The arm for a task completion; see [`task_done_post`].
pub fn on_task_done(
    state: &mut AppState,
    task_id: u64,
    success: bool,
    cancelled: bool,
    exit_code: Option<i32>,
    error: Option<String>,
    pending_path_exists: bool,
) -> (effects: Vec<Effect>)
    requires
        old(state).inv(),
    ensures
        engine_guarantees(*old(state), *final(state)),
        task_done_post(
            *old(state),
            *final(state),
            task_id,
            success,
            cancelled,
            exit_code,
            error,
            pending_path_exists,
            effects@,
        ),
{
    let found = find_task_index(&state.tasks, task_id);
    match found {
        None => {
            finish_completion(state, task_id, success, cancelled);
            Vec::new()
        },
        Some(idx) => on_task_done_found(
            state,
            idx,
            task_id,
            success,
            cancelled,
            exit_code,
            error,
            pending_path_exists,
        ),
    }
}

/// The arm for a timer tick; see [`tick_post`].
pub fn on_tick(state: &mut AppState) -> (effects: Vec<Effect>)
    requires
        old(state).inv(),
    ensures
        engine_guarantees(*old(state), *final(state)),
        tick_post(*old(state), *final(state), effects@),
{
    state.tick_count = saturating_inc_u64(state.tick_count);
    Vec::new()
}

} // verus!
