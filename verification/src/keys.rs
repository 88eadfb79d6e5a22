//! Key handling: the reducer's transitions for user input.
//!
//! One input-capture mode is active at a time; [`on_key`] dispatches to the
//! active mode's handler before falling through to the global keys and the
//! per-screen handlers, mirroring the priority order of the dispatch loop's
//! input states.  Every handler's exact transition is a `_post` spec
//! function, and each carries the engine guarantees of
//! [`crate::reducer::engine_guarantees`].

use vstd::prelude::*;

use crate::action::{KeyCode, KeyPress};
use crate::effect::Effect;
use crate::reducer::{
    engine_guarantees, enqueue_dotnet_task, enqueue_project_task, enqueue_system_task, has_path,
    lemma_admission_preserves, lemma_avail_frame, lemma_inv_unchanged, scanned_project,
    task_admitted,
};
use crate::state::{
    clamped_index, filtered_available_model, filtered_projects_model, manifest_len, template_name,
    AppConfig, AppState, PackageInfoV, ProjectMeta, Screen, TaskRecord, TaskState,
};
use crate::textutil::{trim_of, trim, str_eq};
use crate::files::{join_path, join_path_model, file_name_of, file_name_model};

verus! {

/// A string after removing its last character, if any.
pub open spec fn pop_model(s: Seq<char>) -> Seq<char> {
    if s.len() == 0 {
        s
    } else {
        s.subrange(0, s.len() - 1)
    }
}

/// The largest index of a `Running` task record, `-1` when none runs.
pub open spec fn last_running_index(tasks: Seq<TaskRecord>) -> int
    decreases tasks.len(),
{
    if tasks.len() == 0 {
        -1
    } else if tasks.last().state == TaskState::Running {
        tasks.len() - 1
    } else {
        last_running_index(tasks.drop_last())
    }
}

/// `last_running_index` finds the last running record.
pub proof fn lemma_last_running_index(tasks: Seq<TaskRecord>)
    ensures
        -1 <= last_running_index(tasks) < tasks.len(),
        last_running_index(tasks) >= 0 ==> tasks[last_running_index(tasks)].state
            == TaskState::Running,
        forall|j: int|
            last_running_index(tasks) < j < tasks.len() ==> tasks[j].state != TaskState::Running,
    decreases tasks.len(),
{
    if tasks.len() == 0 {
    } else if tasks.last().state == TaskState::Running {
    } else {
        lemma_last_running_index(tasks.drop_last());
        assert(forall|j: int| 0 <= j < tasks.len() - 1 ==> tasks[j] == tasks.drop_last()[j]);
    }
}

/// Some installed package carries the given name.
pub open spec fn has_pkg(packages: Seq<PackageInfoV>, name: Seq<char>) -> bool {
    exists|i: int| 0 <= i < packages.len() && #[trigger] packages[i].name == name
}

/// The search-input mode: Esc/Enter leave the mode, Backspace and plain
/// characters edit the query.
pub open spec fn search_input_post(o: AppState, n: AppState, key: KeyPress, effects: Seq<
    Effect,
>) -> bool {
    &&& effects.len() == 0
    &&& (match key.code {
        KeyCode::Esc => n == (AppState { search_mode: false, ..o }),
        KeyCode::Enter => n == (AppState { search_mode: false, ..o }),
        KeyCode::Backspace => n == (AppState { search_query: n.search_query, ..o })
            && n.search_query@ == pop_model(o.search_query@),
        KeyCode::Char(c) => if !key.ctrl {
            n == (AppState { search_query: n.search_query, ..o }) && n.search_query@
                == o.search_query@.push(c)
        } else {
            n == o
        },
        _ => n == o,
    })
}

/// The available-package search mode: as the search mode, but each edit
/// re-clamps the selection against the filtered list.
pub open spec fn avail_search_input_post(o: AppState, n: AppState, key: KeyPress, effects: Seq<
    Effect,
>) -> bool {
    &&& effects.len() == 0
    &&& (match key.code {
        KeyCode::Esc => n == (AppState { available_package_search_mode: false, ..o }),
        KeyCode::Enter => n == (AppState { available_package_search_mode: false, ..o }),
        KeyCode::Backspace => n == (AppState {
            available_package_search: n.available_package_search,
            selected_available_package: n.selected_available_package,
            ..o
        }) && n.available_package_search@ == pop_model(o.available_package_search@)
            && n.selected_available_package as int == clamped_index(
            o.selected_available_package as int,
            filtered_available_model(
                o.available_packages.deep_view(),
                n.available_package_search@,
            ).len() as int,
        ),
        KeyCode::Char(c) => if !key.ctrl {
            n == (AppState {
                available_package_search: n.available_package_search,
                selected_available_package: n.selected_available_package,
                ..o
            }) && n.available_package_search@ == o.available_package_search@.push(c)
                && n.selected_available_package as int == clamped_index(
                o.selected_available_package as int,
                filtered_available_model(
                    o.available_packages.deep_view(),
                    n.available_package_search@,
                ).len() as int,
            )
        } else {
            n == o
        },
        _ => n == o,
    })
}

/// A new project path was accepted: it is appended, selected, persisted,
/// and its manifest read.
pub open spec fn add_project_commit_post(o: AppState, n: AppState, input: Seq<char>, effects: Seq<
    Effect,
>) -> bool {
    &&& n == (AppState {
        projects: n.projects,
        selected_project: n.selected_project,
        add_project_mode: false,
        add_project_input: n.add_project_input,
        status_line: n.status_line,
        ..o
    })
    &&& n.projects.deep_view() == o.projects.deep_view().push(scanned_project(input))
    &&& n.selected_project as int == o.projects@.len() as int
    &&& n.add_project_input@ == Seq::<char>::empty()
    &&& n.status_line@ == "Project added"@
    &&& effects.len() == 2
    &&& (effects[0] matches Effect::SaveConfig(c) && c.deep_view().projects
        == n.projects.deep_view())
    &&& (effects[1] matches Effect::ReadManifest { project_path } && project_path@ == input)
}

/// The add-project input mode.  On Enter: an empty path is rejected with a
/// status; a path already tracked is ignored with a "Project already
/// exists" status and the collection unchanged (idempotent add); otherwise
/// the project is appended, selected, persisted, and its manifest read.
pub open spec fn add_project_input_post(o: AppState, n: AppState, key: KeyPress, effects: Seq<
    Effect,
>) -> bool {
    match key.code {
        KeyCode::Esc => effects.len() == 0 && n == (AppState {
            add_project_mode: false,
            add_project_input: n.add_project_input,
            ..o
        }) && n.add_project_input@ == Seq::<char>::empty(),
        KeyCode::Backspace => effects.len() == 0 && n == (AppState {
            add_project_input: n.add_project_input,
            ..o
        }) && n.add_project_input@ == pop_model(o.add_project_input@),
        KeyCode::Enter => {
            let input = trim_of(o.add_project_input@);
            if input.len() == 0 {
                effects.len() == 0 && n == (AppState { status_line: n.status_line, ..o })
                    && n.status_line@ == "Project path is empty"@
            } else if has_path(o.projects.deep_view(), input) {
                effects.len() == 0 && n == (AppState {
                    status_line: n.status_line,
                    add_project_mode: false,
                    add_project_input: n.add_project_input,
                    ..o
                }) && n.add_project_input@ == Seq::<char>::empty() && n.status_line@
                    == "Project already exists"@
            } else {
                add_project_commit_post(o, n, input, effects)
            }
        },
        KeyCode::Char(c) => effects.len() == 0 && (if !key.ctrl {
            n == (AppState { add_project_input: n.add_project_input, ..o })
                && n.add_project_input@ == o.add_project_input@.push(c)
        } else {
            n == o
        }),
        _ => effects.len() == 0 && n == o,
    }
}

/// The add-folder input mode.  On Enter with a non-empty path, a scan of
/// that folder is requested.
pub open spec fn add_folder_input_post(o: AppState, n: AppState, key: KeyPress, effects: Seq<
    Effect,
>) -> bool {
    match key.code {
        KeyCode::Esc => effects.len() == 0 && n == (AppState {
            add_folder_mode: false,
            add_folder_input: n.add_folder_input,
            ..o
        }) && n.add_folder_input@ == Seq::<char>::empty(),
        KeyCode::Backspace => effects.len() == 0 && n == (AppState {
            add_folder_input: n.add_folder_input,
            ..o
        }) && n.add_folder_input@ == pop_model(o.add_folder_input@),
        KeyCode::Enter => {
            let root = trim_of(o.add_folder_input@);
            if root.len() == 0 {
                effects.len() == 0 && n == (AppState { status_line: n.status_line, ..o })
                    && n.status_line@ == "Folder path is empty"@
            } else {
                &&& n == (AppState {
                    add_folder_mode: false,
                    add_folder_input: n.add_folder_input,
                    ..o
                })
                &&& n.add_folder_input@ == Seq::<char>::empty()
                &&& effects.len() == 1
                &&& (effects[0] matches Effect::ScanProjectsFolder { root: r } && r@ == root)
            }
        },
        KeyCode::Char(c) => effects.len() == 0 && (if !key.ctrl {
            n == (AppState { add_folder_input: n.add_folder_input, ..o })
                && n.add_folder_input@ == o.add_folder_input@.push(c)
        } else {
            n == o
        }),
        _ => effects.len() == 0 && n == o,
    }
}

/// The add-repository mode was just left, with its input cleared.
pub open spec fn cleared_repo_mode(o: AppState, mid: AppState) -> bool {
    mid == (AppState { add_repo_mode: false, add_repo_input: mid.add_repo_input, ..o })
        && mid.add_repo_input@ == Seq::<char>::empty()
}

/// The add-package mode was just left, with its input cleared.
pub open spec fn cleared_package_mode(o: AppState, mid: AppState) -> bool {
    mid == (AppState { add_package_mode: false, add_package_input: mid.add_package_input, ..o })
        && mid.add_package_input@ == Seq::<char>::empty()
}

/// The new-project mode was just left, with its inputs cleared and the
/// Projects screen shown.
pub open spec fn cleared_new_project_mode(o: AppState, mid: AppState) -> bool {
    mid == (AppState {
        new_project_mode: false,
        new_project_name_input: mid.new_project_name_input,
        new_project_path_input: mid.new_project_path_input,
        screen: Screen::Projects,
        ..o
    }) && mid.new_project_name_input@ == Seq::<char>::empty() && mid.new_project_path_input@
        == Seq::<char>::empty()
}

/// The add-repository input mode.  On Enter with a non-empty URL, an
/// `add repo` task is admitted after the mode is cleared.
pub open spec fn add_repo_input_post(o: AppState, n: AppState, key: KeyPress, effects: Seq<
    Effect,
>) -> bool {
    match key.code {
        KeyCode::Esc => effects.len() == 0 && n == (AppState {
            add_repo_mode: false,
            add_repo_input: n.add_repo_input,
            ..o
        }) && n.add_repo_input@ == Seq::<char>::empty(),
        KeyCode::Backspace => effects.len() == 0 && n == (AppState {
            add_repo_input: n.add_repo_input,
            ..o
        }) && n.add_repo_input@ == pop_model(o.add_repo_input@),
        KeyCode::Enter => {
            let repo = trim_of(o.add_repo_input@);
            if repo.len() == 0 {
                effects.len() == 0 && n == (AppState { status_line: n.status_line, ..o })
                    && n.status_line@ == "Repo URL is empty"@
            } else {
                &&& effects.len() == 1
                &&& exists|mid: AppState|
                    {
                        &&& #[trigger] cleared_repo_mode(o, mid)
                        &&& task_admitted(
                            mid,
                            n,
                            "vpm add repo "@ + repo,
                            "vpm"@,
                            seq!["add"@, "repo"@, repo],
                            None,
                            None,
                            effects[0],
                        )
                    }
            }
        },
        KeyCode::Char(c) => effects.len() == 0 && (if !key.ctrl {
            n == (AppState { add_repo_input: n.add_repo_input, ..o }) && n.add_repo_input@
                == o.add_repo_input@.push(c)
        } else {
            n == o
        }),
        _ => effects.len() == 0 && n == o,
    }
}

/// The add-package input mode.  On Enter with a non-empty name and a
/// selected project, an `add package` task is admitted after the mode is
/// cleared; with no selected project the mode stays and a status is shown.
pub open spec fn add_package_input_post(o: AppState, n: AppState, key: KeyPress, effects: Seq<
    Effect,
>) -> bool {
    match key.code {
        KeyCode::Esc => effects.len() == 0 && n == (AppState {
            add_package_mode: false,
            add_package_input: n.add_package_input,
            ..o
        }) && n.add_package_input@ == Seq::<char>::empty(),
        KeyCode::Backspace => effects.len() == 0 && n == (AppState {
            add_package_input: n.add_package_input,
            ..o
        }) && n.add_package_input@ == pop_model(o.add_package_input@),
        KeyCode::Enter => {
            let package = trim_of(o.add_package_input@);
            if package.len() == 0 {
                effects.len() == 0 && n == (AppState { status_line: n.status_line, ..o })
                    && n.status_line@ == "Package name is empty"@
            } else if o.selected_project < o.projects@.len() {
                let path = o.projects@[o.selected_project as int].deep_view().path;
                &&& effects.len() == 1
                &&& exists|mid: AppState|
                    {
                        &&& #[trigger] cleared_package_mode(o, mid)
                        &&& task_admitted(
                            mid,
                            n,
                            "vpm add package "@ + package,
                            "vpm"@,
                            seq!["add"@, "package"@, package, "-p"@, path],
                            Some(path),
                            None,
                            effects[0],
                        )
                    }
            } else {
                effects.len() == 0 && n == (AppState { status_line: n.status_line, ..o })
                    && n.status_line@ == "No project selected"@
            }
        },
        KeyCode::Char(c) => effects.len() == 0 && (if !key.ctrl {
            n == (AppState { add_package_input: n.add_package_input, ..o })
                && n.add_package_input@ == o.add_package_input@.push(c)
        } else {
            n == o
        }),
        _ => effects.len() == 0 && n == o,
    }
}

/// The new-project input mode.  Tab switches between the name and path
/// fields; Enter with both fields non-empty admits a `vpm new` task with
/// the created folder as pending project.
pub open spec fn new_project_input_post(o: AppState, n: AppState, key: KeyPress, effects: Seq<
    Effect,
>) -> bool {
    match key.code {
        KeyCode::Esc => effects.len() == 0 && n == (AppState { new_project_mode: false, ..o }),
        KeyCode::Tab => effects.len() == 0 && n == (AppState {
            new_project_edit_path: !o.new_project_edit_path,
            ..o
        }),
        KeyCode::Backspace => effects.len() == 0 && (if o.new_project_edit_path {
            n == (AppState { new_project_path_input: n.new_project_path_input, ..o })
                && n.new_project_path_input@ == pop_model(o.new_project_path_input@)
        } else {
            n == (AppState { new_project_name_input: n.new_project_name_input, ..o })
                && n.new_project_name_input@ == pop_model(o.new_project_name_input@)
        }),
        KeyCode::Enter => {
            let name = trim_of(o.new_project_name_input@);
            let path = trim_of(o.new_project_path_input@);
            if name.len() == 0 || path.len() == 0 {
                effects.len() == 0 && n == (AppState { status_line: n.status_line, ..o })
                    && n.status_line@ == "Project name/path is required"@
            } else {
                let template = template_name(o.new_project_template_idx as int);
                let root = join_path_model(path, name);
                &&& effects.len() == 1
                &&& exists|mid: AppState|
                    {
                        &&& #[trigger] cleared_new_project_mode(o, mid)
                        &&& task_admitted(
                            mid,
                            n,
                            "vpm new "@ + name + " "@ + template + " -p "@ + path,
                            "vpm"@,
                            seq!["new"@, name, template, "-p"@, path],
                            Some(root),
                            Some(
                                crate::state::ProjectMetaV {
                                    path: root,
                                    display_name: name,
                                    tags: Seq::empty(),
                                    last_opened: None,
                                },
                            ),
                            effects[0],
                        )
                    }
            }
        },
        KeyCode::Char(c) => effects.len() == 0 && (if !key.ctrl {
            if o.new_project_edit_path {
                n == (AppState { new_project_path_input: n.new_project_path_input, ..o })
                    && n.new_project_path_input@ == o.new_project_path_input@.push(c)
            } else {
                n == (AppState { new_project_name_input: n.new_project_name_input, ..o })
                    && n.new_project_name_input@ == o.new_project_name_input@.push(c)
            }
        } else {
            n == o
        }),
        _ => effects.len() == 0 && n == o,
    }
}

/// The New screen: `j`/`k` move the template selection, `n` opens the
/// new-project input mode.
pub open spec fn new_key_post(o: AppState, n: AppState, key: KeyPress, effects: Seq<
    Effect,
>) -> bool {
    &&& effects.len() == 0
    &&& (match key.code {
        KeyCode::Char(c) => if c == 'j' {
            n == (AppState {
                new_project_template_idx: if o.new_project_template_idx + 1 <= 2 {
                    (o.new_project_template_idx + 1) as usize
                } else {
                    2usize
                },
                ..o
            })
        } else if c == 'k' {
            n == (AppState {
                new_project_template_idx: if o.new_project_template_idx == 0 {
                    0usize
                } else {
                    (o.new_project_template_idx - 1) as usize
                },
                ..o
            })
        } else if c == 'n' {
            n == (AppState { new_project_mode: true, new_project_edit_path: false, ..o })
        } else {
            n == o
        },
        _ => n == o,
    })
}

/// The Add screen: `a` opens the add-project input, `f` the add-folder
/// input.
pub open spec fn add_key_post(o: AppState, n: AppState, key: KeyPress, effects: Seq<
    Effect,
>) -> bool {
    &&& effects.len() == 0
    &&& (match key.code {
        KeyCode::Char(c) => if c == 'a' {
            n == (AppState {
                add_project_mode: true,
                add_project_input: n.add_project_input,
                ..o
            }) && n.add_project_input@ == Seq::<char>::empty()
        } else if c == 'f' {
            n == (AppState { add_folder_mode: true, add_folder_input: n.add_folder_input, ..o })
                && n.add_folder_input@ == Seq::<char>::empty()
        } else {
            n == o
        },
        _ => n == o,
    })
}

/// The Projects screen: search, navigation clamped to the filtered list,
/// and Enter opens the Manage screen, reading the selected manifest.
pub open spec fn projects_key_post(o: AppState, n: AppState, key: KeyPress, effects: Seq<
    Effect,
>) -> bool {
    match key.code {
        KeyCode::Char(c) => if c == '/' {
            effects.len() == 0 && n == (AppState { search_mode: true, ..o })
        } else if c == 'a' {
            effects.len() == 0 && n == (AppState { screen: Screen::Add, ..o })
        } else if c == 'j' {
            let len = filtered_projects_model(o.projects.deep_view(), o.search_query@).len();
            effects.len() == 0 && (if len > 0 {
                n == (AppState { selected_project: n.selected_project, ..o })
                    && n.selected_project as int == (if o.selected_project + 1 <= len - 1 {
                    o.selected_project + 1
                } else {
                    len - 1
                })
            } else {
                n == o
            })
        } else if c == 'k' {
            effects.len() == 0 && n == (AppState {
                selected_project: if o.selected_project == 0 {
                    0usize
                } else {
                    (o.selected_project - 1) as usize
                },
                ..o
            })
        } else {
            effects.len() == 0 && n == o
        },
        KeyCode::Enter => {
            &&& n == (AppState { screen: Screen::Manage, ..o })
            &&& (if o.selected_project < o.projects@.len() {
                effects.len() == 1 && (effects[0] matches Effect::ReadManifest { project_path }
                    && project_path@ == o.projects@[o.selected_project as int].deep_view().path)
            } else {
                effects.len() == 0
            })
        },
        _ => effects.len() == 0 && n == o,
    }
}

/// A task-launching operation on the Manage screen, against the selected
/// project and the selected package of the given list.
pub open spec fn manage_task_post(
    o: AppState,
    n: AppState,
    effects: Seq<Effect>,
    label: Seq<char>,
    args: Seq<Seq<char>>,
) -> bool {
    let path = o.projects@[o.selected_project as int].deep_view().path;
    &&& effects.len() == 1
    &&& task_admitted(o, n, label, "vpm"@, args, Some(path), None, effects[0])
}

/// No project is selected: only the status line reports it.
pub open spec fn no_project_post(o: AppState, n: AppState, effects: Seq<Effect>) -> bool {
    effects.len() == 0 && n == (AppState { status_line: n.status_line, ..o }) && n.status_line@
        == "No project selected"@
}

/// The Manage screen: focus switching, clamped navigation in both panes,
/// reloads, search, and the package operations.
pub open spec fn manage_key_post(o: AppState, n: AppState, key: KeyPress, effects: Seq<
    Effect,
>) -> bool {
    match key.code {
        KeyCode::Char(c) => if c == 'r' {
            &&& n == o
            &&& (if o.selected_project < o.projects@.len() {
                effects.len() == 1 && (effects[0] matches Effect::ReadManifest { project_path }
                    && project_path@ == o.projects@[o.selected_project as int].deep_view().path)
            } else {
                effects.len() == 0
            })
        } else if c == 'R' {
            n == o && effects.len() == 1 && effects[0] is LoadAvailablePackages
        } else if c == '/' {
            effects.len() == 0 && n == (AppState { available_package_search_mode: true, ..o })
        } else if c == 'h' {
            effects.len() == 0 && n == (AppState { manage_focus_available: true, ..o })
        } else if c == 'l' {
            effects.len() == 0 && n == (AppState { manage_focus_available: false, ..o })
        } else if c == 'i' {
            effects.len() == 0 && n == (AppState {
                add_package_mode: true,
                add_package_input: n.add_package_input,
                ..o
            }) && n.add_package_input@ == Seq::<char>::empty()
        } else if c == 'j' {
            effects.len() == 0 && (if o.manage_focus_available {
                let len = filtered_available_model(
                    o.available_packages.deep_view(),
                    o.available_package_search@,
                ).len();
                if len > 0 {
                    n == (AppState {
                        selected_available_package: n.selected_available_package,
                        ..o
                    }) && n.selected_available_package as int == (if o.selected_available_package
                        + 1 <= len - 1 {
                        o.selected_available_package + 1
                    } else {
                        len - 1
                    })
                } else {
                    n == o
                }
            } else {
                let mlen = manifest_len(o);
                if o.selected_project_manifest is Some && mlen > 0 {
                    n == (AppState {
                        selected_manifest_package: n.selected_manifest_package,
                        ..o
                    }) && n.selected_manifest_package as int == (if o.selected_manifest_package
                        + 1 <= mlen - 1 {
                        o.selected_manifest_package + 1
                    } else {
                        mlen - 1
                    })
                } else {
                    n == o
                }
            })
        } else if c == 'k' {
            effects.len() == 0 && (if o.manage_focus_available {
                n == (AppState {
                    selected_available_package: if o.selected_available_package == 0 {
                        0usize
                    } else {
                        (o.selected_available_package - 1) as usize
                    },
                    ..o
                })
            } else {
                n == (AppState {
                    selected_manifest_package: if o.selected_manifest_package == 0 {
                        0usize
                    } else {
                        (o.selected_manifest_package - 1) as usize
                    },
                    ..o
                })
            })
        } else if c == '+' || c == '=' || c == ':' || c == '\u{ff0b}' || c == 'a' {
            install_avail_post(o, n, effects)
        } else if c == '-' || c == '_' || c == '\u{ff0d}' || c == 'x' {
            remove_avail_post(o, n, effects, false)
        } else if c == 'u' {
            update_installed_post(o, n, effects)
        } else if c == 'U' {
            update_sdk_post(o, n, effects)
        } else if c == 'd' {
            remove_installed_post(o, n, effects, false)
        } else if c == 'D' {
            remove_installed_post(o, n, effects, true)
        } else if c == 'v' {
            resolve_project_post(o, n, effects)
        } else {
            effects.len() == 0 && n == o
        },
        _ => effects.len() == 0 && n == o,
    }
}

/// Install the selected available package into the selected project.
pub open spec fn install_avail_post(o: AppState, n: AppState, effects: Seq<Effect>) -> bool {
    if o.selected_project >= o.projects@.len() {
        no_project_post(o, n, effects)
    } else if o.selected_available_package >= filtered_available_model(
        o.available_packages.deep_view(),
        o.available_package_search@,
    ).len() {
        effects.len() == 0 && n == (AppState { status_line: n.status_line, ..o })
            && n.status_line@ == "No available package selected"@
    } else {
        let path = o.projects@[o.selected_project as int].deep_view().path;
        let pkg = filtered_available_model(
            o.available_packages.deep_view(),
            o.available_package_search@,
        )[o.selected_available_package as int].id;
        manage_task_post(
            o,
            n,
            effects,
            "vpm add package "@ + pkg,
            seq!["add"@, "package"@, pkg, "-p"@, path],
        )
    }
}

/// Remove the selected available package from the selected project.
pub open spec fn remove_avail_post(o: AppState, n: AppState, effects: Seq<Effect>, force: bool) -> bool {
    if o.selected_project >= o.projects@.len() {
        no_project_post(o, n, effects)
    } else if o.selected_available_package >= filtered_available_model(
        o.available_packages.deep_view(),
        o.available_package_search@,
    ).len() {
        effects.len() == 0 && n == (AppState { status_line: n.status_line, ..o })
            && n.status_line@ == "No available package selected"@
    } else {
        let path = o.projects@[o.selected_project as int].deep_view().path;
        let pkg = filtered_available_model(
            o.available_packages.deep_view(),
            o.available_package_search@,
        )[o.selected_available_package as int].id;
        if force {
            manage_task_post(
                o,
                n,
                effects,
                "vpm remove package "@ + pkg + " --force"@,
                seq!["remove"@, "package"@, pkg, "-p"@, path, "--force"@],
            )
        } else {
            manage_task_post(
                o,
                n,
                effects,
                "vpm remove package "@ + pkg,
                seq!["remove"@, "package"@, pkg, "-p"@, path],
            )
        }
    }
}

/// Update the selected installed package in the selected project.
pub open spec fn update_installed_post(o: AppState, n: AppState, effects: Seq<Effect>) -> bool {
    if o.selected_project >= o.projects@.len() {
        no_project_post(o, n, effects)
    } else if o.selected_manifest_package >= manifest_len(o) {
        effects.len() == 0 && n == (AppState { status_line: n.status_line, ..o })
            && n.status_line@ == "No installed package selected"@
    } else {
        let path = o.projects@[o.selected_project as int].deep_view().path;
        let pkg = (o.selected_project_manifest->0).packages@[o.selected_manifest_package as int].deep_view().name;
        manage_task_post(
            o,
            n,
            effects,
            "vpm add package "@ + pkg + " (update)"@,
            seq!["add"@, "package"@, pkg, "-p"@, path],
        )
    }
}

/// Remove the selected installed package from the selected project.
pub open spec fn remove_installed_post(o: AppState, n: AppState, effects: Seq<Effect>, force: bool) -> bool {
    if o.selected_project >= o.projects@.len() {
        no_project_post(o, n, effects)
    } else if o.selected_manifest_package >= manifest_len(o) {
        effects.len() == 0 && n == (AppState { status_line: n.status_line, ..o })
            && n.status_line@ == "No installed package selected"@
    } else {
        let path = o.projects@[o.selected_project as int].deep_view().path;
        let pkg = (o.selected_project_manifest->0).packages@[o.selected_manifest_package as int].deep_view().name;
        if force {
            manage_task_post(
                o,
                n,
                effects,
                "vpm remove package "@ + pkg + " --force"@,
                seq!["remove"@, "package"@, pkg, "-p"@, path, "--force"@],
            )
        } else {
            manage_task_post(
                o,
                n,
                effects,
                "vpm remove package "@ + pkg,
                seq!["remove"@, "package"@, pkg, "-p"@, path],
            )
        }
    }
}

/// Update whichever VRChat SDK package the manifest holds.
pub open spec fn update_sdk_post(o: AppState, n: AppState, effects: Seq<Effect>) -> bool {
    if o.selected_project >= o.projects@.len() {
        no_project_post(o, n, effects)
    } else if o.selected_project_manifest is None {
        effects.len() == 0 && n == (AppState { status_line: n.status_line, ..o })
            && n.status_line@ == "Manifest is not loaded"@
    } else {
        let packages = (o.selected_project_manifest->0).packages.deep_view();
        let path = o.projects@[o.selected_project as int].deep_view().path;
        if has_pkg(packages, "com.vrchat.avatars"@) {
            manage_task_post(
                o,
                n,
                effects,
                "vpm add package com.vrchat.avatars (sdk update)"@,
                seq!["add"@, "package"@, "com.vrchat.avatars"@, "-p"@, path],
            )
        } else if has_pkg(packages, "com.vrchat.worlds"@) {
            manage_task_post(
                o,
                n,
                effects,
                "vpm add package com.vrchat.worlds (sdk update)"@,
                seq!["add"@, "package"@, "com.vrchat.worlds"@, "-p"@, path],
            )
        } else {
            effects.len() == 0 && n == (AppState { status_line: n.status_line, ..o })
                && n.status_line@ == "No VRChat SDK package found in project"@
        }
    }
}

/// Resolve the selected project.
pub open spec fn resolve_project_post(o: AppState, n: AppState, effects: Seq<Effect>) -> bool {
    if o.selected_project >= o.projects@.len() {
        no_project_post(o, n, effects)
    } else {
        let path = o.projects@[o.selected_project as int].deep_view().path;
        manage_task_post(
            o,
            n,
            effects,
            "vpm resolve project "@ + path,
            seq!["resolve"@, "project"@, path],
        )
    }
}

/// The Settings screen: the environment tasks, the repository shortcuts,
/// the tool install/update (guarded by the dotnet check), and `c`, which
/// emits a cancellation for the most-recently-started running task without
/// touching any record — cancellation is signalled, not applied, here.
pub open spec fn settings_key_post(o: AppState, n: AppState, key: KeyPress, effects: Seq<
    Effect,
>) -> bool {
    match key.code {
        KeyCode::Char(c) => if c == 't' {
            effects.len() == 1 && task_admitted(
                o,
                n,
                "vpm install templates"@,
                "vpm"@,
                seq!["install"@, "templates"@],
                None,
                None,
                effects[0],
            )
        } else if c == 'h' {
            effects.len() == 1 && task_admitted(
                o,
                n,
                "vpm check hub"@,
                "vpm"@,
                seq!["check"@, "hub"@],
                None,
                None,
                effects[0],
            )
        } else if c == 'u' {
            effects.len() == 1 && task_admitted(
                o,
                n,
                "vpm check unity"@,
                "vpm"@,
                seq!["check"@, "unity"@],
                None,
                None,
                effects[0],
            )
        } else if c == 'l' {
            effects.len() == 1 && task_admitted(
                o,
                n,
                "vpm list unity"@,
                "vpm"@,
                seq!["list"@, "unity"@],
                None,
                None,
                effects[0],
            )
        } else if c == 's' {
            effects.len() == 1 && task_admitted(
                o,
                n,
                "vpm open settingsFolder"@,
                "vpm"@,
                seq!["open"@, "settingsFolder"@],
                None,
                None,
                effects[0],
            )
        } else if c == '1' {
            effects.len() == 1 && task_admitted(
                o,
                n,
                "vpm add repo https://vpm.nadena.dev/vpm.json"@,
                "vpm"@,
                seq!["add"@, "repo"@, "https://vpm.nadena.dev/vpm.json"@],
                None,
                None,
                effects[0],
            )
        } else if c == '2' {
            effects.len() == 1 && task_admitted(
                o,
                n,
                "vpm add repo https://lilxyzw.github.io/vpm-repos/vpm.json"@,
                "vpm"@,
                seq!["add"@, "repo"@, "https://lilxyzw.github.io/vpm-repos/vpm.json"@],
                None,
                None,
                effects[0],
            )
        } else if c == 'a' {
            effects.len() == 0 && n == (AppState {
                add_repo_mode: true,
                add_repo_input: n.add_repo_input,
                ..o
            }) && n.add_repo_input@ == Seq::<char>::empty()
        } else if c == 'r' {
            effects.len() == 1 && task_admitted(
                o,
                n,
                "vpm list repos"@,
                "vpm"@,
                seq!["list"@, "repos"@],
                None,
                None,
                effects[0],
            )
        } else if c == 'i' {
            if dotnet_missing(o) {
                effects.len() == 0 && n == (AppState { status_line: n.status_line, ..o })
                    && n.status_line@
                    == "dotnet required. Install .NET 8 SDK: https://dotnet.microsoft.com/download/dotnet/8.0"@
            } else {
                effects.len() == 1 && task_admitted(
                    o,
                    n,
                    "dotnet tool install vpm"@,
                    "dotnet"@,
                    seq!["tool"@, "install"@, "--global"@, "vrchat.vpm.cli"@],
                    None,
                    None,
                    effects[0],
                )
            }
        } else if c == 'p' {
            if dotnet_missing(o) {
                effects.len() == 0 && n == (AppState { status_line: n.status_line, ..o })
                    && n.status_line@
                    == "dotnet required. Install .NET 8 SDK: https://dotnet.microsoft.com/download/dotnet/8.0"@
            } else {
                effects.len() == 1 && task_admitted(
                    o,
                    n,
                    "dotnet tool update vpm"@,
                    "dotnet"@,
                    seq!["tool"@, "update"@, "--global"@, "vrchat.vpm.cli"@],
                    None,
                    None,
                    effects[0],
                )
            }
        } else if c == 'c' {
            &&& n == o
            &&& (if last_running_index(o.tasks@) >= 0 {
                effects.len() == 1 && effects[0] == (Effect::CancelTask {
                    task_id: o.tasks@[last_running_index(o.tasks@)].id,
                })
            } else {
                effects.len() == 0
            })
        } else {
            effects.len() == 0 && n == o
        },
        _ => effects.len() == 0 && n == o,
    }
}

/// The dotnet runtime was found missing by the version check.
pub open spec fn dotnet_missing(o: AppState) -> bool {
    o.system_checks.dotnet_version matches Some(d) && d@ == "not installed"@
}

/// The whole key transition: Ctrl-C always quits; an active input-capture
/// mode takes the key first, in the fixed priority order; then the global
/// keys (`q` quits, Tab/arrows switch screens and scroll the log); then the
/// active screen's handler.
pub open spec fn key_post(o: AppState, n: AppState, key: KeyPress, effects: Seq<Effect>) -> bool {
    if key.ctrl && key.code == KeyCode::Char('c') {
        effects.len() == 0 && n == (AppState { should_quit: true, ..o })
    } else if o.add_project_mode {
        add_project_input_post(o, n, key, effects)
    } else if o.add_folder_mode {
        add_folder_input_post(o, n, key, effects)
    } else if o.search_mode {
        search_input_post(o, n, key, effects)
    } else if o.add_repo_mode {
        add_repo_input_post(o, n, key, effects)
    } else if o.add_package_mode {
        add_package_input_post(o, n, key, effects)
    } else if o.available_package_search_mode {
        avail_search_input_post(o, n, key, effects)
    } else if o.new_project_mode {
        new_project_input_post(o, n, key, effects)
    } else {
        match key.code {
            KeyCode::Char(c) => if c == 'q' {
                effects.len() == 0 && n == (AppState { should_quit: true, ..o })
            } else {
                screen_key_post(o, n, key, effects)
            },
            KeyCode::Tab => effects.len() == 0 && n == (AppState {
                screen: next_screen(o.screen),
                ..o
            }),
            KeyCode::Right => effects.len() == 0 && n == (AppState {
                screen: next_screen(o.screen),
                ..o
            }),
            KeyCode::Left => effects.len() == 0 && n == (AppState {
                screen: prev_screen(o.screen),
                ..o
            }),
            KeyCode::Up => effects.len() == 0 && n == (AppState {
                log_scroll: if o.log_scroll == 0 {
                    0u16
                } else {
                    (o.log_scroll - 1) as u16
                },
                ..o
            }),
            KeyCode::Down => effects.len() == 0 && n == (AppState {
                log_scroll: scrolled_down(o),
                ..o
            }),
            _ => screen_key_post(o, n, key, effects),
        }
    }
}

/// The screen after the given one in tab order.
pub open spec fn next_screen(s: Screen) -> Screen {
    match s {
        Screen::New => Screen::Add,
        Screen::Add => Screen::Projects,
        Screen::Projects => Screen::Manage,
        Screen::Manage => Screen::Settings,
        Screen::Settings => Screen::New,
    }
}

/// The screen before the given one in tab order.
pub open spec fn prev_screen(s: Screen) -> Screen {
    match s {
        Screen::New => Screen::Settings,
        Screen::Add => Screen::New,
        Screen::Projects => Screen::Add,
        Screen::Manage => Screen::Projects,
        Screen::Settings => Screen::Manage,
    }
}

/// The log scroll after a Down key: one step down, clamped to the last
/// line.
pub open spec fn scrolled_down(o: AppState) -> u16 {
    let max_scroll = if o.logs@.len() == 0 {
        0int
    } else {
        o.logs@.len() - 1
    };
    let stepped = if o.log_scroll == u16::MAX {
        o.log_scroll as int
    } else {
        o.log_scroll + 1
    };
    if stepped <= max_scroll {
        stepped as u16
    } else {
        max_scroll as u16
    }
}

/// Dispatch to the active screen's handler.
pub open spec fn screen_key_post(o: AppState, n: AppState, key: KeyPress, effects: Seq<
    Effect,
>) -> bool {
    match o.screen {
        Screen::New => new_key_post(o, n, key, effects),
        Screen::Add => add_key_post(o, n, key, effects),
        Screen::Projects => projects_key_post(o, n, key, effects),
        Screen::Manage => manage_key_post(o, n, key, effects),
        Screen::Settings => settings_key_post(o, n, key, effects),
    }
}

/// Every key handler's common guarantees: the invariant and the filtered
/// selection are preserved (below id saturation), ids are never reused.
pub open spec fn key_guarantees(o: AppState, n: AppState) -> bool {
    engine_guarantees(o, n)
}

/// The search-input mode handler; see [`search_input_post`].
fn on_search_input(state: &mut AppState, key: KeyPress) -> (effects: Vec<Effect>)
    requires
        old(state).inv(),
    ensures
        engine_guarantees(*old(state), *final(state)),
        search_input_post(*old(state), *final(state), key, effects@),
{
    match key.code {
        KeyCode::Esc => { state.search_mode = false },
        KeyCode::Enter => { state.search_mode = false },
        KeyCode::Backspace => { state.search_query.pop(); },
        KeyCode::Char(c) => {
            if !key.ctrl {
                state.search_query.push(c);
            }
        },
        _ => {},
    }
    proof {
        lemma_inv_unchanged(*old(state), *state);
        if old(state).avail_sel_inv() {
            lemma_avail_frame(*old(state), *state);
        }
    }
    Vec::new()
}

/// The available-package search mode handler; see
/// [`avail_search_input_post`].
fn on_available_package_search_input(state: &mut AppState, key: KeyPress) -> (effects: Vec<Effect>)
    requires
        old(state).inv(),
    ensures
        engine_guarantees(*old(state), *final(state)),
        avail_search_input_post(*old(state), *final(state), key, effects@),
{
    match key.code {
        KeyCode::Esc => { state.available_package_search_mode = false },
        KeyCode::Enter => { state.available_package_search_mode = false },
        KeyCode::Backspace => {
            state.available_package_search.pop();
            state.selected_available_package_clamped();
        },
        KeyCode::Char(c) => {
            if !key.ctrl {
                state.available_package_search.push(c);
                state.selected_available_package_clamped();
            }
        },
        _ => {},
    }
    proof {
        let o = *old(state);
        let n = *state;
        assert(manifest_len(n) == manifest_len(o));
        let clamped = match key.code {
            KeyCode::Backspace => true,
            KeyCode::Char(c) => !key.ctrl,
            _ => false,
        };
        if clamped {
            let flen = filtered_available_model(
                n.available_packages.deep_view(),
                n.available_package_search@,
            ).len();
            if n.available_package_search@.len() > 0 {
                n.available_packages.deep_view().lemma_filter_len(
                    crate::state::available_pred(n.available_package_search@),
                );
            }
            assert(flen <= n.available_packages.deep_view().len());
            assert(n.inv());
            assert(n.avail_sel_inv());
        } else {
            assert(n.inv());
            if o.avail_sel_inv() {
                lemma_avail_frame(o, n);
            }
        }
    }
    Vec::new()
}

/// Append an accepted project path; see [`add_project_commit_post`].
#[verifier::rlimit(100)]
#[verifier::spinoff_prover]
fn commit_added_project(state: &mut AppState, input: String) -> (effects: Vec<Effect>)
    requires
        old(state).inv(),
    ensures
        engine_guarantees(*old(state), *final(state)),
        add_project_commit_post(*old(state), *final(state), input@, effects@),
{
    let display_name = file_name_of(input.as_str());
    let path_for_effect = input.clone();
    let ghost prev = state.projects.deep_view();
    state.projects.push(
        ProjectMeta { path: input, display_name, tags: Vec::new(), last_opened: None },
    );
    proof {
        assert(state.projects.deep_view() =~~= prev.push(scanned_project(input@)));
    }
    state.selected_project = state.projects.len() - 1;
    state.add_project_mode = false;
    state.add_project_input.clear();
    state.status_line = "Project added".to_owned();
    let mut effects: Vec<Effect> = Vec::new();
    effects.push(
        Effect::SaveConfig(
            AppConfig { projects: crate::reducer::clone_projects_list(&state.projects) },
        ),
    );
    effects.push(Effect::ReadManifest { project_path: path_for_effect });
    proof {
        assert(manifest_len(*state) == manifest_len(*old(state)));
    }
    effects
}

/// The add-project input mode handler; see [`add_project_input_post`].
#[verifier::rlimit(100)]
#[verifier::spinoff_prover]
fn on_add_project_input(state: &mut AppState, key: KeyPress) -> (effects: Vec<Effect>)
    requires
        old(state).inv(),
    ensures
        engine_guarantees(*old(state), *final(state)),
        add_project_input_post(*old(state), *final(state), key, effects@),
{
    match key.code {
        KeyCode::Esc => {
            state.add_project_mode = false;
            state.add_project_input.clear();
            Vec::new()
        },
        KeyCode::Backspace => {
            state.add_project_input.pop();
            Vec::new()
        },
        KeyCode::Enter => {
            let input = trim(state.add_project_input.as_str()).to_owned();
            if input.as_str().is_empty() {
                state.status_line = "Project path is empty".to_owned();
                return Vec::new();
            }
            if crate::reducer::has_project_path_exec(&state.projects, input.as_str()) {
                state.status_line = "Project already exists".to_owned();
                state.add_project_mode = false;
                state.add_project_input.clear();
                return Vec::new();
            }
            commit_added_project(state, input)
        },
        KeyCode::Char(c) => {
            if !key.ctrl {
                state.add_project_input.push(c);
            }
            Vec::new()
        },
        _ => Vec::new(),
    }
}

/// The add-folder input mode handler; see [`add_folder_input_post`].
fn on_add_folder_input(state: &mut AppState, key: KeyPress) -> (effects: Vec<Effect>)
    requires
        old(state).inv(),
    ensures
        engine_guarantees(*old(state), *final(state)),
        add_folder_input_post(*old(state), *final(state), key, effects@),
{
    match key.code {
        KeyCode::Esc => {
            state.add_folder_mode = false;
            state.add_folder_input.clear();
            Vec::new()
        },
        KeyCode::Backspace => {
            state.add_folder_input.pop();
            Vec::new()
        },
        KeyCode::Enter => {
            let root = trim(state.add_folder_input.as_str()).to_owned();
            if root.as_str().is_empty() {
                state.status_line = "Folder path is empty".to_owned();
                return Vec::new();
            }
            state.add_folder_mode = false;
            state.add_folder_input.clear();
            let mut effects: Vec<Effect> = Vec::new();
            effects.push(Effect::ScanProjectsFolder { root });
            effects
        },
        KeyCode::Char(c) => {
            if !key.ctrl {
                state.add_folder_input.push(c);
            }
            Vec::new()
        },
        _ => Vec::new(),
    }
}

/// The add-repository input mode handler; see [`add_repo_input_post`].
#[verifier::rlimit(100)]
#[verifier::spinoff_prover]
fn on_add_repo_input(state: &mut AppState, key: KeyPress) -> (effects: Vec<Effect>)
    requires
        old(state).inv(),
    ensures
        engine_guarantees(*old(state), *final(state)),
        add_repo_input_post(*old(state), *final(state), key, effects@),
{
    match key.code {
        KeyCode::Esc => {
            state.add_repo_mode = false;
            state.add_repo_input.clear();
            Vec::new()
        },
        KeyCode::Backspace => {
            state.add_repo_input.pop();
            Vec::new()
        },
        KeyCode::Enter => {
            let repo = trim(state.add_repo_input.as_str()).to_owned();
            if repo.as_str().is_empty() {
                state.status_line = "Repo URL is empty".to_owned();
                return Vec::new();
            }
            state.add_repo_mode = false;
            state.add_repo_input.clear();
            let ghost mid = *state;
            let label = crate::textutil::concat2("vpm add repo ", repo.as_str());
            let mut args: Vec<String> = Vec::new();
            args.push("add".to_owned());
            args.push("repo".to_owned());
            let ghost repov = repo@;
            args.push(repo);
            proof {
                assert(args.deep_view() =~= seq![
                    "add"@,
                    "repo"@,
                    trim_of(old(state).add_repo_input@),
                ]);
                assert(mid.inv()) by {
                    lemma_inv_unchanged(*old(state), mid);
                };
            }
            let e = enqueue_project_task(state, label, args, None, None);
            let mut effects: Vec<Effect> = Vec::new();
            effects.push(e);
            proof {
                assert(cleared_repo_mode(*old(state), mid));
                assert(task_admitted(
                    mid,
                    *state,
                    "vpm add repo "@ + trim_of(old(state).add_repo_input@),
                    "vpm"@,
                    seq!["add"@, "repo"@, trim_of(old(state).add_repo_input@)],
                    None,
                    None,
                    effects@[0],
                ));
                lemma_admission_preserves(
                    mid,
                    *state,
                    "vpm add repo "@ + trim_of(old(state).add_repo_input@),
                    "vpm"@,
                    seq!["add"@, "repo"@, trim_of(old(state).add_repo_input@)],
                    None,
                    None,
                    effects@[0],
                );
            }
            effects
        },
        KeyCode::Char(c) => {
            if !key.ctrl {
                state.add_repo_input.push(c);
            }
            Vec::new()
        },
        _ => Vec::new(),
    }
}

/// The add-package input mode handler; see [`add_package_input_post`].
#[verifier::rlimit(100)]
#[verifier::spinoff_prover]
fn on_add_package_input(state: &mut AppState, key: KeyPress) -> (effects: Vec<Effect>)
    requires
        old(state).inv(),
    ensures
        engine_guarantees(*old(state), *final(state)),
        add_package_input_post(*old(state), *final(state), key, effects@),
{
    match key.code {
        KeyCode::Esc => {
            state.add_package_mode = false;
            state.add_package_input.clear();
            Vec::new()
        },
        KeyCode::Backspace => {
            state.add_package_input.pop();
            Vec::new()
        },
        KeyCode::Enter => {
            let package = trim(state.add_package_input.as_str()).to_owned();
            if package.as_str().is_empty() {
                state.status_line = "Package name is empty".to_owned();
                return Vec::new();
            }
            let mut project_path: Option<String> = None;
            match state.selected_project() {
                Some(p) => { project_path = Some(p.path.clone()) },
                None => {},
            }
            match project_path {
                Some(path) => {
                    state.add_package_mode = false;
                    state.add_package_input.clear();
                    let ghost mid = *state;
                    let ghost packv = trim_of(old(state).add_package_input@);
                    let ghost pathv = old(state).projects@[old(
                        state,
                    ).selected_project as int].deep_view().path;
                    let label = crate::textutil::concat2("vpm add package ", package.as_str());
                    let mut args: Vec<String> = Vec::new();
                    args.push("add".to_owned());
                    args.push("package".to_owned());
                    args.push(package);
                    args.push("-p".to_owned());
                    args.push(path.clone());
                    proof {
                        assert(args.deep_view() =~= seq![
                            "add"@,
                            "package"@,
                            packv,
                            "-p"@,
                            pathv,
                        ]);
                        lemma_inv_unchanged(*old(state), mid);
                    }
                    let e = enqueue_project_task(state, label, args, Some(path), None);
                    let mut effects: Vec<Effect> = Vec::new();
                    effects.push(e);
                    proof {
                        assert(cleared_package_mode(*old(state), mid));
                        assert(task_admitted(
                            mid,
                            *state,
                            "vpm add package "@ + packv,
                            "vpm"@,
                            seq!["add"@, "package"@, packv, "-p"@, pathv],
                            Some(pathv),
                            None,
                            effects@[0],
                        ));
                        lemma_admission_preserves(
                            mid,
                            *state,
                            "vpm add package "@ + packv,
                            "vpm"@,
                            seq!["add"@, "package"@, packv, "-p"@, pathv],
                            Some(pathv),
                            None,
                            effects@[0],
                        );
                    }
                    effects
                },
                None => {
                    state.status_line = "No project selected".to_owned();
                    Vec::new()
                },
            }
        },
        KeyCode::Char(c) => {
            if !key.ctrl {
                state.add_package_input.push(c);
            }
            Vec::new()
        },
        _ => Vec::new(),
    }
}

/// The new-project input mode handler; see [`new_project_input_post`].
#[verifier::rlimit(100)]
#[verifier::spinoff_prover]
fn on_new_project_input(state: &mut AppState, key: KeyPress) -> (effects: Vec<Effect>)
    requires
        old(state).inv(),
    ensures
        engine_guarantees(*old(state), *final(state)),
        new_project_input_post(*old(state), *final(state), key, effects@),
{
    match key.code {
        KeyCode::Esc => {
            state.new_project_mode = false;
            Vec::new()
        },
        KeyCode::Tab => {
            state.new_project_edit_path = !state.new_project_edit_path;
            Vec::new()
        },
        KeyCode::Backspace => {
            if state.new_project_edit_path {
                state.new_project_path_input.pop();
            } else {
                state.new_project_name_input.pop();
            }
            Vec::new()
        },
        KeyCode::Enter => {
            let name = trim(state.new_project_name_input.as_str()).to_owned();
            let path = trim(state.new_project_path_input.as_str()).to_owned();
            if name.as_str().is_empty() || path.as_str().is_empty() {
                state.status_line = "Project name/path is required".to_owned();
                return Vec::new();
            }
            let template = state.current_template().to_owned();
            let project_root = join_path(path.as_str(), name.as_str());
            state.new_project_mode = false;
            state.new_project_name_input.clear();
            state.new_project_path_input.clear();
            state.screen = Screen::Projects;
            let ghost mid = *state;
            let ghost namev = trim_of(old(state).new_project_name_input@);
            let ghost pathv = trim_of(old(state).new_project_path_input@);
            let ghost templv = template_name(old(state).new_project_template_idx as int);
            let ghost rootv = join_path_model(pathv, namev);
            let pending_project = ProjectMeta {
                path: project_root.clone(),
                display_name: name.clone(),
                tags: Vec::new(),
                last_opened: None,
            };
            let part = crate::textutil::concat4("vpm new ", name.as_str(), " ", template.as_str());
            let label = crate::textutil::concat3(part.as_str(), " -p ", path.as_str());
            let mut args: Vec<String> = Vec::new();
            args.push("new".to_owned());
            args.push(name);
            args.push(template);
            args.push("-p".to_owned());
            args.push(path);
            proof {
                assert(args.deep_view() =~= seq!["new"@, namev, templv, "-p"@, pathv]);
                lemma_inv_unchanged(*old(state), mid);
                assert(pending_project.deep_view() =~~= (crate::state::ProjectMetaV {
                    path: rootv,
                    display_name: namev,
                    tags: Seq::empty(),
                    last_opened: None,
                }));
            }
            let e = enqueue_project_task(
                state,
                label,
                args,
                Some(project_root),
                Some(pending_project),
            );
            let mut effects: Vec<Effect> = Vec::new();
            effects.push(e);
            proof {
                assert(cleared_new_project_mode(*old(state), mid));
                assert(task_admitted(
                    mid,
                    *state,
                    "vpm new "@ + namev + " "@ + templv + " -p "@ + pathv,
                    "vpm"@,
                    seq!["new"@, namev, templv, "-p"@, pathv],
                    Some(rootv),
                    Some(
                        crate::state::ProjectMetaV {
                            path: rootv,
                            display_name: namev,
                            tags: Seq::empty(),
                            last_opened: None,
                        },
                    ),
                    effects@[0],
                ));
                lemma_admission_preserves(
                    mid,
                    *state,
                    "vpm new "@ + namev + " "@ + templv + " -p "@ + pathv,
                    "vpm"@,
                    seq!["new"@, namev, templv, "-p"@, pathv],
                    Some(rootv),
                    Some(
                        crate::state::ProjectMetaV {
                            path: rootv,
                            display_name: namev,
                            tags: Seq::empty(),
                            last_opened: None,
                        },
                    ),
                    effects@[0],
                );
            }
            effects
        },
        KeyCode::Char(c) => {
            if !key.ctrl {
                if state.new_project_edit_path {
                    state.new_project_path_input.push(c);
                } else {
                    state.new_project_name_input.push(c);
                }
            }
            Vec::new()
        },
        _ => Vec::new(),
    }
}

/// Admit a package-tool task against the selected project; the shared body
/// of the Manage-screen operations.
#[verifier::rlimit(100)]
#[verifier::spinoff_prover]
fn launch_manage_task(
    state: &mut AppState,
    label: String,
    args: Vec<String>,
    path: String,
) -> (effects: Vec<Effect>)
    requires
        old(state).inv(),
    ensures
        engine_guarantees(*old(state), *final(state)),
        ({
            let e = effects@;
            e.len() == 1 && task_admitted(
                *old(state),
                *final(state),
                label@,
                "vpm"@,
                args.deep_view(),
                Some(path@),
                None,
                e[0],
            )
        }),
{
    let ghost pathv = path@;
    let e = enqueue_project_task(state, label, args, Some(path), None);
    let mut effects: Vec<Effect> = Vec::new();
    effects.push(e);
    proof {
        lemma_admission_preserves(
            *old(state),
            *state,
            label@,
            "vpm"@,
            args.deep_view(),
            Some(pathv),
            None,
            effects@[0],
        );
    }
    effects
}

/// The New screen handler; see [`new_key_post`].
#[verifier::rlimit(100)]
#[verifier::spinoff_prover]
fn on_new_key(state: &mut AppState, key: KeyPress) -> (effects: Vec<Effect>)
    requires
        old(state).inv(),
    ensures
        engine_guarantees(*old(state), *final(state)),
        new_key_post(*old(state), *final(state), key, effects@),
{
    match key.code {
        KeyCode::Char(c) => {
            if c == 'j' {
                if state.new_project_template_idx + 1 <= 2 {
                    state.new_project_template_idx = state.new_project_template_idx + 1;
                } else {
                    state.new_project_template_idx = 2;
                }
            } else if c == 'k' {
                if state.new_project_template_idx > 0 {
                    state.new_project_template_idx = state.new_project_template_idx - 1;
                }
            } else if c == 'n' {
                state.new_project_mode = true;
                state.new_project_edit_path = false;
            }
        },
        _ => {},
    }
    proof {
        assert(manifest_len(*state) == manifest_len(*old(state)));
        assert(state.inv());
        if old(state).avail_sel_inv() {
            lemma_avail_frame(*old(state), *state);
        }
    }
    Vec::new()
}

/// The Add screen handler; see [`add_key_post`].
fn on_add_key(state: &mut AppState, key: KeyPress) -> (effects: Vec<Effect>)
    requires
        old(state).inv(),
    ensures
        engine_guarantees(*old(state), *final(state)),
        add_key_post(*old(state), *final(state), key, effects@),
{
    match key.code {
        KeyCode::Char(c) => {
            if c == 'a' {
                state.add_project_mode = true;
                state.add_project_input.clear();
            } else if c == 'f' {
                state.add_folder_mode = true;
                state.add_folder_input.clear();
            }
        },
        _ => {},
    }
    proof {
        lemma_inv_unchanged(*old(state), *state);
        if old(state).avail_sel_inv() {
            lemma_avail_frame(*old(state), *state);
        }
    }
    Vec::new()
}

/// The Projects screen handler; see [`projects_key_post`].
#[verifier::rlimit(100)]
#[verifier::spinoff_prover]
fn on_projects_key(state: &mut AppState, key: KeyPress) -> (effects: Vec<Effect>)
    requires
        old(state).inv(),
    ensures
        engine_guarantees(*old(state), *final(state)),
        projects_key_post(*old(state), *final(state), key, effects@),
{
    match key.code {
        KeyCode::Char(c) => {
            if c == '/' {
                state.search_mode = true;
            } else if c == 'a' {
                state.screen = Screen::Add;
            } else if c == 'j' {
                let len = state.filtered_projects().len();
                if len > 0 {
                    if state.selected_project < len - 1 {
                        state.selected_project = state.selected_project + 1;
                    } else {
                        state.selected_project = len - 1;
                    }
                    proof {
                        if old(state).search_query@.len() > 0 {
                            old(state).projects.deep_view().lemma_filter_len(
                                crate::state::project_pred(old(state).search_query@),
                            );
                        }
                    }
                }
            } else if c == 'k' {
                if state.selected_project > 0 {
                    state.selected_project = state.selected_project - 1;
                }
            }
            proof {
                assert(manifest_len(*state) == manifest_len(*old(state)));
                if old(state).search_query@.len() > 0 {
                    old(state).projects.deep_view().lemma_filter_len(
                        crate::state::project_pred(old(state).search_query@),
                    );
                }
                assert(filtered_projects_model(
                    old(state).projects.deep_view(),
                    old(state).search_query@,
                ).len() <= old(state).projects@.len());
                assert(state.inv());
                if old(state).avail_sel_inv() {
                    lemma_avail_frame(*old(state), *state);
                }
            }
            Vec::new()
        },
        KeyCode::Enter => {
            state.screen = Screen::Manage;
            let mut manifest_path: Option<String> = None;
            match state.selected_project() {
                Some(p) => { manifest_path = Some(p.path.clone()) },
                None => {},
            }
            let mut effects: Vec<Effect> = Vec::new();
            match manifest_path {
                Some(path) => { effects.push(Effect::ReadManifest { project_path: path }) },
                None => {},
            }
            proof {
                lemma_inv_unchanged(*old(state), *state);
                if old(state).avail_sel_inv() {
                    lemma_avail_frame(*old(state), *state);
                }
            }
            effects
        },
        _ => Vec::new(),
    }
}

/// The Manage screen handler; see [`manage_key_post`].
#[verifier::rlimit(100)]
#[verifier::spinoff_prover]
fn on_manage_key(state: &mut AppState, key: KeyPress) -> (effects: Vec<Effect>)
    requires
        old(state).inv(),
    ensures
        engine_guarantees(*old(state), *final(state)),
        manage_key_post(*old(state), *final(state), key, effects@),
{
    match key.code {
        KeyCode::Char(c) => {
            if c == 'r' {
                let mut manifest_path: Option<String> = None;
                match state.selected_project() {
                    Some(p) => { manifest_path = Some(p.path.clone()) },
                    None => {},
                }
                let mut effects: Vec<Effect> = Vec::new();
                match manifest_path {
                    Some(path) => { effects.push(Effect::ReadManifest { project_path: path }) },
                    None => {},
                }
                effects
            } else if c == 'R' {
                let mut effects: Vec<Effect> = Vec::new();
                effects.push(Effect::LoadAvailablePackages);
                effects
            } else if c == '/' {
                state.available_package_search_mode = true;
                proof {
                    lemma_inv_unchanged(*old(state), *state);
                    if old(state).avail_sel_inv() {
                        lemma_avail_frame(*old(state), *state);
                    }
                }
                Vec::new()
            } else if c == 'h' {
                state.manage_focus_available = true;
                proof {
                    lemma_inv_unchanged(*old(state), *state);
                    if old(state).avail_sel_inv() {
                        lemma_avail_frame(*old(state), *state);
                    }
                }
                Vec::new()
            } else if c == 'l' {
                state.manage_focus_available = false;
                proof {
                    lemma_inv_unchanged(*old(state), *state);
                    if old(state).avail_sel_inv() {
                        lemma_avail_frame(*old(state), *state);
                    }
                }
                Vec::new()
            } else if c == 'i' {
                state.add_package_mode = true;
                state.add_package_input.clear();
                proof {
                    lemma_inv_unchanged(*old(state), *state);
                    if old(state).avail_sel_inv() {
                        lemma_avail_frame(*old(state), *state);
                    }
                }
                Vec::new()
            } else if c == 'j' {
                if state.manage_focus_available {
                    let len = state.filtered_available_packages().len();
                    if len > 0 {
                        if state.selected_available_package < len - 1 {
                            state.selected_available_package = state.selected_available_package
                                + 1;
                        } else {
                            state.selected_available_package = len - 1;
                        }
                        proof {
                            if old(state).available_package_search@.len() > 0 {
                                old(state).available_packages.deep_view().lemma_filter_len(
                                    crate::state::available_pred(
                                        old(state).available_package_search@,
                                    ),
                                );
                            }
                        }
                    }
                } else {
                    let mlen = match &state.selected_project_manifest {
                        Some(m) => m.packages.len(),
                        None => 0,
                    };
                    if mlen > 0 {
                        if state.selected_manifest_package < mlen - 1 {
                            state.selected_manifest_package = state.selected_manifest_package + 1;
                        } else {
                            state.selected_manifest_package = mlen - 1;
                        }
                    }
                }
                proof {
                    assert(manifest_len(*state) == manifest_len(*old(state)));
                }
                Vec::new()
            } else if c == 'k' {
                if state.manage_focus_available {
                    if state.selected_available_package > 0 {
                        state.selected_available_package = state.selected_available_package - 1;
                    }
                } else {
                    if state.selected_manifest_package > 0 {
                        state.selected_manifest_package = state.selected_manifest_package - 1;
                    }
                }
                proof {
                    assert(manifest_len(*state) == manifest_len(*old(state)));
                    if old(state).avail_sel_inv() {
                        assert(state.avail_sel_inv());
                    }
                }
                Vec::new()
            } else if c == '+' || c == '=' || c == ':' || c == '\u{ff0b}' || c == 'a' {
                install_selected_available_package(state)
            } else if c == '-' || c == '_' || c == '\u{ff0d}' || c == 'x' {
                remove_selected_available_package(state, false)
            } else if c == 'u' {
                update_selected_installed_package(state)
            } else if c == 'U' {
                update_vrchat_sdk_package(state)
            } else if c == 'd' {
                remove_selected_package(state, false)
            } else if c == 'D' {
                remove_selected_package(state, true)
            } else if c == 'v' {
                resolve_selected_project(state)
            } else {
                Vec::new()
            }
        },
        _ => Vec::new(),
    }
}

/// Install the selected available package; see [`install_avail_post`].
#[verifier::rlimit(100)]
#[verifier::spinoff_prover]
fn install_selected_available_package(state: &mut AppState) -> (effects: Vec<Effect>)
    requires
        old(state).inv(),
    ensures
        engine_guarantees(*old(state), *final(state)),
        install_avail_post(*old(state), *final(state), effects@),
{
    let mut project_path: Option<String> = None;
    match state.selected_project() {
        Some(p) => { project_path = Some(p.path.clone()) },
        None => {},
    }
    let path = match project_path {
        Some(p) => p,
        None => {
            state.status_line = "No project selected".to_owned();
            return Vec::new();
        },
    };
    let mut package_name: Option<String> = None;
    match state.selected_available_package() {
        Some(pkg) => { package_name = Some(pkg.id.clone()) },
        None => {},
    }
    let pkg = match package_name {
        Some(p) => p,
        None => {
            state.status_line = "No available package selected".to_owned();
            return Vec::new();
        },
    };
    let label = crate::textutil::concat2("vpm add package ", pkg.as_str());
    let ghost pkgv = pkg@;
    let ghost pathv = path@;
    let mut args: Vec<String> = Vec::new();
    args.push("add".to_owned());
    args.push("package".to_owned());
    args.push(pkg);
    args.push("-p".to_owned());
    args.push(path.clone());
    proof {
        assert(args.deep_view() =~= seq!["add"@, "package"@, pkgv, "-p"@, pathv]);
    }
    launch_manage_task(state, label, args, path)
}

/// Remove the selected available package; see [`remove_avail_post`].
#[verifier::rlimit(100)]
#[verifier::spinoff_prover]
fn remove_selected_available_package(state: &mut AppState, force: bool) -> (effects: Vec<Effect>)
    requires
        old(state).inv(),
    ensures
        engine_guarantees(*old(state), *final(state)),
        remove_avail_post(*old(state), *final(state), effects@, force),
{
    let mut project_path: Option<String> = None;
    match state.selected_project() {
        Some(p) => { project_path = Some(p.path.clone()) },
        None => {},
    }
    let path = match project_path {
        Some(p) => p,
        None => {
            state.status_line = "No project selected".to_owned();
            return Vec::new();
        },
    };
    let mut package_name: Option<String> = None;
    match state.selected_available_package() {
        Some(pkg) => { package_name = Some(pkg.id.clone()) },
        None => {},
    }
    let pkg = match package_name {
        Some(p) => p,
        None => {
            state.status_line = "No available package selected".to_owned();
            return Vec::new();
        },
    };
    let ghost pkgv = pkg@;
    let ghost pathv = path@;
    let mut args: Vec<String> = Vec::new();
    args.push("remove".to_owned());
    args.push("package".to_owned());
    args.push(pkg.clone());
    args.push("-p".to_owned());
    args.push(path.clone());
    if force {
        args.push("--force".to_owned());
        let part = crate::textutil::concat2("vpm remove package ", pkg.as_str());
        let label = crate::textutil::concat2(part.as_str(), " --force");
        proof {
            assert(args.deep_view() =~= seq![
                "remove"@,
                "package"@,
                pkgv,
                "-p"@,
                pathv,
                "--force"@,
            ]);
        }
        launch_manage_task(state, label, args, path)
    } else {
        let label = crate::textutil::concat2("vpm remove package ", pkg.as_str());
        proof {
            assert(args.deep_view() =~= seq!["remove"@, "package"@, pkgv, "-p"@, pathv]);
        }
        launch_manage_task(state, label, args, path)
    }
}

/// Update the selected installed package; see [`update_installed_post`].
#[verifier::rlimit(100)]
#[verifier::spinoff_prover]
fn update_selected_installed_package(state: &mut AppState) -> (effects: Vec<Effect>)
    requires
        old(state).inv(),
    ensures
        engine_guarantees(*old(state), *final(state)),
        update_installed_post(*old(state), *final(state), effects@),
{
    let mut project_path: Option<String> = None;
    match state.selected_project() {
        Some(p) => { project_path = Some(p.path.clone()) },
        None => {},
    }
    let path = match project_path {
        Some(p) => p,
        None => {
            state.status_line = "No project selected".to_owned();
            return Vec::new();
        },
    };
    let mut package_name: Option<String> = None;
    match state.selected_manifest_package() {
        Some(pkg) => { package_name = Some(pkg.name.clone()) },
        None => {},
    }
    let pkg = match package_name {
        Some(p) => p,
        None => {
            state.status_line = "No installed package selected".to_owned();
            return Vec::new();
        },
    };
    let part = crate::textutil::concat2("vpm add package ", pkg.as_str());
    let label = crate::textutil::concat2(part.as_str(), " (update)");
    let ghost pkgv = pkg@;
    let ghost pathv = path@;
    let mut args: Vec<String> = Vec::new();
    args.push("add".to_owned());
    args.push("package".to_owned());
    args.push(pkg);
    args.push("-p".to_owned());
    args.push(path.clone());
    proof {
        assert(args.deep_view() =~= seq!["add"@, "package"@, pkgv, "-p"@, pathv]);
    }
    launch_manage_task(state, label, args, path)
}

/// Remove the selected installed package; see [`remove_installed_post`].
#[verifier::rlimit(100)]
#[verifier::spinoff_prover]
fn remove_selected_package(state: &mut AppState, force: bool) -> (effects: Vec<Effect>)
    requires
        old(state).inv(),
    ensures
        engine_guarantees(*old(state), *final(state)),
        remove_installed_post(*old(state), *final(state), effects@, force),
{
    let mut project_path: Option<String> = None;
    match state.selected_project() {
        Some(p) => { project_path = Some(p.path.clone()) },
        None => {},
    }
    let path = match project_path {
        Some(p) => p,
        None => {
            state.status_line = "No project selected".to_owned();
            return Vec::new();
        },
    };
    let mut package_name: Option<String> = None;
    match state.selected_manifest_package() {
        Some(pkg) => { package_name = Some(pkg.name.clone()) },
        None => {},
    }
    let pkg = match package_name {
        Some(p) => p,
        None => {
            state.status_line = "No installed package selected".to_owned();
            return Vec::new();
        },
    };
    let ghost pkgv = pkg@;
    let ghost pathv = path@;
    let mut args: Vec<String> = Vec::new();
    args.push("remove".to_owned());
    args.push("package".to_owned());
    args.push(pkg.clone());
    args.push("-p".to_owned());
    args.push(path.clone());
    if force {
        args.push("--force".to_owned());
        let part = crate::textutil::concat2("vpm remove package ", pkg.as_str());
        let label = crate::textutil::concat2(part.as_str(), " --force");
        proof {
            assert(args.deep_view() =~= seq![
                "remove"@,
                "package"@,
                pkgv,
                "-p"@,
                pathv,
                "--force"@,
            ]);
        }
        launch_manage_task(state, label, args, path)
    } else {
        let label = crate::textutil::concat2("vpm remove package ", pkg.as_str());
        proof {
            assert(args.deep_view() =~= seq!["remove"@, "package"@, pkgv, "-p"@, pathv]);
        }
        launch_manage_task(state, label, args, path)
    }
}

/// Update whichever VRChat SDK package the manifest holds; see
/// [`update_sdk_post`].
#[verifier::rlimit(100)]
#[verifier::spinoff_prover]
fn update_vrchat_sdk_package(state: &mut AppState) -> (effects: Vec<Effect>)
    requires
        old(state).inv(),
    ensures
        engine_guarantees(*old(state), *final(state)),
        update_sdk_post(*old(state), *final(state), effects@),
{
    let mut project_path: Option<String> = None;
    match state.selected_project() {
        Some(p) => { project_path = Some(p.path.clone()) },
        None => {},
    }
    let path = match project_path {
        Some(p) => p,
        None => {
            state.status_line = "No project selected".to_owned();
            return Vec::new();
        },
    };
    let has_avatars: bool;
    let has_worlds: bool;
    match &state.selected_project_manifest {
        Some(m) => {
            has_avatars = manifest_has_package(m, "com.vrchat.avatars");
            has_worlds = manifest_has_package(m, "com.vrchat.worlds");
        },
        None => {
            state.status_line = "Manifest is not loaded".to_owned();
            return Vec::new();
        },
    }
    let ghost pathv = path@;
    if has_avatars {
        let mut args: Vec<String> = Vec::new();
        args.push("add".to_owned());
        args.push("package".to_owned());
        args.push("com.vrchat.avatars".to_owned());
        args.push("-p".to_owned());
        args.push(path.clone());
        proof {
            assert(args.deep_view() =~= seq![
                "add"@,
                "package"@,
                "com.vrchat.avatars"@,
                "-p"@,
                pathv,
            ]);
        }
        launch_manage_task(
            state,
            "vpm add package com.vrchat.avatars (sdk update)".to_owned(),
            args,
            path,
        )
    } else if has_worlds {
        let mut args: Vec<String> = Vec::new();
        args.push("add".to_owned());
        args.push("package".to_owned());
        args.push("com.vrchat.worlds".to_owned());
        args.push("-p".to_owned());
        args.push(path.clone());
        proof {
            assert(args.deep_view() =~= seq![
                "add"@,
                "package"@,
                "com.vrchat.worlds"@,
                "-p"@,
                pathv,
            ]);
        }
        launch_manage_task(
            state,
            "vpm add package com.vrchat.worlds (sdk update)".to_owned(),
            args,
            path,
        )
    } else {
        state.status_line = "No VRChat SDK package found in project".to_owned();
        Vec::new()
    }
}

/// Whether the manifest holds a package of the given name.
fn manifest_has_package(m: &crate::state::ManifestSummary, name: &str) -> (r: bool)
    ensures
        r == has_pkg(m.packages.deep_view(), name@),
{
    let mut i: usize = 0;
    while i < m.packages.len()
        invariant
            i <= m.packages@.len(),
            forall|j: int|
                0 <= j < i ==> (#[trigger] m.packages.deep_view()[j]).name != name@,
        decreases m.packages@.len() - i,
    {
        if str_eq(m.packages[i].name.as_str(), name) {
            proof {
                assert(m.packages.deep_view()[i as int].name == name@);
            }
            return true;
        }
        i += 1;
    }
    false
}

/// Resolve the selected project; see [`resolve_project_post`].
#[verifier::rlimit(100)]
#[verifier::spinoff_prover]
fn resolve_selected_project(state: &mut AppState) -> (effects: Vec<Effect>)
    requires
        old(state).inv(),
    ensures
        engine_guarantees(*old(state), *final(state)),
        resolve_project_post(*old(state), *final(state), effects@),
{
    let mut project_path: Option<String> = None;
    match state.selected_project() {
        Some(p) => { project_path = Some(p.path.clone()) },
        None => {},
    }
    let path = match project_path {
        Some(p) => p,
        None => {
            state.status_line = "No project selected".to_owned();
            return Vec::new();
        },
    };
    let label = crate::textutil::concat2("vpm resolve project ", path.as_str());
    let ghost pathv = path@;
    let mut args: Vec<String> = Vec::new();
    args.push("resolve".to_owned());
    args.push("project".to_owned());
    args.push(path.clone());
    proof {
        assert(args.deep_view() =~= seq!["resolve"@, "project"@, pathv]);
    }
    launch_manage_task(state, label, args, path)
}

} // verus!
