//! The dashboard state and its bookkeeping methods.
//!
//! [`AppState`] is the single value owned by the dispatch loop; it is mutated
//! only inside [`crate::reducer::reduce`].  Every data type carries a
//! `deep_view` model built from `Seq<char>` and plain values, and the
//! contracts of this crate speak over those models.

use vstd::prelude::*;

use crate::textutil::{is_substring, lower_of, lowercase, str_contains};

verus! {

/// Capacity of the bounded session log: past this many entries the oldest
/// are evicted first.
pub const MAX_LOG_LINES: usize = 1500;

/// The visual screens, in tab order.
#[derive(Debug, Clone, Copy, PartialEq, Eq, Structural)]
pub enum Screen {
    New,
    Add,
    Projects,
    Manage,
    Settings,
}

impl Screen {
    /// The screen after `self` in tab order (cyclic).
    pub fn next(self) -> (r: Self)
        ensures
            r == (match self {
                Screen::New => Screen::Add,
                Screen::Add => Screen::Projects,
                Screen::Projects => Screen::Manage,
                Screen::Manage => Screen::Settings,
                Screen::Settings => Screen::New,
            }),
    {
        match self {
            Self::New => Self::Add,
            Self::Add => Self::Projects,
            Self::Projects => Self::Manage,
            Self::Manage => Self::Settings,
            Self::Settings => Self::New,
        }
    }

    /// The screen before `self` in tab order (cyclic).
    pub fn prev(self) -> (r: Self)
        ensures
            r == (match self {
                Screen::New => Screen::Settings,
                Screen::Add => Screen::New,
                Screen::Projects => Screen::Add,
                Screen::Manage => Screen::Projects,
                Screen::Settings => Screen::Manage,
            }),
    {
        match self {
            Self::New => Self::Settings,
            Self::Add => Self::New,
            Self::Projects => Self::Add,
            Self::Manage => Self::Projects,
            Self::Settings => Self::Manage,
        }
    }
}

/// One tracked project folder.  Paths are carried as plain strings; the
/// filesystem itself is a collaborator outside this crate.
#[derive(Debug)]
pub struct ProjectMeta {
    pub path: String,
    pub display_name: String,
    pub tags: Vec<String>,
    pub last_opened: Option<String>,
}

/// Model of a [`ProjectMeta`].
#[verifier::ext_equal]
pub struct ProjectMetaV {
    pub path: Seq<char>,
    pub display_name: Seq<char>,
    pub tags: Seq<Seq<char>>,
    pub last_opened: Option<Seq<char>>,
}

impl DeepView for ProjectMeta {
    type V = ProjectMetaV;

    open spec fn deep_view(&self) -> ProjectMetaV {
        ProjectMetaV {
            path: self.path.deep_view(),
            display_name: self.display_name.deep_view(),
            tags: self.tags.deep_view(),
            last_opened: self.last_opened.deep_view(),
        }
    }
}

impl Clone for ProjectMeta {
    /// Cloning keeps the model exactly.
    fn clone(&self) -> (r: Self)
        ensures
            r.deep_view() == self.deep_view(),
    {
        let mut tags: Vec<String> = Vec::new();
        let mut i: usize = 0;
        while i < self.tags.len()
            invariant
                i <= self.tags@.len(),
                tags@.len() == i,
                forall|j: int| 0 <= j < i ==> tags@[j]@ == self.tags@[j]@,
            decreases self.tags@.len() - i,
        {
            tags.push(self.tags[i].clone());
            i += 1;
        }
        let last_opened = match &self.last_opened {
            Some(s) => Some(s.clone()),
            None => None,
        };
        let r = ProjectMeta {
            path: self.path.clone(),
            display_name: self.display_name.clone(),
            tags,
            last_opened,
        };
        proof {
            assert(r.deep_view().tags =~= self.deep_view().tags);
            assert(r.deep_view() =~= self.deep_view());
        }
        r
    }
}

/// The persisted configuration: the list of tracked projects.
#[derive(Debug, Clone)]
pub struct AppConfig {
    pub projects: Vec<ProjectMeta>,
}

/// Model of an [`AppConfig`].
#[verifier::ext_equal]
pub struct AppConfigV {
    pub projects: Seq<ProjectMetaV>,
}

impl DeepView for AppConfig {
    type V = AppConfigV;

    open spec fn deep_view(&self) -> AppConfigV {
        AppConfigV { projects: self.projects.deep_view() }
    }
}

/// One package installed in a project manifest.
#[derive(Debug, Clone)]
pub struct PackageInfo {
    pub name: String,
    pub version: String,
}

/// Model of a [`PackageInfo`].
#[verifier::ext_equal]
pub struct PackageInfoV {
    pub name: Seq<char>,
    pub version: Seq<char>,
}

impl DeepView for PackageInfo {
    type V = PackageInfoV;

    open spec fn deep_view(&self) -> PackageInfoV {
        PackageInfoV { name: self.name.deep_view(), version: self.version.deep_view() }
    }
}

/// One package offered by a repository.
#[derive(Debug, Clone)]
pub struct AvailablePackage {
    pub id: String,
    pub display_name: String,
    pub latest_version: String,
    pub repo_id: String,
}

/// Model of an [`AvailablePackage`].
#[verifier::ext_equal]
pub struct AvailablePackageV {
    pub id: Seq<char>,
    pub display_name: Seq<char>,
    pub latest_version: Seq<char>,
    pub repo_id: Seq<char>,
}

impl DeepView for AvailablePackage {
    type V = AvailablePackageV;

    open spec fn deep_view(&self) -> AvailablePackageV {
        AvailablePackageV {
            id: self.id.deep_view(),
            display_name: self.display_name.deep_view(),
            latest_version: self.latest_version.deep_view(),
            repo_id: self.repo_id.deep_view(),
        }
    }
}

/// Summary of one project's package manifest, as read by a collaborator.
#[derive(Debug, Clone)]
pub struct ManifestSummary {
    pub exists: bool,
    pub packages: Vec<PackageInfo>,
    pub message: Option<String>,
}

/// Model of a [`ManifestSummary`].
#[verifier::ext_equal]
pub struct ManifestSummaryV {
    pub exists: bool,
    pub packages: Seq<PackageInfoV>,
    pub message: Option<Seq<char>>,
}

impl DeepView for ManifestSummary {
    type V = ManifestSummaryV;

    open spec fn deep_view(&self) -> ManifestSummaryV {
        ManifestSummaryV {
            exists: self.exists,
            packages: self.packages.deep_view(),
            message: self.message.deep_view(),
        }
    }
}

/// Lifecycle state of one tracked task.
#[derive(Debug, Clone, Copy, PartialEq, Eq, Structural)]
pub enum TaskState {
    Running,
    Success,
    Failed,
    Cancelled,
}

/// One in-flight or completed invocation of an external program.
#[derive(Debug, Clone)]
pub struct TaskRecord {
    pub id: u64,
    pub label: String,
    pub state: TaskState,
    pub exit_code: Option<i32>,
    pub error: Option<String>,
    pub refresh_manifest_path: Option<String>,
    pub pending_add_project: Option<ProjectMeta>,
}

/// Model of a [`TaskRecord`].
#[verifier::ext_equal]
pub struct TaskRecordV {
    pub id: u64,
    pub label: Seq<char>,
    pub state: TaskState,
    pub exit_code: Option<i32>,
    pub error: Option<Seq<char>>,
    pub refresh_manifest_path: Option<Seq<char>>,
    pub pending_add_project: Option<ProjectMetaV>,
}

impl DeepView for TaskRecord {
    type V = TaskRecordV;

    open spec fn deep_view(&self) -> TaskRecordV {
        TaskRecordV {
            id: self.id,
            label: self.label.deep_view(),
            state: self.state,
            exit_code: self.exit_code,
            error: self.error.deep_view(),
            refresh_manifest_path: self.refresh_manifest_path.deep_view(),
            pending_add_project: self.pending_add_project.deep_view(),
        }
    }
}

/// One line of the bounded session log.
#[derive(Debug, Clone)]
pub struct LogEntry {
    pub task_id: Option<u64>,
    pub text: String,
}

/// Model of a [`LogEntry`].
#[verifier::ext_equal]
pub struct LogEntryV {
    pub task_id: Option<u64>,
    pub text: Seq<char>,
}

impl DeepView for LogEntry {
    type V = LogEntryV;

    open spec fn deep_view(&self) -> LogEntryV {
        LogEntryV { task_id: self.task_id, text: self.text.deep_view() }
    }
}

/// Results of the environment checks run at startup or on demand.
#[derive(Debug, Clone)]
pub struct SystemChecks {
    pub dotnet_version: Option<String>,
    pub vpm_version: Option<String>,
    pub hub_check: Option<String>,
    pub unity_check: Option<String>,
    pub unity_list: Vec<String>,
}

/// The whole dashboard state: one value, owned by the dispatch loop.
#[derive(Debug, Clone)]
pub struct AppState {
    pub screen: Screen,
    pub should_quit: bool,
    pub tick_count: u64,
    pub projects: Vec<ProjectMeta>,
    pub selected_project: usize,
    pub search_mode: bool,
    pub search_query: String,
    pub add_project_mode: bool,
    pub add_project_input: String,
    pub add_folder_mode: bool,
    pub add_folder_input: String,
    pub new_project_mode: bool,
    pub new_project_edit_path: bool,
    pub new_project_name_input: String,
    pub new_project_path_input: String,
    pub new_project_template_idx: usize,
    pub add_repo_mode: bool,
    pub add_repo_input: String,
    pub add_package_mode: bool,
    pub add_package_input: String,
    pub selected_project_manifest: Option<ManifestSummary>,
    pub selected_manifest_package: usize,
    pub available_packages: Vec<AvailablePackage>,
    pub available_package_search: String,
    pub available_package_search_mode: bool,
    pub selected_available_package: usize,
    pub manage_focus_available: bool,
    pub logs: Vec<LogEntry>,
    pub log_scroll: u16,
    pub tasks: Vec<TaskRecord>,
    pub next_task_id: u64,
    pub status_line: String,
    pub system_checks: SystemChecks,
}

/// A selection index is in range for its collection, or both are at zero.
pub open spec fn sel_ok(sel: int, len: int) -> bool {
    sel < len || (len == 0 && sel == 0)
}

/// Clamping a selection index into `[0, len - 1]`, or to 0 for an empty
/// collection.
pub open spec fn clamped_index(sel: int, len: int) -> int {
    if len <= 0 {
        0
    } else if sel >= len {
        len - 1
    } else {
        sel
    }
}

/// Saturating increment on `u64`.
pub open spec fn sat_inc_u64(n: u64) -> u64 {
    if n == u64::MAX {
        n
    } else {
        (n + 1) as u64
    }
}

/// The number of packages in the manifest currently shown, 0 when none is
/// loaded.
pub open spec fn manifest_len(s: AppState) -> int {
    match s.selected_project_manifest {
        Some(m) => m.packages@.len() as int,
        None => 0,
    }
}

/// A project matches a (lowercased) search needle when it occurs in the
/// lowercased display name, path, or any tag.
pub open spec fn project_matches(p: ProjectMetaV, needle: Seq<char>) -> bool {
    ||| is_substring(needle, lower_of(p.display_name))
    ||| is_substring(needle, lower_of(p.path))
    ||| exists|i: int| 0 <= i < p.tags.len() && is_substring(needle, lower_of(p.tags[i]))
}

/// The search predicate on projects for the given (raw) query.
pub open spec fn project_pred(query: Seq<char>) -> spec_fn(ProjectMetaV) -> bool {
    |p: ProjectMetaV| project_matches(p, lower_of(query))
}

/// The projects that the current search shows, in order.
pub open spec fn filtered_projects_model(projects: Seq<ProjectMetaV>, query: Seq<char>) -> Seq<
    ProjectMetaV,
> {
    if query.len() == 0 {
        projects
    } else {
        projects.filter(project_pred(query))
    }
}

/// An available package matches a (lowercased) search needle when it occurs
/// in the lowercased id, display name, or repository id.
pub open spec fn available_matches(p: AvailablePackageV, needle: Seq<char>) -> bool {
    ||| is_substring(needle, lower_of(p.id))
    ||| is_substring(needle, lower_of(p.display_name))
    ||| is_substring(needle, lower_of(p.repo_id))
}

/// The search predicate on available packages for the given (raw) query.
pub open spec fn available_pred(query: Seq<char>) -> spec_fn(AvailablePackageV) -> bool {
    |p: AvailablePackageV| available_matches(p, lower_of(query))
}

/// The available packages that the current search shows, in order.
pub open spec fn filtered_available_model(packages: Seq<AvailablePackageV>, query: Seq<char>) -> Seq<
    AvailablePackageV,
> {
    if query.len() == 0 {
        packages
    } else {
        packages.filter(available_pred(query))
    }
}

/// The name of the project template at the given position in the fixed
/// template list.
pub open spec fn template_name(i: int) -> Seq<char> {
    if i == 0 {
        "Avatar"@
    } else if i == 1 {
        "World"@
    } else {
        "UdonSharp"@
    }
}

/// Appending one entry to the bounded log: past [`MAX_LOG_LINES`] entries the
/// oldest are dropped, preserving recency (FIFO eviction).
#[verifier::opaque]
pub open spec fn log_push_model(m: Seq<LogEntryV>, tid: Option<u64>, text: Seq<char>) -> Seq<
    LogEntryV,
> {
    let full = m.push(LogEntryV { task_id: tid, text });
    if full.len() > MAX_LOG_LINES {
        full.subrange(full.len() - (MAX_LOG_LINES as int), full.len() as int)
    } else {
        full
    }
}

impl AppState {
    /// The structural invariant that the reducer preserves:
    /// task ids are strictly increasing and below the allocation counter
    /// (so no id is ever reused), every selection index is in range for its
    /// collection, and the log is within its capacity.
    pub open spec fn inv(self) -> bool {
        &&& self.logs@.len() <= MAX_LOG_LINES
        &&& self.next_task_id >= 1
        &&& forall|i: int, j: int|
            0 <= i < j < self.tasks@.len() ==> self.tasks@[i].id < self.tasks@[j].id
        &&& forall|i: int|
            0 <= i < self.tasks@.len() ==> #[trigger] self.tasks@[i].id < self.next_task_id
        &&& sel_ok(self.selected_project as int, self.projects@.len() as int)
        &&& sel_ok(self.selected_manifest_package as int, manifest_len(self))
        &&& sel_ok(self.selected_available_package as int, self.available_packages@.len() as int)
        &&& self.new_project_template_idx < 3
    }

    /// The selection invariant for the *filtered* available-package list: the
    /// selection points into the list that the current search shows.
    pub open spec fn avail_sel_inv(self) -> bool {
        sel_ok(
            self.selected_available_package as int,
            filtered_available_model(
                self.available_packages.deep_view(),
                self.available_package_search@,
            ).len() as int,
        )
    }

    /// The state the dashboard starts in.
    pub open spec fn is_init(self) -> bool {
        &&& self.screen == Screen::Projects
        &&& self.should_quit == false
        &&& self.tick_count == 0
        &&& self.projects@ == Seq::<ProjectMeta>::empty()
        &&& self.selected_project == 0
        &&& self.search_mode == false
        &&& self.search_query@ == Seq::<char>::empty()
        &&& self.add_project_mode == false
        &&& self.add_project_input@ == Seq::<char>::empty()
        &&& self.add_folder_mode == false
        &&& self.add_folder_input@ == Seq::<char>::empty()
        &&& self.new_project_mode == false
        &&& self.new_project_edit_path == false
        &&& self.new_project_name_input@ == Seq::<char>::empty()
        &&& self.new_project_path_input@ == Seq::<char>::empty()
        &&& self.new_project_template_idx == 0
        &&& self.add_repo_mode == false
        &&& self.add_repo_input@ == Seq::<char>::empty()
        &&& self.add_package_mode == false
        &&& self.add_package_input@ == Seq::<char>::empty()
        &&& self.selected_project_manifest is None
        &&& self.selected_manifest_package == 0
        &&& self.available_packages@ == Seq::<AvailablePackage>::empty()
        &&& self.available_package_search@ == Seq::<char>::empty()
        &&& self.available_package_search_mode == false
        &&& self.selected_available_package == 0
        &&& self.manage_focus_available == true
        &&& self.logs@ == Seq::<LogEntry>::empty()
        &&& self.log_scroll == 0
        &&& self.tasks@ == Seq::<TaskRecord>::empty()
        &&& self.next_task_id == 1
        &&& self.status_line@ == "Ready"@
        &&& self.system_checks.dotnet_version is None
        &&& self.system_checks.vpm_version is None
        &&& self.system_checks.hub_check is None
        &&& self.system_checks.unity_check is None
        &&& self.system_checks.unity_list@ == Seq::<String>::empty()
    }

    /// Append one line to the bounded session log; past [`MAX_LOG_LINES`]
    /// entries the oldest are evicted first (FIFO), preserving recency.
    pub fn push_log(&mut self, task_id: Option<u64>, line: String)
        ensures
            final(self).logs.deep_view() == log_push_model(
                old(self).logs.deep_view(),
                task_id,
                line@,
            ),
            final(self).logs@.len() <= MAX_LOG_LINES,
            *final(self) == (AppState { logs: final(self).logs, ..*old(self) }),
    {
        proof {
            reveal(log_push_model);
        }
        let ghost full: Seq<LogEntryV> = old(self).logs.deep_view().push(
            LogEntryV { task_id, text: line@ },
        );
        self.logs.push(LogEntry { task_id, text: line });
        proof {
            assert(self.logs.deep_view() =~= full);
        }
        while self.logs.len() > MAX_LOG_LINES
            invariant
                self.logs@.len() <= full.len(),
                self.logs.deep_view() =~= full.subrange(
                    full.len() - self.logs@.len(),
                    full.len() as int,
                ),
                full.len() - self.logs@.len() > 0 ==> self.logs@.len() >= MAX_LOG_LINES,
                *self == (AppState { logs: self.logs, ..*old(self) }),
            decreases self.logs@.len(),
        {
            let ghost prev = self.logs.deep_view();
            self.logs.remove(0);
            proof {
                assert(self.logs.deep_view() =~= prev.subrange(1, prev.len() as int));
                assert(self.logs.deep_view() =~= full.subrange(
                    full.len() - self.logs@.len(),
                    full.len() as int,
                ));
            }
        }
        proof {
            if full.len() - self.logs@.len() > 0 {
                assert(self.logs@.len() == MAX_LOG_LINES);
            } else {
                assert(self.logs.deep_view() =~= full);
            }
        }
    }

    /// Clamp the project selection into range for the project list.
    pub fn selected_project_clamped(&mut self)
        ensures
            *final(self) == (AppState {
                selected_project: final(self).selected_project,
                ..*old(self)
            }),
            final(self).selected_project as int == clamped_index(
                old(self).selected_project as int,
                old(self).projects@.len() as int,
            ),
    {
        if self.projects.is_empty() {
            self.selected_project = 0;
        } else if self.selected_project >= self.projects.len() {
            self.selected_project = self.projects.len() - 1;
        }
    }

    /// Clamp the installed-package selection into range for the manifest
    /// currently shown.
    pub fn selected_manifest_package_clamped(&mut self)
        ensures
            *final(self) == (AppState {
                selected_manifest_package: final(self).selected_manifest_package,
                ..*old(self)
            }),
            final(self).selected_manifest_package as int == clamped_index(
                old(self).selected_manifest_package as int,
                manifest_len(*old(self)),
            ),
    {
        let len = match &self.selected_project_manifest {
            Some(m) => m.packages.len(),
            None => 0,
        };
        if len == 0 {
            self.selected_manifest_package = 0;
        } else if self.selected_manifest_package >= len {
            self.selected_manifest_package = len - 1;
        }
    }

    /// The project the selection points at, if any.
    pub fn selected_project(&self) -> (r: Option<&ProjectMeta>)
        ensures
            (r is Some) == (self.selected_project < self.projects@.len()),
            r matches Some(p) ==> *p == self.projects@[self.selected_project as int],
    {
        if self.selected_project < self.projects.len() {
            Some(&self.projects[self.selected_project])
        } else {
            None
        }
    }

    /// The installed package the selection points at, if any.
    pub fn selected_manifest_package(&self) -> (r: Option<&PackageInfo>)
        ensures
            (r is Some) == (self.selected_manifest_package < manifest_len(*self)),
            r matches Some(p) ==> self.selected_project_manifest matches Some(m) && *p
                == m.packages@[self.selected_manifest_package as int],
    {
        match &self.selected_project_manifest {
            Some(m) => {
                if self.selected_manifest_package < m.packages.len() {
                    Some(&m.packages[self.selected_manifest_package])
                } else {
                    None
                }
            },
            None => None,
        }
    }

    /// The projects that the current search shows, in order.
    pub fn filtered_projects(&self) -> (r: Vec<&ProjectMeta>)
        ensures
            r.deep_view() == filtered_projects_model(
                self.projects.deep_view(),
                self.search_query@,
            ),
    {
        let ghost pred = project_pred(self.search_query@);
        let ghost s = self.projects.deep_view();
        let mut r: Vec<&ProjectMeta> = Vec::new();
        if self.search_query.as_str().is_empty() {
            let mut i: usize = 0;
            while i < self.projects.len()
                invariant
                    i <= self.projects@.len(),
                    r@.len() == i,
                    forall|j: int| 0 <= j < i ==> r@[j] == &self.projects@[j],
                decreases self.projects@.len() - i,
            {
                r.push(&self.projects[i]);
                i += 1;
            }
            proof {
                assert(r.deep_view() =~= s);
            }
        } else {
            let needle = lowercase(self.search_query.as_str());
            let mut i: usize = 0;
            proof {
                reveal(Seq::filter);
                assert(s.subrange(0, 0) =~= Seq::<ProjectMetaV>::empty());
            }
            while i < self.projects.len()
                invariant
                    i <= self.projects@.len(),
                    s == self.projects.deep_view(),
                    pred == project_pred(self.search_query@),
                    needle@ == lower_of(self.search_query@),
                    r.deep_view() == s.subrange(0, i as int).filter(pred),
                decreases self.projects@.len() - i,
            {
                let ghost prefix = s.subrange(0, i as int);
                let m = project_matches_exec(&self.projects[i], needle.as_str());
                proof {
                    prefix.lemma_filter_push(s[i as int], pred);
                    assert(prefix.push(s[i as int]) =~= s.subrange(0, i + 1));
                }
                if m {
                    let ghost prev = r.deep_view();
                    r.push(&self.projects[i]);
                    proof {
                        assert(r.deep_view() =~= prev.push(s[i as int]));
                    }
                }
                i += 1;
            }
            proof {
                assert(s.subrange(0, s.len() as int) =~= s);
            }
        }
        r
    }

    /// The available packages that the current search shows, in order.
    pub fn filtered_available_packages(&self) -> (r: Vec<&AvailablePackage>)
        ensures
            r.deep_view() == filtered_available_model(
                self.available_packages.deep_view(),
                self.available_package_search@,
            ),
    {
        let ghost pred = available_pred(self.available_package_search@);
        let ghost s = self.available_packages.deep_view();
        let mut r: Vec<&AvailablePackage> = Vec::new();
        if self.available_package_search.as_str().is_empty() {
            let mut i: usize = 0;
            while i < self.available_packages.len()
                invariant
                    i <= self.available_packages@.len(),
                    r@.len() == i,
                    forall|j: int| 0 <= j < i ==> r@[j] == &self.available_packages@[j],
                decreases self.available_packages@.len() - i,
            {
                r.push(&self.available_packages[i]);
                i += 1;
            }
            proof {
                assert(r.deep_view() =~= s);
            }
        } else {
            let needle = lowercase(self.available_package_search.as_str());
            let mut i: usize = 0;
            proof {
                reveal(Seq::filter);
                assert(s.subrange(0, 0) =~= Seq::<AvailablePackageV>::empty());
            }
            while i < self.available_packages.len()
                invariant
                    i <= self.available_packages@.len(),
                    s == self.available_packages.deep_view(),
                    pred == available_pred(self.available_package_search@),
                    needle@ == lower_of(self.available_package_search@),
                    r.deep_view() == s.subrange(0, i as int).filter(pred),
                decreases self.available_packages@.len() - i,
            {
                let ghost prefix = s.subrange(0, i as int);
                let m = available_matches_exec(&self.available_packages[i], needle.as_str());
                proof {
                    prefix.lemma_filter_push(s[i as int], pred);
                    assert(prefix.push(s[i as int]) =~= s.subrange(0, i + 1));
                }
                if m {
                    let ghost prev = r.deep_view();
                    r.push(&self.available_packages[i]);
                    proof {
                        assert(r.deep_view() =~= prev.push(s[i as int]));
                    }
                }
                i += 1;
            }
            proof {
                assert(s.subrange(0, s.len() as int) =~= s);
            }
        }
        r
    }

    /// Clamp the available-package selection into range for the list that
    /// the current search shows.
    pub fn selected_available_package_clamped(&mut self)
        ensures
            *final(self) == (AppState {
                selected_available_package: final(self).selected_available_package,
                ..*old(self)
            }),
            final(self).selected_available_package as int == clamped_index(
                old(self).selected_available_package as int,
                filtered_available_model(
                    old(self).available_packages.deep_view(),
                    old(self).available_package_search@,
                ).len() as int,
            ),
    {
        let len = self.filtered_available_packages().len();
        if len == 0 {
            self.selected_available_package = 0;
        } else if self.selected_available_package >= len {
            self.selected_available_package = len - 1;
        }
    }

    /// The available package the selection points at, if any.
    pub fn selected_available_package(&self) -> (r: Option<&AvailablePackage>)
        ensures
            (r is Some) == (self.selected_available_package < filtered_available_model(
                self.available_packages.deep_view(),
                self.available_package_search@,
            ).len()),
            r matches Some(p) ==> p.deep_view() == filtered_available_model(
                self.available_packages.deep_view(),
                self.available_package_search@,
            )[self.selected_available_package as int],
    {
        let filtered = self.filtered_available_packages();
        if self.selected_available_package < filtered.len() {
            Some(filtered[self.selected_available_package])
        } else {
            None
        }
    }

    /// The name of the template the template selection points at.
    pub fn current_template(&self) -> (r: &'static str)
        ensures
            r@ == template_name(self.new_project_template_idx as int),
    {
        match self.new_project_template_idx {
            0 => "Avatar",
            1 => "World",
            _ => "UdonSharp",
        }
    }
}

/// A project matches the given lowercased needle; see [`project_matches`].
fn project_matches_exec(p: &ProjectMeta, needle: &str) -> (r: bool)
    ensures
        r == project_matches(p.deep_view(), needle@),
{
    let dn = lowercase(p.display_name.as_str());
    if str_contains(dn.as_str(), needle) {
        return true;
    }
    let pt = lowercase(p.path.as_str());
    if str_contains(pt.as_str(), needle) {
        return true;
    }
    let mut i: usize = 0;
    while i < p.tags.len()
        invariant
            i <= p.tags@.len(),
            forall|j: int|
                0 <= j < i ==> !is_substring(needle@, lower_of(#[trigger] p.deep_view().tags[j])),
        decreases p.tags@.len() - i,
    {
        let tg = lowercase(p.tags[i].as_str());
        if str_contains(tg.as_str(), needle) {
            proof {
                assert(is_substring(needle@, lower_of(p.deep_view().tags[i as int])));
            }
            return true;
        }
        i += 1;
    }
    false
}

/// An available package matches the given lowercased needle; see
/// [`available_matches`].
fn available_matches_exec(p: &AvailablePackage, needle: &str) -> (r: bool)
    ensures
        r == available_matches(p.deep_view(), needle@),
{
    let idl = lowercase(p.id.as_str());
    if str_contains(idl.as_str(), needle) {
        return true;
    }
    let dn = lowercase(p.display_name.as_str());
    if str_contains(dn.as_str(), needle) {
        return true;
    }
    let rp = lowercase(p.repo_id.as_str());
    str_contains(rp.as_str(), needle)
}

/// The names of the packages installed in the manifest currently shown, in
/// manifest order; empty when no manifest is loaded.
pub fn installed_package_ids(state: &AppState) -> (r: Vec<String>)
    ensures
        r.deep_view() == (match state.selected_project_manifest {
            Some(m) => m.packages.deep_view().map_values(|p: PackageInfoV| p.name),
            None => Seq::<Seq<char>>::empty(),
        }),
{
    let mut r: Vec<String> = Vec::new();
    match &state.selected_project_manifest {
        Some(m) => {
            let mut i: usize = 0;
            while i < m.packages.len()
                invariant
                    i <= m.packages@.len(),
                    r@.len() == i,
                    forall|j: int| 0 <= j < i ==> r@[j]@ == m.packages.deep_view()[j].name,
                decreases m.packages@.len() - i,
            {
                r.push(m.packages[i].name.clone());
                i += 1;
            }
            proof {
                assert(r.deep_view() =~= m.packages.deep_view().map_values(
                    |p: PackageInfoV| p.name,
                ));
            }
        },
        None => {
            proof {
                assert(r.deep_view() =~= Seq::<Seq<char>>::empty());
            }
        },
    }
    r
}

impl Default for AppState {
    /// The dashboard's starting state.
    fn default() -> (r: Self)
        ensures
            r.is_init(),
            r.inv(),
            r.avail_sel_inv(),
    {
        let r = AppState {
            screen: Screen::Projects,
            should_quit: false,
            tick_count: 0,
            projects: Vec::new(),
            selected_project: 0,
            search_mode: false,
            search_query: String::new(),
            add_project_mode: false,
            add_project_input: String::new(),
            add_folder_mode: false,
            add_folder_input: String::new(),
            new_project_mode: false,
            new_project_edit_path: false,
            new_project_name_input: String::new(),
            new_project_path_input: String::new(),
            new_project_template_idx: 0,
            add_repo_mode: false,
            add_repo_input: String::new(),
            add_package_mode: false,
            add_package_input: String::new(),
            selected_project_manifest: None,
            selected_manifest_package: 0,
            available_packages: Vec::new(),
            available_package_search: String::new(),
            available_package_search_mode: false,
            selected_available_package: 0,
            manage_focus_available: true,
            logs: Vec::new(),
            log_scroll: 0,
            tasks: Vec::new(),
            next_task_id: 1,
            status_line: "Ready".to_owned(),
            system_checks: SystemChecks {
                dotnet_version: None,
                vpm_version: None,
                hub_check: None,
                unity_check: None,
                unity_list: Vec::new(),
            },
        };
        proof {
            assert(r.available_packages.deep_view() =~= Seq::<AvailablePackageV>::empty());
        }
        r
    }
}

} // verus!
