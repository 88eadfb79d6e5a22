use vcc_tui::action::{Action, OutputStream};
use vcc_tui::files::{cache_dir_path, config_file_path, file_name_of, join_path};
use vcc_tui::state::{
    AppState, ManifestSummary, PackageInfo, ProjectMeta, Screen,
};
use vcc_tui::state::installed_package_ids;
use vcc_tui::supervisor::{cancel_outcome, VpmClient};

fn project(path: &str, name: &str) -> ProjectMeta {
    ProjectMeta {
        path: path.to_owned(),
        display_name: name.to_owned(),
        tags: Vec::new(),
        last_opened: None,
    }
}

#[test]
fn default_state_is_ready() {
    let s = AppState::default();
    assert_eq!(s.status_line, "Ready");
    assert_eq!(s.next_task_id, 1);
    assert!(s.projects.is_empty());
    assert!(s.logs.is_empty());
    assert!(!s.should_quit);
    assert!(matches!(s.screen, Screen::Projects));
}

#[test]
fn screen_order_is_cyclic() {
    let all = [
        Screen::New,
        Screen::Add,
        Screen::Projects,
        Screen::Manage,
        Screen::Settings,
    ];
    for s in all {
        assert_eq!(s.next().prev(), s);
        assert_eq!(s.prev().next(), s);
    }
    assert_eq!(Screen::Settings.next(), Screen::New);
    assert_eq!(Screen::New.prev(), Screen::Settings);
}

#[test]
fn log_is_bounded_and_fifo() {
    let mut s = AppState::default();
    for i in 0..1503u32 {
        s.push_log(None, format!("line{}", i));
    }
    assert_eq!(s.logs.len(), 1500);
    assert_eq!(s.logs[0].text, "line3");
    assert_eq!(s.logs[1499].text, "line1502");
}

#[test]
fn log_keeps_short_histories_whole() {
    let mut s = AppState::default();
    s.push_log(Some(7), "hello".to_owned());
    assert_eq!(s.logs.len(), 1);
    assert_eq!(s.logs[0].task_id, Some(7));
    assert_eq!(s.logs[0].text, "hello");
}

#[test]
fn project_selection_is_clamped() {
    let mut s = AppState::default();
    s.projects.push(project("/tmp/a", "a"));
    s.projects.push(project("/tmp/b", "b"));
    s.selected_project = 5;
    s.selected_project_clamped();
    assert_eq!(s.selected_project, 1);
    s.projects.clear();
    s.selected_project_clamped();
    assert_eq!(s.selected_project, 0);
}

#[test]
fn manifest_selection_is_clamped() {
    let mut s = AppState::default();
    s.selected_manifest_package = 9;
    s.selected_manifest_package_clamped();
    assert_eq!(s.selected_manifest_package, 0);
    s.selected_project_manifest = Some(ManifestSummary {
        exists: true,
        packages: vec![
            PackageInfo { name: "com.a".to_owned(), version: "1.0.0".to_owned() },
            PackageInfo { name: "com.b".to_owned(), version: "2.0.0".to_owned() },
        ],
        message: None,
    });
    s.selected_manifest_package = 9;
    s.selected_manifest_package_clamped();
    assert_eq!(s.selected_manifest_package, 1);
}

#[test]
fn search_filters_projects_case_insensitively() {
    let mut s = AppState::default();
    s.projects.push(project("/vr/Alpha", "Alpha World"));
    s.projects.push(project("/vr/Beta", "Beta Avatar"));
    s.search_query = "alpha".to_owned();
    let filtered = s.filtered_projects();
    assert_eq!(filtered.len(), 1);
    assert_eq!(filtered[0].display_name, "Alpha World");
    s.search_query = String::new();
    assert_eq!(s.filtered_projects().len(), 2);
}

#[test]
fn installed_ids_follow_the_manifest() {
    let mut s = AppState::default();
    assert!(installed_package_ids(&s).is_empty());
    s.selected_project_manifest = Some(ManifestSummary {
        exists: true,
        packages: vec![PackageInfo { name: "com.x".to_owned(), version: "0.1.0".to_owned() }],
        message: None,
    });
    assert_eq!(installed_package_ids(&s), vec!["com.x".to_owned()]);
}

#[test]
fn file_names_come_from_the_last_component() {
    assert_eq!(file_name_of("/home/u/projects/World"), "World");
    assert_eq!(file_name_of("plain"), "plain");
    assert_eq!(file_name_of("a/b/c"), "c");
}

#[test]
fn paths_join_with_a_single_separator() {
    assert_eq!(join_path("/base", "name"), "/base/name");
    assert_eq!(join_path("/base/", "name"), "/base/name");
    assert_eq!(config_file_path("/home/u"), "/home/u/.config/vcc-tui/config.json");
    assert_eq!(cache_dir_path("/home/u"), "/home/u/.cache/vcc-tui");
}

#[test]
fn clean_exit_is_the_only_success() {
    let client = VpmClient;
    match client.completion_action(3, false, Ok(Some(0))) {
        Action::TaskDone { task_id, success, cancelled, exit_code, error, .. } => {
            assert_eq!(task_id, 3);
            assert!(success);
            assert!(!cancelled);
            assert_eq!(exit_code, Some(0));
            assert!(error.is_none());
        }
        _ => panic!("expected a completion action"),
    }
    match client.completion_action(4, false, Ok(Some(2))) {
        Action::TaskDone { success, cancelled, exit_code, .. } => {
            assert!(!success);
            assert!(!cancelled);
            assert_eq!(exit_code, Some(2));
        }
        _ => panic!("expected a completion action"),
    }
}

#[test]
fn cancellation_beats_the_exit_code() {
    let client = VpmClient;
    match client.completion_action(5, true, Ok(Some(0))) {
        Action::TaskDone { success, cancelled, .. } => {
            assert!(!success);
            assert!(cancelled);
        }
        _ => panic!("expected a completion action"),
    }
}

#[test]
fn launch_failures_are_failed_completions() {
    let client = VpmClient;
    match client.launch_failure_action(6, "no such program".to_owned()) {
        Action::TaskDone { task_id, success, cancelled, exit_code, error, .. } => {
            assert_eq!(task_id, 6);
            assert!(!success);
            assert!(!cancelled);
            assert_eq!(exit_code, None);
            assert_eq!(error.as_deref(), Some("no such program"));
        }
        _ => panic!("expected a completion action"),
    }
}

#[test]
fn cancelling_without_a_handle_reports_a_diagnostic() {
    assert!(cancel_outcome(9, true).is_none());
    match cancel_outcome(9, false) {
        Some(Action::TaskOutput { task_id, stream, line }) => {
            assert_eq!(task_id, 9);
            assert!(matches!(stream, OutputStream::Stderr));
            assert_eq!(line, "task #9 is not running");
        }
        _ => panic!("expected a diagnostic action"),
    }
}
