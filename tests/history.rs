use machine_setup::history::{History, TaskEntry};
use machine_setup::task_runner::TaskRunnerMode;

const STAMP: &str = "2022-12-31T23:59:59+00:00";

fn entry(installed: Option<&str>, updated: Option<&str>, uninstalled: Option<&str>) -> TaskEntry {
    TaskEntry {
        installed_at: installed.map(|s| s.to_string()),
        updated_at: updated.map(|s| s.to_string()),
        uninstalled_at: uninstalled.map(|s| s.to_string()),
    }
}

fn same(a: &TaskEntry, b: &TaskEntry) -> bool {
    a.installed_at == b.installed_at && a.updated_at == b.updated_at && a.uninstalled_at == b.uninstalled_at
}

fn is_rfc3339(s: &Option<String>) -> bool {
    chrono::DateTime::parse_from_rfc3339(s.as_ref().unwrap()).is_ok()
}

#[test]
fn it_clears_task_entry() {
    let mut history = History { entries: vec![("task1".to_string(), entry(Some(STAMP), Some(STAMP), Some(STAMP)))] };
    history.clear_entry(TaskRunnerMode::Install, "task1");
    history.clear_entry(TaskRunnerMode::Uninstall, "task1");
    history.clear_entry(TaskRunnerMode::Update, "task1");
    assert!(same(&history.get_task_entry("task1"), &entry(None, None, None)));
}

#[test]
fn it_gets_empty_entry_if_file_doesnt_exist() {
    let history = History::new();
    assert!(same(&history.get_task_entry("task"), &entry(None, None, None)));
}

#[test]
fn it_gets_task_entry() {
    let history = History {
        entries: vec![
            ("task1".to_string(), entry(Some(STAMP), None, None)),
            ("task2".to_string(), entry(Some("2023-01-31T23:59:59+00:00"), None, None)),
        ],
    };
    assert_eq!(history.get_task_entry("task2").installed_at.unwrap(), "2023-01-31T23:59:59+00:00");
}

#[test]
fn it_gets_installation_status_correctly() {
    let history = History {
        entries: vec![
            ("task1".to_string(), entry(Some(STAMP), None, None)),
            ("task2".to_string(), entry(None, None, None)),
        ],
    };
    assert!(history.is_logged(TaskRunnerMode::Install, "task1"));
    assert!(!history.is_logged(TaskRunnerMode::Install, "task2"));
}

#[test]
fn it_updates_entry_in_existing_file() {
    let mut history = History {
        entries: vec![
            ("task1".to_string(), entry(Some(STAMP), None, None)),
            ("task2".to_string(), entry(None, None, Some(STAMP))),
        ],
    };
    history.update_entry_now(TaskRunnerMode::Install, "task2");
    let e = history.get_task_entry("task2");
    assert!(is_rfc3339(&e.installed_at));
    assert!(e.uninstalled_at.is_none());
    history.update_entry_now(TaskRunnerMode::Uninstall, "task1");
    let e = history.get_task_entry("task1");
    assert!(is_rfc3339(&e.uninstalled_at));
    assert!(e.installed_at.is_none());
}

#[test]
fn it_inserts_entry_into_existing_file() {
    let mut history = History { entries: vec![("task1".to_string(), entry(None, None, None))] };
    history.update_entry_now(TaskRunnerMode::Install, "task2");
    let e = history.get_task_entry("task2");
    assert!(is_rfc3339(&e.installed_at));
    assert!(e.uninstalled_at.is_none());
    assert_eq!(history.entries.len(), 2);
}

#[test]
fn it_inserts_entry_into_fresh_file() {
    let mut history = History::new();
    history.update_entry_now(TaskRunnerMode::Install, "task1");
    let e = history.get_task_entry("task1");
    assert!(is_rfc3339(&e.installed_at));
    assert!(e.uninstalled_at.is_none());
}

#[test]
fn round_trip_of_a_mode() {
    let mut history = History::new();
    history.update_entry(TaskRunnerMode::Install, "t1", STAMP.to_string());
    assert!(history.is_logged(TaskRunnerMode::Install, "t1"));
    history.clear_entry(TaskRunnerMode::Install, "t1");
    assert!(!history.is_logged(TaskRunnerMode::Install, "t1"));
}

#[test]
fn install_and_uninstall_exclude_each_other() {
    let mut history = History::new();
    history.update_entry(TaskRunnerMode::Uninstall, "t", "u1".to_string());
    history.update_entry(TaskRunnerMode::Install, "t", "i1".to_string());
    assert!(same(&history.get_task_entry("t"), &entry(Some("i1"), None, None)));
    history.update_entry(TaskRunnerMode::Update, "t", "upd".to_string());
    history.update_entry(TaskRunnerMode::Uninstall, "t", "u2".to_string());
    assert!(same(&history.get_task_entry("t"), &entry(None, Some("upd"), Some("u2"))));
    assert!(same(&history.get_task_entry("other"), &entry(None, None, None)));
}
