use machine_setup::command::{get_command, CommandKind};
use machine_setup::config_value::ConfigValue;
use machine_setup::os::Os;
use machine_setup::task::{get_task_names, should_skip_task, Command, Dispatch, Task, TaskOutcome, TaskPlan};
use machine_setup::task_runner::TaskRunnerMode;

fn task(name: &str, commands: Vec<Command>, os: Vec<Os>, parallel: bool) -> Task {
    Task { name: name.to_string(), commands, os, parallel }
}

fn command(name: &str) -> Command {
    Command { name: name.to_string(), args: ConfigValue::Array(vec![]) }
}

#[test]
fn it_gets_list_of_tasks() {
    let tasks = vec![task("task1", vec![], vec![], false), task("task2", vec![], vec![], false)];
    let task_names = get_task_names(&tasks);
    assert_eq!(task_names, vec!["task1", "task2"]);
}

#[test]
fn it_only_runs_task_for_specific_os() {
    let task_linux = task("my-linux-task", vec![], vec![Os::Linux], false);
    assert!(!should_skip_task(&task_linux, Some(Os::Linux)));
    let task_win = task("my-linux-task", vec![], vec![Os::Windows], false);
    assert!(should_skip_task(&task_win, Some(Os::Linux)));
}

#[test]
fn a_task_without_platforms_is_never_skipped() {
    let any = task("t", vec![], vec![], false);
    assert!(!should_skip_task(&any, Some(Os::Linux)));
    assert!(!should_skip_task(&any, Some(Os::Windows)));
    let some = task("t", vec![], vec![Os::Mac, Os::Linux], false);
    assert!(!should_skip_task(&some, Some(Os::Linux)));
    assert!(should_skip_task(&some, Some(Os::FreeBsd)));
}

#[test]
fn an_untagged_platform_runs_only_unrestricted_tasks() {
    let any = task("t", vec![command("run")], vec![], false);
    assert!(!should_skip_task(&any, None));
    assert!(matches!(any.plan(TaskRunnerMode::Install, None), TaskPlan::Run { .. }));
    let some = task("t", vec![], vec![Os::Linux], false);
    assert!(should_skip_task(&some, None));
}

#[test]
fn platform_tags() {
    assert_eq!(Os::from_str("macos"), Ok(Os::Mac));
    assert_eq!(Os::from_str("beos"), Err("Unknown OS: beos".to_string()));
    assert_eq!(Os::Windows.to_string(), "windows");
}

#[test]
fn registry_resolves_known_names_only() {
    assert_eq!(get_command("copy"), Ok(CommandKind::Copy));
    assert_eq!(get_command("symlink"), Ok(CommandKind::Symlink));
    assert_eq!(get_command("clone"), Ok(CommandKind::Clone));
    assert_eq!(get_command("run"), Ok(CommandKind::Run));
    assert_eq!(get_command("machine_setup"), Ok(CommandKind::MachineSetup));
    assert_eq!(get_command("_nope_"), Err("Unknown command: _nope_".to_string()));
}

#[test]
fn a_skipped_task_has_no_jobs() {
    let t = task("t", vec![command("run")], vec![Os::Windows], true);
    assert!(matches!(t.plan(TaskRunnerMode::Install, Some(Os::Linux)), TaskPlan::Skip));
}

fn jobs_of(plan: TaskPlan) -> (usize, Vec<(usize, Result<Dispatch, String>)>) {
    match plan {
        TaskPlan::Skip => panic!("task was skipped"),
        TaskPlan::Run { workers, jobs } => (workers, jobs.into_iter().map(|j| (j.index, j.dispatch)).collect()),
    }
}

#[test]
fn every_command_gets_a_job_sequential_or_parallel() {
    for parallel in [false, true] {
        let t = task("t", vec![command("_nope_"), command("run")], vec![], parallel);
        let (workers, jobs) = jobs_of(t.plan(TaskRunnerMode::Update, Some(Os::Linux)));
        assert_eq!(workers, if parallel { 2 } else { 1 });
        assert_eq!(
            jobs,
            vec![
                (0, Err("Unknown command: _nope_".to_string())),
                (1, Ok(Dispatch { kind: CommandKind::Run, mode: TaskRunnerMode::Update })),
            ]
        );
    }
}

#[test]
fn one_failure_among_two_commands_is_one_failure() {
    let t = task("t", vec![command("fail"), command("succeed")], vec![], false);
    let outcome = t.outcome(&vec![Err("broken".to_string()), Ok(())]);
    match outcome {
        TaskOutcome::Failed(failures) => {
            assert_eq!(failures.len(), 1);
            assert_eq!(failures[0].command, "fail");
            assert_eq!(failures[0].message, "broken");
        },
        _ => panic!("expected a failure"),
    }
    assert!(matches!(t.outcome(&vec![Ok(()), Ok(())]), TaskOutcome::Succeeded));
}
