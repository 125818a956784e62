use vstd::prelude::*;
use vstd::string::*;

use crate::config_value::str_equal;
use crate::shell::Shell;
use crate::task::{Task, TaskOutcome};

verus! {

/// Which of a command's three operations a run performs.
#[derive(PartialEq, Eq, Structural, Clone, Copy, Debug)]
pub enum TaskRunnerMode {
    Install,
    Update,
    Uninstall,
}

/// The mode's name, as used for the per-mode keys of a `run` command.
pub open spec fn mode_name(mode: TaskRunnerMode) -> Seq<char> {
    match mode {
        TaskRunnerMode::Install => "install"@,
        TaskRunnerMode::Update => "update"@,
        TaskRunnerMode::Uninstall => "uninstall"@,
    }
}

impl TaskRunnerMode {
    pub fn to_string(&self) -> (r: String)
        ensures
            r@ == mode_name(*self),
    {
        match self {
            TaskRunnerMode::Install => String::from_str("install"),
            TaskRunnerMode::Update => String::from_str("update"),
            TaskRunnerMode::Uninstall => String::from_str("uninstall"),
        }
    }
}

/// The whole configuration of a run.
pub struct TaskList {
    pub tasks: Vec<Task>,
    pub temp_dir: String,
    pub default_shell: Shell,
    pub num_threads: usize,
    pub parallel: bool,
}

/// Which tasks a run performs: the one at an index, or all of them on a
/// pool of `workers` threads.
#[derive(PartialEq, Eq, Structural, Clone, Copy, Debug)]
pub enum RunPlan {
    Single(usize),
    All { workers: usize },
}

/// The index of the first task named `name`, if any.
pub open spec fn find_task(tasks: Seq<Task>, name: Seq<char>) -> Option<int>
    decreases tasks.len(),
{
    if tasks.len() == 0 {
        None
    } else if tasks.last().name@ == name && find_task(tasks.drop_last(), name) is None {
        Some(tasks.len() - 1)
    } else {
        find_task(tasks.drop_last(), name)
    }
}

/// The size of the pool for a run of every task.
pub open spec fn run_workers(list: TaskList) -> int {
    if list.parallel {
        if list.num_threads < list.tasks@.len() {
            list.num_threads as int
        } else {
            list.tasks@.len() as int
        }
    } else {
        1
    }
}

/// The error for a task name that the list does not hold.
pub open spec fn not_found_message(name: Seq<char>) -> Seq<char> {
    "Task "@ + name + " not found"@
}

/// The error for a requested task that failed.
pub open spec fn failed_message(name: Seq<char>) -> Seq<char> {
    "Task "@ + name + " failed"@
}

/// The character of a digit.
pub open spec fn digit_char(d: nat) -> char {
    if d == 0 { '0' }
    else if d == 1 { '1' }
    else if d == 2 { '2' }
    else if d == 3 { '3' }
    else if d == 4 { '4' }
    else if d == 5 { '5' }
    else if d == 6 { '6' }
    else if d == 7 { '7' }
    else if d == 8 { '8' }
    else { '9' }
}

/// `n` in decimal.
pub open spec fn decimal(n: nat) -> Seq<char>
    decreases n,
{
    if n < 10 {
        seq![digit_char(n)]
    } else {
        decimal(n / 10) + seq![digit_char(n % 10)]
    }
}

/// The names of the failed tasks among the first `n`, in task order.
pub open spec fn failed_names(tasks: Seq<Task>, outcomes: Seq<TaskOutcome>, n: nat) -> Seq<Seq<char>>
    decreases n,
{
    if n == 0 {
        Seq::empty()
    } else if outcomes[n - 1] is Failed {
        failed_names(tasks, outcomes, (n - 1) as nat).push(tasks[n - 1].name@)
    } else {
        failed_names(tasks, outcomes, (n - 1) as nat)
    }
}

/// Each name on a line of its own, marked with `"> "`.
pub open spec fn name_lines(names: Seq<Seq<char>>) -> Seq<char>
    decreases names.len(),
{
    if names.len() == 0 {
        Seq::empty()
    } else {
        name_lines(names.drop_last()) + "\n> "@ + names.last()
    }
}

/// The error of a run in which the tasks `names` failed.
pub open spec fn run_failure_message(names: Seq<Seq<char>>) -> Seq<char> {
    "Errors occurred in "@ + decimal(names.len()) + " tasks:"@ + name_lines(names)
}

/// What a run of every task returns, given each task's outcome.
pub open spec fn spec_run_result(tasks: Seq<Task>, outcomes: Seq<TaskOutcome>) -> Result<(), Seq<char>> {
    let names = failed_names(tasks, outcomes, tasks.len());
    if names.len() == 0 {
        Ok(())
    } else {
        Err(run_failure_message(names))
    }
}

fn digit_string(d: usize) -> (r: String)
    requires
        d < 10,
    ensures
        r@ == seq![digit_char(d as nat)],
{
    let r = if d == 0 { String::from_str("0") }
    else if d == 1 { String::from_str("1") }
    else if d == 2 { String::from_str("2") }
    else if d == 3 { String::from_str("3") }
    else if d == 4 { String::from_str("4") }
    else if d == 5 { String::from_str("5") }
    else if d == 6 { String::from_str("6") }
    else if d == 7 { String::from_str("7") }
    else if d == 8 { String::from_str("8") }
    else { String::from_str("9") };
    proof {
        reveal_strlit("0");
        reveal_strlit("1");
        reveal_strlit("2");
        reveal_strlit("3");
        reveal_strlit("4");
        reveal_strlit("5");
        reveal_strlit("6");
        reveal_strlit("7");
        reveal_strlit("8");
        reveal_strlit("9");
    }
    assert(r@ =~= seq![digit_char(d as nat)]);
    r
}

/// `n` written in decimal.
pub fn decimal_string(n: usize) -> (r: String)
    ensures
        r@ == decimal(n as nat),
    decreases n,
{
    if n < 10 {
        digit_string(n)
    } else {
        let mut r = decimal_string(n / 10);
        let last = digit_string(n % 10);
        r.append(last.as_str());
        r
    }
}

/// Decides which tasks a run performs. With a name, the first task of that
/// name, and `"Task <name> not found"` where there is none; without, every
/// task, on a pool of `min(num_threads, task count)` threads when the list
/// is parallel, else of one.
pub fn plan_run(task_list: &TaskList, task_name: Option<&str>) -> (r: Result<RunPlan, String>)
    ensures
        match task_name {
            Some(name) => match find_task(task_list.tasks@, name@) {
                Some(i) => r is Ok && r->Ok_0 is Single && r->Ok_0->Single_0 as int == i,
                None => r is Err && r->Err_0@ == not_found_message(name@),
            },
            None => r is Ok && r->Ok_0 is All && r->Ok_0->workers as int == run_workers(*task_list),
        },
{
    match task_name {
        Some(name) => {
            let mut i: usize = 0;
            while i < task_list.tasks.len()
                invariant
                    task_name == Some(name),
                    i <= task_list.tasks@.len(),
                    forall|j: int| 0 <= j < i ==> #[trigger] task_list.tasks@[j].name@ != name@,
                decreases task_list.tasks.len() - i,
            {
                if str_equal(task_list.tasks[i].name.as_str(), name) {
                    proof { lemma_find_first(task_list.tasks@, name@, i as int); }
                    return Ok(RunPlan::Single(i));
                }
                i += 1;
            }
            proof { lemma_find_none(task_list.tasks@, name@); }
            let mut message = String::from_str("Task ");
            message.append(name);
            message.append(" not found");
            Err(message)
        },
        None => {
            let workers = if task_list.parallel {
                if task_list.num_threads < task_list.tasks.len() {
                    task_list.num_threads
                } else {
                    task_list.tasks.len()
                }
            } else {
                1
            };
            Ok(RunPlan::All { workers })
        },
    }
}

proof fn lemma_find_first(tasks: Seq<Task>, name: Seq<char>, i: int)
    requires
        0 <= i < tasks.len(),
        tasks[i].name@ == name,
        forall|j: int| 0 <= j < i ==> #[trigger] tasks[j].name@ != name,
    ensures
        find_task(tasks, name) == Some(i),
    decreases tasks.len(),
{
    if i < tasks.len() - 1 {
        lemma_find_first(tasks.drop_last(), name, i);
    } else {
        lemma_find_none(tasks.drop_last(), name);
    }
}

proof fn lemma_find_none(tasks: Seq<Task>, name: Seq<char>)
    requires
        forall|j: int| 0 <= j < tasks.len() ==> #[trigger] tasks[j].name@ != name,
    ensures
        find_task(tasks, name) is None,
    decreases tasks.len(),
{
    if tasks.len() > 0 {
        lemma_find_none(tasks.drop_last(), name);
    }
}

/// The result of a run of the one task `task_name`: an error where it
/// failed, else success (a skipped task is no failure).
pub fn single_task_result(task_name: &str, outcome: &TaskOutcome) -> (r: Result<(), String>)
    ensures
        outcome is Failed ==> r is Err && r->Err_0@ == failed_message(task_name@),
        !(outcome is Failed) ==> r is Ok,
{
    match outcome {
        TaskOutcome::Failed(_) => {
            let mut message = String::from_str("Task ");
            message.append(task_name);
            message.append(" failed");
            Err(message)
        },
        _ => Ok(()),
    }
}

/// The result of a run of every task, given the outcome of each (the one at
/// index `i` for the task at `i`): an error that names every failed task,
/// in task order, if any failed; else success.
pub fn run_result(tasks: &Vec<Task>, outcomes: &Vec<TaskOutcome>) -> (r: Result<(), String>)
    requires
        outcomes@.len() == tasks@.len(),
    ensures
        match spec_run_result(tasks@, outcomes@) {
            Ok(_) => r is Ok,
            Err(message) => r is Err && r->Err_0@ == message,
        },
{
    let mut count: usize = 0;
    let mut lines = String::new();
    let mut i: usize = 0;
    while i < tasks.len()
        invariant
            outcomes@.len() == tasks@.len(),
            i <= tasks@.len(),
            count <= i,
            count == failed_names(tasks@, outcomes@, i as nat).len(),
            lines@ == name_lines(failed_names(tasks@, outcomes@, i as nat)),
        decreases tasks.len() - i,
    {
        if let TaskOutcome::Failed(_) = &outcomes[i] {
            let ghost names = failed_names(tasks@, outcomes@, i as nat);
            lines.append("\n> ");
            lines.append(tasks[i].name.as_str());
            count += 1;
            assert(failed_names(tasks@, outcomes@, (i + 1) as nat) == names.push(tasks@[i as int].name@));
            assert(names.push(tasks@[i as int].name@).drop_last() =~= names);
        }
        i += 1;
    }
    if count == 0 {
        return Ok(());
    }
    let mut message = String::from_str("Errors occurred in ");
    let number = decimal_string(count);
    message.append(number.as_str());
    message.append(" tasks:");
    message.append(lines.as_str());
    Err(message)
}

/// Whether the ledger records a task's run: only where it succeeded.
pub fn should_record(outcome: &TaskOutcome) -> (r: bool)
    ensures
        r == (outcome is Succeeded),
{
    match outcome {
        TaskOutcome::Succeeded => true,
        _ => false,
    }
}

/// Asking for a task that the list does not hold is fatal: the run is
/// refused with an error that names the task and says it was not found.
pub proof fn unknown_task_not_found(tasks: Seq<Task>, name: Seq<char>)
    requires
        forall|i: int| 0 <= i < tasks.len() ==> #[trigger] tasks[i].name@ != name,
    ensures
        find_task(tasks, name) is None,
        not_found_message(name) == "Task "@ + name + " not found"@,
{
    lemma_find_none(tasks, name);
}

/// Whether `name` is the name of a failed task among the first `n`.
pub open spec fn is_failed_task_name(tasks: Seq<Task>, outcomes: Seq<TaskOutcome>, n: nat, name: Seq<char>) -> bool {
    exists|i: int| 0 <= i < n && #[trigger] outcomes[i] is Failed && tasks[i].name@ == name
}

proof fn lemma_failed_names(tasks: Seq<Task>, outcomes: Seq<TaskOutcome>, n: nat)
    requires
        n <= tasks.len(),
        n <= outcomes.len(),
    ensures
        forall|i: int|
            0 <= i < n && #[trigger] outcomes[i] is Failed ==> failed_names(tasks, outcomes, n).contains(
                tasks[i].name@,
            ),
        forall|k: int|
            0 <= k < failed_names(tasks, outcomes, n).len() ==> is_failed_task_name(
                tasks,
                outcomes,
                n,
                #[trigger] failed_names(tasks, outcomes, n)[k],
            ),
        failed_names(tasks, outcomes, n).len() == 0 <==> forall|i: int|
            0 <= i < n ==> !(#[trigger] outcomes[i] is Failed),
    decreases n,
{
    if n > 0 {
        let m = (n - 1) as nat;
        lemma_failed_names(tasks, outcomes, m);
        let before = failed_names(tasks, outcomes, m);
        let after = failed_names(tasks, outcomes, n);
        assert forall|i: int|
            0 <= i < n && #[trigger] outcomes[i] is Failed implies after.contains(tasks[i].name@) by {
            if i < m {
                let k = choose|k: int| 0 <= k < before.len() && before[k] == tasks[i].name@;
                if outcomes[m as int] is Failed {
                    assert(after[k] == before[k]);
                }
            } else {
                assert(after[after.len() - 1] == tasks[i].name@);
            }
        }
        assert forall|k: int| 0 <= k < after.len() implies is_failed_task_name(
            tasks,
            outcomes,
            n,
            #[trigger] after[k],
        ) by {
            if k < before.len() {
                assert(after[k] == before[k]);
                assert(is_failed_task_name(tasks, outcomes, m, before[k]));
                let i = choose|i: int|
                    0 <= i < m && #[trigger] outcomes[i] is Failed && tasks[i].name@ == before[k];
                assert(0 <= i < n && outcomes[i] is Failed && tasks[i].name@ == after[k]);
            } else {
                assert(outcomes[m as int] is Failed);
                assert(after[k] == tasks[m as int].name@);
            }
        }
    }
}

/// A run of every task fails exactly where some task failed, and its error
/// lists the names of the failed tasks and no others.
pub proof fn aggregation(tasks: Seq<Task>, outcomes: Seq<TaskOutcome>)
    requires
        outcomes.len() == tasks.len(),
    ensures
        spec_run_result(tasks, outcomes) is Err <==> exists|i: int|
            0 <= i < tasks.len() && #[trigger] outcomes[i] is Failed,
        spec_run_result(tasks, outcomes) is Err ==> spec_run_result(tasks, outcomes)->Err_0
            == run_failure_message(failed_names(tasks, outcomes, tasks.len())),
        forall|i: int|
            0 <= i < tasks.len() && #[trigger] outcomes[i] is Failed ==> failed_names(
                tasks,
                outcomes,
                tasks.len(),
            ).contains(tasks[i].name@),
        forall|k: int|
            0 <= k < failed_names(tasks, outcomes, tasks.len()).len() ==> is_failed_task_name(
                tasks,
                outcomes,
                tasks.len(),
                #[trigger] failed_names(tasks, outcomes, tasks.len())[k],
            ),
{
    lemma_failed_names(tasks, outcomes, tasks.len());
}

} // verus!
