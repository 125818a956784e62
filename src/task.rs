use vstd::prelude::*;

use crate::command::{command_of_name, get_command, unknown_command_message, CommandKind};
use crate::config_value::ConfigValue;
use crate::os::Os;
use crate::task_runner::TaskRunnerMode;

verus! {

/// One step of a task: the name selects the command kind, the arguments are
/// handed to it.
pub struct Command {
    pub name: String,
    pub args: ConfigValue,
}

/// A named unit of work: commands run in order, or all at once when
/// `parallel` is set, on the platforms listed in `os` (all when empty).
pub struct Task {
    pub name: String,
    pub commands: Vec<Command>,
    pub os: Vec<Os>,
    pub parallel: bool,
}

/// The names of `tasks`, in order.
pub fn get_task_names(tasks: &[Task]) -> (r: Vec<String>)
    ensures
        r@.len() == tasks@.len(),
        forall|i: int| 0 <= i < tasks@.len() ==> #[trigger] r@[i]@ == tasks@[i].name@,
{
    let mut names: Vec<String> = Vec::new();
    let mut i: usize = 0;
    while i < tasks.len()
        invariant
            i <= tasks@.len(),
            names@.len() == i,
            forall|j: int| 0 <= j < i ==> #[trigger] names@[j]@ == tasks@[j].name@,
        decreases tasks.len() - i,
    {
        names.push(tasks[i].name.clone());
        i += 1;
    }
    names
}

/// A task is skipped when it lists platforms and the current one (`None`:
/// a platform without a tag) is not among them.
pub open spec fn spec_should_skip(task: Task, current: Option<Os>) -> bool {
    task.os@.len() > 0 && !(current is Some && task.os@.contains(current->0))
}

/// Whether `task` is skipped on the platform `current` (`None` where the
/// platform has no tag).
pub fn should_skip_task(task: &Task, current: Option<Os>) -> (r: bool)
    ensures
        r == spec_should_skip(*task, current),
{
    if task.os.len() == 0 {
        return false;
    }
    let here = match current {
        Some(os) => os,
        None => {
            return true;
        },
    };
    let mut i: usize = 0;
    while i < task.os.len()
        invariant
            i <= task.os@.len(),
            current == Some(here),
            forall|j: int| 0 <= j < i ==> task.os@[j] != here,
        decreases task.os.len() - i,
    {
        if task.os[i] == here {
            assert(task.os@[i as int] == here);
            return false;
        }
        i += 1;
    }
    true
}

/// What a worker is to call for one command: an operation of a kind.
#[derive(PartialEq, Eq, Structural, Clone, Copy, Debug)]
pub struct Dispatch {
    pub kind: CommandKind,
    pub mode: TaskRunnerMode,
}

/// The work for the command at `index`: a dispatch, or the error that
/// resolving its name gave.
pub struct Job {
    pub index: usize,
    pub dispatch: Result<Dispatch, String>,
}

/// What the engine does with a task: nothing, or its jobs on a pool of
/// `workers` threads.
pub enum TaskPlan {
    Skip,
    Run { workers: usize, jobs: Vec<Job> },
}

/// A command that failed, with its message.
pub struct CommandFailure {
    pub command: String,
    pub message: String,
}

/// How a task ended.
pub enum TaskOutcome {
    Skipped,
    Succeeded,
    Failed(Vec<CommandFailure>),
}

impl View for Job {
    type V = (int, Result<Dispatch, Seq<char>>);

    open spec fn view(&self) -> (int, Result<Dispatch, Seq<char>>) {
        (
            self.index as int,
            match self.dispatch {
                Ok(d) => Ok(d),
                Err(e) => Err(e@),
            },
        )
    }
}

impl View for CommandFailure {
    type V = (Seq<char>, Seq<char>);

    open spec fn view(&self) -> (Seq<char>, Seq<char>) {
        (self.command@, self.message@)
    }
}

/// The size of the pool for a task's commands.
pub open spec fn spec_worker_count(task: Task) -> int {
    if task.parallel {
        task.commands@.len() as int
    } else {
        1
    }
}

/// What resolving a command's name in `mode` gives.
pub open spec fn resolve(command: Command, mode: TaskRunnerMode) -> Result<Dispatch, Seq<char>> {
    match command_of_name(command.name@) {
        Some(kind) => Ok(Dispatch { kind, mode }),
        None => Err(unknown_command_message(command.name@)),
    }
}

/// The jobs for a task that runs: one for each command, in order, each
/// resolved on its own.
pub open spec fn planned_jobs(task: Task, mode: TaskRunnerMode) -> Seq<(int, Result<Dispatch, Seq<char>>)> {
    Seq::new(task.commands@.len(), |i: int| (i, resolve(task.commands@[i], mode)))
}

/// The failures among the first `n` results: each failing command with its
/// message, in command order.
pub open spec fn failures_upto(
    commands: Seq<Command>,
    results: Seq<Result<(), String>>,
    n: nat,
) -> Seq<(Seq<char>, Seq<char>)>
    decreases n,
{
    if n == 0 {
        Seq::empty()
    } else {
        let earlier = failures_upto(commands, results, (n - 1) as nat);
        match results[n - 1] {
            Err(e) => earlier.push((commands[n - 1].name@, e@)),
            Ok(_) => earlier,
        }
    }
}

/// The failures of a task whose commands gave `results`.
pub open spec fn task_failures(task: Task, results: Seq<Result<(), String>>) -> Seq<(Seq<char>, Seq<char>)> {
    failures_upto(task.commands@, results, task.commands@.len())
}

impl Task {
    /// The size of the pool for the task's commands: one per command when
    /// parallel, else one.
    pub fn worker_count(&self) -> (r: usize)
        ensures
            r == spec_worker_count(*self),
    {
        if self.parallel {
            self.commands.len()
        } else {
            1
        }
    }

    /// Decides what to do with the task in `mode` on the platform `current`:
    /// skip it, or run a job for every command. A command whose name is
    /// unknown gets a job that carries the lookup error, and the others are
    /// dispatched all the same.
    pub fn plan(&self, mode: TaskRunnerMode, current: Option<Os>) -> (r: TaskPlan)
        ensures
            spec_should_skip(*self, current) ==> r is Skip,
            !spec_should_skip(*self, current) ==> r is Run && r->workers == spec_worker_count(*self)
                && r->jobs@.map_values(|j: Job| j@) == planned_jobs(*self, mode),
    {
        if should_skip_task(self, current) {
            return TaskPlan::Skip;
        }
        let mut jobs: Vec<Job> = Vec::new();
        let mut i: usize = 0;
        while i < self.commands.len()
            invariant
                i <= self.commands@.len(),
                jobs@.len() == i,
                forall|j: int| 0 <= j < i ==> #[trigger] jobs@[j]@ == planned_jobs(*self, mode)[j],
            decreases self.commands.len() - i,
        {
            let dispatch = match get_command(self.commands[i].name.as_str()) {
                Ok(kind) => Ok(Dispatch { kind, mode }),
                Err(e) => Err(e),
            };
            jobs.push(Job { index: i, dispatch });
            i += 1;
        }
        assert(jobs@.map_values(|j: Job| j@) =~= planned_jobs(*self, mode));
        TaskPlan::Run { workers: self.worker_count(), jobs }
    }

    /// The outcome of the task once its commands gave `results` (the one
    /// at index `i` for the command at `i`): failed, with every failing
    /// command in order, if any failed; else succeeded.
    pub fn outcome(&self, results: &Vec<Result<(), String>>) -> (r: TaskOutcome)
        requires
            results@.len() == self.commands@.len(),
        ensures
            task_failures(*self, results@).len() == 0 ==> r is Succeeded,
            task_failures(*self, results@).len() > 0 ==> r is Failed
                && r->Failed_0@.map_values(|f: CommandFailure| f@) == task_failures(*self, results@),
    {
        let mut failures: Vec<CommandFailure> = Vec::new();
        let mut i: usize = 0;
        while i < results.len()
            invariant
                results@.len() == self.commands@.len(),
                i <= results@.len(),
                failures@.map_values(|f: CommandFailure| f@) == failures_upto(self.commands@, results@, i as nat),
            decreases results.len() - i,
        {
            match &results[i] {
                Err(e) => {
                    let failure = CommandFailure { command: self.commands[i].name.clone(), message: e.clone() };
                    let ghost before = failures@;
                    failures.push(failure);
                    assert(failures@.map_values(|f: CommandFailure| f@) =~= before.map_values(
                        |f: CommandFailure| f@,
                    ).push(failure@));
                },
                Ok(_) => {},
            }
            i += 1;
        }
        if failures.len() == 0 {
            TaskOutcome::Succeeded
        } else {
            TaskOutcome::Failed(failures)
        }
    }
}

/// A task that lists no platform is never skipped, on any platform, tagged
/// or not; one that lists some is skipped exactly where the current
/// platform is not among them.
pub proof fn os_gate(task: Task, current: Option<Os>)
    ensures
        task.os@.len() == 0 ==> !spec_should_skip(task, current),
        task.os@.len() > 0 ==> (spec_should_skip(task, current) <==> !(current is Some
            && task.os@.contains(current->0))),
{
}

/// The number of failed results among the first `n`.
pub open spec fn error_count(results: Seq<Result<(), String>>, n: nat) -> nat
    decreases n,
{
    if n == 0 {
        0
    } else if results[n - 1] is Err {
        error_count(results, (n - 1) as nat) + 1
    } else {
        error_count(results, (n - 1) as nat)
    }
}

proof fn lemma_failure_count(commands: Seq<Command>, results: Seq<Result<(), String>>, n: nat)
    requires
        n <= results.len(),
        n <= commands.len(),
    ensures
        failures_upto(commands, results, n).len() == error_count(results, n),
        failures_upto(commands, results, n).len() == 0 <==> forall|i: int|
            0 <= i < n ==> #[trigger] results[i] is Ok,
    decreases n,
{
    if n > 0 {
        lemma_failure_count(commands, results, (n - 1) as nat);
    }
}

/// Command failures are independent: a task that runs gets a job for every
/// command, in order, each resolved on its own whatever the mode, the
/// parallel flag or the other commands; and the task's failures are exactly
/// its failing commands, one for each, so that a failing command neither
/// hides nor stops the others.
pub proof fn independent_failures(task: Task, mode: TaskRunnerMode, results: Seq<Result<(), String>>)
    requires
        results.len() == task.commands@.len(),
    ensures
        planned_jobs(task, mode).len() == task.commands@.len(),
        forall|i: int|
            0 <= i < task.commands@.len() ==> #[trigger] planned_jobs(task, mode)[i] == (
                i,
                resolve(task.commands@[i], mode),
            ),
        task_failures(task, results).len() == error_count(results, results.len()),
        task_failures(task, results).len() == 0 <==> forall|i: int|
            0 <= i < results.len() ==> #[trigger] results[i] is Ok,
{
    lemma_failure_count(task.commands@, results, results.len());
}

/// A command whose name no kind is registered under fails on its own: its
/// job carries the lookup error, and every other command keeps its own job.
pub proof fn unknown_command_fails_alone(task: Task, mode: TaskRunnerMode, i: int)
    requires
        0 <= i < task.commands@.len(),
        command_of_name(task.commands@[i].name@) is None,
    ensures
        planned_jobs(task, mode)[i].1 == Err::<Dispatch, Seq<char>>(unknown_command_message(task.commands@[i].name@)),
        forall|j: int|
            0 <= j < task.commands@.len() && j != i ==> #[trigger] planned_jobs(task, mode)[j].1 == resolve(
                task.commands@[j],
                mode,
            ),
{
}

} // verus!
