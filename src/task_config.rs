use vstd::prelude::*;
use vstd::string::*;

use crate::base_config::ConfigFormat;
use crate::config_value::{lookup, str_equal, ConfigValue};
use crate::os::{os_of_tag, Os};
use crate::shell::{shell_of_name, Shell};
use crate::task::{Command, Task};
use crate::task_runner::TaskList;
use crate::threads::get_thread_number;

verus! {

/// A command as read from a configuration: its name and arguments.
pub open spec fn command_view(c: Command) -> (Seq<char>, ConfigValue) {
    (c.name@, c.args)
}

/// A task as read from a configuration.
pub struct TaskView {
    pub name: Seq<char>,
    pub commands: Seq<(Seq<char>, ConfigValue)>,
    pub os: Seq<Os>,
    pub parallel: bool,
}

/// The view of a task.
pub open spec fn task_view(t: Task) -> TaskView {
    TaskView {
        name: t.name@,
        commands: t.commands@.map_values(|c: Command| command_view(c)),
        os: t.os@,
        parallel: t.parallel,
    }
}

/// The commands of one list item: a map from command names to arguments.
pub open spec fn commands_of_map(pairs: Seq<(String, ConfigValue)>) -> Seq<(Seq<char>, ConfigValue)> {
    pairs.map_values(|p: (String, ConfigValue)| (p.0@, p.1))
}

/// The commands of a list of maps, in order.
pub open spec fn commands_of_list(items: Seq<ConfigValue>) -> Result<Seq<(Seq<char>, ConfigValue)>, Seq<char>>
    decreases items.len(),
{
    if items.len() == 0 {
        Ok(Seq::empty())
    } else {
        match commands_of_list(items.drop_last()) {
            Err(e) => Err(e),
            Ok(done) => match items.last() {
                ConfigValue::Hash(pairs) => Ok(done + commands_of_map(pairs@)),
                _ => Err("command definition is incorrect"@),
            },
        }
    }
}

/// The error for a task without commands.
pub open spec fn no_commands_message(format: ConfigFormat) -> Seq<char> {
    match format {
        ConfigFormat::Yaml => "\nNo commands defined"@,
        ConfigFormat::Json => "No commands defined"@,
    }
}

/// The error for commands that are not a list.
pub open spec fn not_a_list_message(format: ConfigFormat) -> Seq<char> {
    match format {
        ConfigFormat::Yaml => "\nNo commands defined"@,
        ConfigFormat::Json => "Commands have to be a list"@,
    }
}

/// The commands of a task's definition.
pub open spec fn task_commands(commands: Option<ConfigValue>, format: ConfigFormat) -> Result<
    Seq<(Seq<char>, ConfigValue)>,
    Seq<char>,
> {
    match commands {
        None => Err(no_commands_message(format)),
        Some(ConfigValue::Null) => Err(no_commands_message(format)),
        Some(ConfigValue::Array(items)) => commands_of_list(items@),
        Some(_) => Err(not_a_list_message(format)),
    }
}

/// The platforms of a list of tags, in order.
pub open spec fn os_items(items: Seq<ConfigValue>) -> Result<Seq<Os>, Seq<char>>
    decreases items.len(),
{
    if items.len() == 0 {
        Ok(Seq::empty())
    } else {
        match os_items(items.drop_last()) {
            Err(e) => Err(e),
            Ok(done) => match items.last() {
                ConfigValue::String(s) => match os_of_tag(s@) {
                    Some(os) => Ok(done.push(os)),
                    None => Err("Unknown OS: "@ + s@),
                },
                _ => Err("os is in the wrong format"@),
            },
        }
    }
}

/// The platforms of a task's `os` entry: none, one tag or a list of tags.
pub open spec fn os_list(v: Option<ConfigValue>) -> Result<Seq<Os>, Seq<char>> {
    match v {
        None => Ok(Seq::empty()),
        Some(ConfigValue::Null) => Ok(Seq::empty()),
        Some(ConfigValue::String(s)) => match os_of_tag(s@) {
            Some(os) => Ok(seq![os]),
            None => Err("Unknown OS: "@ + s@),
        },
        Some(ConfigValue::Array(items)) => os_items(items@),
        Some(_) => Err("os is in the wrong format"@),
    }
}

/// A task's `parallel` flag: false where absent.
pub open spec fn parallel_flag(v: Option<ConfigValue>) -> Result<bool, Seq<char>> {
    match v {
        None => Ok(false),
        Some(ConfigValue::Boolean(b)) => Ok(b),
        Some(_) => Err("parallel: argument must be a boolean"@),
    }
}

/// The task defined under `name` by `value`.
pub open spec fn task_of(name: Seq<char>, value: ConfigValue, format: ConfigFormat) -> Result<TaskView, Seq<char>> {
    match value {
        ConfigValue::Hash(values) => match task_commands(lookup(values@, "commands"@), format) {
            Err(e) => Err(e),
            Ok(commands) => match os_list(lookup(values@, "os"@)) {
                Err(e) => Err(e),
                Ok(os) => match parallel_flag(lookup(values@, "parallel"@)) {
                    Err(e) => Err(e),
                    Ok(parallel) => Ok(TaskView { name, commands, os, parallel }),
                },
            },
        },
        _ => Err(name + ": task definition is incorrect"@),
    }
}

/// The tasks of a configuration's `tasks` map, in order.
pub open spec fn tasks_of(entries: Seq<(String, ConfigValue)>, format: ConfigFormat) -> Result<
    Seq<TaskView>,
    Seq<char>,
>
    decreases entries.len(),
{
    if entries.len() == 0 {
        Ok(Seq::empty())
    } else {
        match tasks_of(entries.drop_last(), format) {
            Err(e) => Err(e),
            Ok(done) => match task_of(entries.last().0@, entries.last().1, format) {
                Err(e) => Err(e),
                Ok(t) => Ok(done.push(t)),
            },
        }
    }
}

proof fn lemma_command_error_extends(items: Seq<ConfigValue>, k: int)
    requires
        0 <= k <= items.len(),
        commands_of_list(items.subrange(0, k)) is Err,
    ensures
        commands_of_list(items) == commands_of_list(items.subrange(0, k)),
    decreases items.len() - k,
{
    if k < items.len() {
        let next = items.subrange(0, k + 1);
        assert(next.drop_last() =~= items.subrange(0, k));
        lemma_command_error_extends(items, k + 1);
    } else {
        assert(items.subrange(0, k) =~= items);
    }
}

proof fn lemma_os_error_extends(items: Seq<ConfigValue>, k: int)
    requires
        0 <= k <= items.len(),
        os_items(items.subrange(0, k)) is Err,
    ensures
        os_items(items) == os_items(items.subrange(0, k)),
    decreases items.len() - k,
{
    if k < items.len() {
        let next = items.subrange(0, k + 1);
        assert(next.drop_last() =~= items.subrange(0, k));
        lemma_os_error_extends(items, k + 1);
    } else {
        assert(items.subrange(0, k) =~= items);
    }
}

/// The index of the first pair named `key`, if any.
fn find_key(entries: &Vec<(String, ConfigValue)>, key: &str) -> (r: Option<usize>)
    ensures
        match r {
            Some(i) => i < entries@.len() && lookup(entries@, key@) == Some(entries@[i as int].1),
            None => lookup(entries@, key@) is None,
        },
{
    let mut i: usize = 0;
    assert(entries@.subrange(0, entries@.len() as int) =~= entries@);
    while i < entries.len()
        invariant
            i <= entries@.len(),
            lookup(entries@, key@) == lookup(entries@.subrange(i as int, entries@.len() as int), key@),
        decreases entries.len() - i,
    {
        proof {
            let rest = entries@.subrange(i as int, entries@.len() as int);
            assert(rest.drop_first() =~= entries@.subrange(i + 1, entries@.len() as int));
            assert(rest[0] == entries@[i as int]);
        }
        if str_equal(entries[i].0.as_str(), key) {
            return Some(i);
        }
        i += 1;
    }
    None
}

/// Takes the value of the first pair named `key` out of `entries`.
fn take_value(entries: &mut Vec<(String, ConfigValue)>, key: &str) -> (r: Option<ConfigValue>)
    ensures
        r == lookup(old(entries)@, key@),
{
    match find_key(entries, key) {
        Some(i) => {
            let (_, value) = entries.remove(i);
            Some(value)
        },
        None => None,
    }
}

/// The platforms of a task's `os` entry.
fn parse_os_list(v: Option<&ConfigValue>) -> (r: Result<Vec<Os>, String>)
    ensures
        match os_list(crate::config_value::opt_value(v)) {
            Ok(os) => r is Ok && r->Ok_0@ == os,
            Err(e) => r is Err && r->Err_0@ == e,
        },
{
    match v {
        None => Ok(Vec::new()),
        Some(ConfigValue::Null) => Ok(Vec::new()),
        Some(ConfigValue::String(s)) => match Os::from_str(s.as_str()) {
            Ok(os) => Ok(vec![os]),
            Err(e) => Err(e),
        },
        Some(ConfigValue::Array(items)) => {
            let mut out: Vec<Os> = Vec::new();
            let mut i: usize = 0;
            while i < items.len()
                invariant
                    crate::config_value::opt_value(v) == Some(ConfigValue::Array(*items)),
                    i <= items@.len(),
                    os_items(items@.subrange(0, i as int)) == Ok::<Seq<Os>, Seq<char>>(out@),
                decreases items.len() - i,
            {
                proof {
                    let next = items@.subrange(0, i + 1);
                    assert(next.drop_last() =~= items@.subrange(0, i as int));
                    assert(next.last() == items@[i as int]);
                }
                match &items[i] {
                    ConfigValue::String(s) => match Os::from_str(s.as_str()) {
                        Ok(os) => {
                            out.push(os);
                        },
                        Err(e) => {
                            proof {
                                lemma_os_error_extends(items@, i + 1);
                            }
                            return Err(e);
                        },
                    },
                    _ => {
                        proof {
                            lemma_os_error_extends(items@, i + 1);
                        }
                        return Err(String::from_str("os is in the wrong format"));
                    },
                }
                i += 1;
            }
            assert(items@.subrange(0, items@.len() as int) =~= items@);
            Ok(out)
        },
        Some(_) => Err(String::from_str("os is in the wrong format")),
    }
}

/// The commands of a list of maps, each map's pairs in order.
fn parse_command_list(list: Vec<ConfigValue>) -> (r: Result<Vec<Command>, String>)
    ensures
        match commands_of_list(list@) {
            Ok(cs) => r is Ok && r->Ok_0@.map_values(|c: Command| command_view(c)) == cs,
            Err(e) => r is Err && r->Err_0@ == e,
        },
{
    let ghost all = list@;
    let mut items = list;
    let mut out: Vec<Command> = Vec::new();
    let ghost mut k: int = 0;
    assert(out@.map_values(|c: Command| command_view(c)) =~= Seq::<(Seq<char>, ConfigValue)>::empty());
    assert(all.subrange(0, 0) =~= Seq::<ConfigValue>::empty());
    while items.len() > 0
        invariant
            all == list@,
            0 <= k,
            k + items@.len() == all.len(),
            items@ == all.subrange(k, all.len() as int),
            commands_of_list(all.subrange(0, k)) == Ok::<Seq<(Seq<char>, ConfigValue)>, Seq<char>>(
                out@.map_values(|c: Command| command_view(c)),
            ),
        decreases items.len(),
    {
        proof {
            let next = all.subrange(0, k + 1);
            assert(next.drop_last() =~= all.subrange(0, k));
            assert(next.last() == all[k]);
            assert(items@[0] == all[k]);
        }
        let item = items.remove(0);
        match item {
            ConfigValue::Hash(pairs) => {
                let ghost before = out@.map_values(|c: Command| command_view(c));
                let ghost all_pairs = pairs@;
                let mut pairs = pairs;
                let ghost mut j: int = 0;
                assert(before + commands_of_map(all_pairs.subrange(0, 0)) =~= before);
                while pairs.len() > 0
                    invariant
                        0 <= j,
                        j + pairs@.len() == all_pairs.len(),
                        pairs@ == all_pairs.subrange(j, all_pairs.len() as int),
                        out@.map_values(|c: Command| command_view(c)) == before + commands_of_map(
                            all_pairs.subrange(0, j),
                        ),
                    decreases pairs.len(),
                {
                    let (name, args) = pairs.remove(0);
                    proof {
                        assert(all_pairs[j] == (name, args));
                    }
                    let ghost prev = out@;
                    out.push(Command { name, args });
                    proof {
                        assert(commands_of_map(all_pairs.subrange(0, j + 1)) =~= commands_of_map(
                            all_pairs.subrange(0, j),
                        ).push(command_view(out@.last())));
                        assert(out@.map_values(|c: Command| command_view(c)) =~= prev.map_values(
                            |c: Command| command_view(c),
                        ).push(command_view(out@.last())));
                    }
                    proof {
                        j = j + 1;
                    }
                }
                assert(all_pairs.subrange(0, all_pairs.len() as int) =~= all_pairs);
            },
            _ => {
                proof {
                    let next = all.subrange(0, k + 1);
                    assert(commands_of_list(next) == Err::<Seq<(Seq<char>, ConfigValue)>, Seq<char>>(
                        "command definition is incorrect"@,
                    ));
                    lemma_command_error_extends(all, k + 1);
                }
                return Err(String::from_str("command definition is incorrect"));
            },
        }
        proof {
            k = k + 1;
        }
    }
    assert(all.subrange(0, all.len() as int) =~= all);
    Ok(out)
}

proof fn lemma_task_error_extends(entries: Seq<(String, ConfigValue)>, k: int, format: ConfigFormat)
    requires
        0 <= k <= entries.len(),
        tasks_of(entries.subrange(0, k), format) is Err,
    ensures
        tasks_of(entries, format) == tasks_of(entries.subrange(0, k), format),
    decreases entries.len() - k,
{
    if k < entries.len() {
        let next = entries.subrange(0, k + 1);
        assert(next.drop_last() =~= entries.subrange(0, k));
        lemma_task_error_extends(entries, k + 1, format);
    } else {
        assert(entries.subrange(0, k) =~= entries);
    }
}

/// The value of the first pair named `key`, if any.
fn lookup_ref<'a>(entries: &'a Vec<(String, ConfigValue)>, key: &str) -> (r: Option<&'a ConfigValue>)
    ensures
        crate::config_value::opt_value(r) == lookup(entries@, key@),
{
    match find_key(entries, key) {
        Some(i) => Some(&entries[i].1),
        None => None,
    }
}

fn no_commands_error(format: ConfigFormat) -> (r: String)
    ensures
        r@ == no_commands_message(format),
{
    match format {
        ConfigFormat::Yaml => String::from_str("\nNo commands defined"),
        ConfigFormat::Json => String::from_str("No commands defined"),
    }
}

/// Reads the task defined under `name` by `value`.
pub fn parse_task(name: String, value: ConfigValue, format: ConfigFormat) -> (r: Result<Task, String>)
    ensures
        match task_of(name@, value, format) {
            Ok(t) => r is Ok && task_view(r->Ok_0) == t,
            Err(e) => r is Err && r->Err_0@ == e,
        },
{
    match value {
        ConfigValue::Hash(values) => {
            let os = parse_os_list(lookup_ref(&values, "os"));
            let parallel: Result<bool, String> = match lookup_ref(&values, "parallel") {
                None => Ok(false),
                Some(ConfigValue::Boolean(b)) => Ok(*b),
                Some(_) => Err(String::from_str("parallel: argument must be a boolean")),
            };
            let mut values = values;
            let commands_value = take_value(&mut values, "commands");
            let commands = match commands_value {
                None => {
                    return Err(no_commands_error(format));
                },
                Some(ConfigValue::Null) => {
                    return Err(no_commands_error(format));
                },
                Some(ConfigValue::Array(items)) => match parse_command_list(items) {
                    Ok(c) => c,
                    Err(e) => {
                        return Err(e);
                    },
                },
                Some(_) => {
                    return Err(match format {
                        ConfigFormat::Yaml => String::from_str("\nNo commands defined"),
                        ConfigFormat::Json => String::from_str("Commands have to be a list"),
                    });
                },
            };
            let os = match os {
                Ok(o) => o,
                Err(e) => {
                    return Err(e);
                },
            };
            let parallel = match parallel {
                Ok(p) => p,
                Err(e) => {
                    return Err(e);
                },
            };
            Ok(Task { name, commands, os, parallel })
        },
        _ => {
            let mut message = name;
            message.append(": task definition is incorrect");
            Err(message)
        },
    }
}

/// The tasks under a configuration's `tasks` key.
pub open spec fn tasks_value(v: Option<ConfigValue>, format: ConfigFormat) -> Result<Seq<TaskView>, Seq<char>> {
    match v {
        None => Err("\nNo tasks defined"@),
        Some(ConfigValue::Null) => Err("\nNo tasks defined"@),
        Some(ConfigValue::Hash(entries)) => tasks_of(entries@, format),
        Some(_) => Err("Tasks have to be a map"@),
    }
}

/// The default shell of a configuration: bash where none is named.
pub open spec fn default_shell_of(v: Option<ConfigValue>) -> Result<Shell, Seq<char>> {
    match v {
        Some(ConfigValue::String(s)) => match shell_of_name(s@) {
            Some(shell) => Ok(shell),
            None => Err("default_shell: "@ + ("Unknown shell: "@ + s@)),
        },
        _ => Ok(Shell::Bash),
    }
}

/// The directory for generated files: `~/.machine_setup` where none is
/// named.
pub open spec fn temp_dir_of(v: Option<ConfigValue>) -> Seq<char> {
    match v {
        Some(ConfigValue::String(s)) => s@,
        _ => "~/.machine_setup"@,
    }
}

/// A boolean setting, false unless it is `true`.
pub open spec fn flag_of(v: Option<ConfigValue>) -> bool {
    match v {
        Some(ConfigValue::Boolean(b)) => b,
        _ => false,
    }
}

/// Reads the tasks of a `tasks` map, in order.
fn parse_tasks(list: Vec<(String, ConfigValue)>, format: ConfigFormat) -> (r: Result<Vec<Task>, String>)
    ensures
        match tasks_of(list@, format) {
            Ok(ts) => r is Ok && r->Ok_0@.map_values(|t: Task| task_view(t)) == ts,
            Err(e) => r is Err && r->Err_0@ == e,
        },
{
    let ghost all = list@;
    let mut entries = list;
    let mut tasks: Vec<Task> = Vec::new();
    let ghost mut k: int = 0;
    assert(tasks@.map_values(|t: Task| task_view(t)) =~= Seq::<TaskView>::empty());
    assert(all.subrange(0, 0) =~= Seq::<(String, ConfigValue)>::empty());
    while entries.len() > 0
        invariant
            all == list@,
            0 <= k,
            k + entries@.len() == all.len(),
            entries@ == all.subrange(k, all.len() as int),
            tasks_of(all.subrange(0, k), format) == Ok::<Seq<TaskView>, Seq<char>>(
                tasks@.map_values(|t: Task| task_view(t)),
            ),
        decreases entries.len(),
    {
        proof {
            let next = all.subrange(0, k + 1);
            assert(next.drop_last() =~= all.subrange(0, k));
            assert(next.last() == all[k]);
            assert(entries@[0] == all[k]);
        }
        let (name, value) = entries.remove(0);
        match parse_task(name, value, format) {
            Ok(task) => {
                let ghost prev = tasks@;
                tasks.push(task);
                assert(tasks@.map_values(|t: Task| task_view(t)) =~= prev.map_values(|t: Task| task_view(t)).push(
                    task_view(tasks@.last()),
                ));
            },
            Err(e) => {
                proof {
                    lemma_task_error_extends(all, k + 1, format);
                }
                return Err(e);
            },
        }
        proof {
            k = k + 1;
        }
    }
    assert(all.subrange(0, all.len() as int) =~= all);
    Ok(tasks)
}

/// Builds the run's configuration from a configuration file's value: the
/// `tasks` map (required), and the optional `temp_dir`, `default_shell`,
/// `parallel` and `num_threads` settings.
pub fn parse_task_list(config: ConfigValue, format: ConfigFormat) -> (r: Result<TaskList, String>)
    ensures
        match config {
            ConfigValue::Hash(entries) => match tasks_value(lookup(entries@, "tasks"@), format) {
                Err(e) => r is Err && r->Err_0@ == e,
                Ok(tasks) => match default_shell_of(lookup(entries@, "default_shell"@)) {
                    Err(e) => r is Err && r->Err_0@ == e,
                    Ok(shell) => r is Ok && r->Ok_0.tasks@.map_values(|t: Task| task_view(t)) == tasks
                        && r->Ok_0.default_shell == shell && r->Ok_0.temp_dir@ == temp_dir_of(
                        lookup(entries@, "temp_dir"@),
                    ) && r->Ok_0.parallel == flag_of(lookup(entries@, "parallel"@)) && match lookup(
                        entries@,
                        "num_threads"@,
                    ) {
                        Some(ConfigValue::Integer(n)) => r->Ok_0.num_threads == if n >= 0 {
                            n as usize
                        } else {
                            1usize
                        },
                        _ => r->Ok_0.num_threads < usize::MAX,
                    },
                },
            },
            _ => r is Err && r->Err_0@ == "\nNo tasks defined"@,
        },
{
    let mut entries = match config {
        ConfigValue::Hash(entries) => entries,
        _ => {
            return Err(String::from_str("\nNo tasks defined"));
        },
    };
    let temp_dir = match lookup_ref(&entries, "temp_dir") {
        Some(ConfigValue::String(s)) => s.clone(),
        _ => String::from_str("~/.machine_setup"),
    };
    let shell: Result<Shell, String> = match lookup_ref(&entries, "default_shell") {
        Some(ConfigValue::String(s)) => match Shell::from_str(s.as_str()) {
            Ok(shell) => Ok(shell),
            Err(e) => {
                let mut message = String::from_str("default_shell: ");
                message.append(e.as_str());
                Err(message)
            },
        },
        _ => Ok(Shell::Bash),
    };
    let parallel = match lookup_ref(&entries, "parallel") {
        Some(ConfigValue::Boolean(b)) => *b,
        _ => false,
    };
    let configured: Option<i64> = match lookup_ref(&entries, "num_threads") {
        Some(ConfigValue::Integer(n)) => Some(*n as i64),
        _ => None,
    };
    let num_threads = get_thread_number(configured);
    let tasks = match take_value(&mut entries, "tasks") {
        None => {
            return Err(String::from_str("\nNo tasks defined"));
        },
        Some(ConfigValue::Null) => {
            return Err(String::from_str("\nNo tasks defined"));
        },
        Some(ConfigValue::Hash(task_entries)) => match parse_tasks(task_entries, format) {
            Ok(t) => t,
            Err(e) => {
                return Err(e);
            },
        },
        Some(_) => {
            return Err(String::from_str("Tasks have to be a map"));
        },
    };
    let default_shell = match shell {
        Ok(s) => s,
        Err(e) => {
            return Err(e);
        },
    };
    Ok(TaskList { tasks, temp_dir, default_shell, num_threads, parallel })
}

/// The reader of JSON configuration files.
pub struct JsonConfig {}

/// The reader of YAML configuration files.
pub struct YamlConfig {}

impl JsonConfig {
    /// Builds the run's configuration from a JSON file's value.
    pub fn parse(config: ConfigValue) -> (r: Result<TaskList, String>)
        ensures
            match config {
                ConfigValue::Hash(entries) => match tasks_value(lookup(entries@, "tasks"@), ConfigFormat::Json) {
                    Err(e) => r is Err && r->Err_0@ == e,
                    Ok(tasks) => match default_shell_of(lookup(entries@, "default_shell"@)) {
                        Err(e) => r is Err && r->Err_0@ == e,
                        Ok(shell) => r is Ok && r->Ok_0.tasks@.map_values(|t: Task| task_view(t)) == tasks
                            && r->Ok_0.default_shell == shell,
                    },
                },
                _ => r is Err && r->Err_0@ == "\nNo tasks defined"@,
            },
    {
        parse_task_list(config, ConfigFormat::Json)
    }
}

impl YamlConfig {
    /// Builds the run's configuration from a YAML file's value.
    pub fn parse(config: ConfigValue) -> (r: Result<TaskList, String>)
        ensures
            match config {
                ConfigValue::Hash(entries) => match tasks_value(lookup(entries@, "tasks"@), ConfigFormat::Yaml) {
                    Err(e) => r is Err && r->Err_0@ == e,
                    Ok(tasks) => match default_shell_of(lookup(entries@, "default_shell"@)) {
                        Err(e) => r is Err && r->Err_0@ == e,
                        Ok(shell) => r is Ok && r->Ok_0.tasks@.map_values(|t: Task| task_view(t)) == tasks
                            && r->Ok_0.default_shell == shell,
                    },
                },
                _ => r is Err && r->Err_0@ == "\nNo tasks defined"@,
            },
    {
        parse_task_list(config, ConfigFormat::Yaml)
    }
}

} // verus!
