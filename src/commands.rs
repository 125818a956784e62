use vstd::prelude::*;
use vstd::string::*;

use crate::arguments::{
    all_strings, named_message, optional_string, optional_string_arg, required_string,
    required_string_arg, string_items, strings_of, texts,
};
use crate::config_value::{lookup, ConfigValue};
use crate::directory::{get_relative_dir, relative_dir};
use crate::shell::{regex_replaced, shell_name, strip_line_err_info, Shell, LINE_INFO_PATTERN};
use crate::task_runner::{decimal, decimal_string, mode_name, TaskRunnerMode};
use crate::validation::{
    arguments_are_named, basic_accepts, first_rejection, joined_texts, named_args_outcome,
    rule_accepts, rule_text, validate_args, validate_named_args, BasicRule, IsArray, IsString, OneOf,
    Rule,
};

verus! {

/// Copies a directory tree into a target directory.
pub struct CopyDirCommand {}

/// Links every file of a directory tree into a target directory.
pub struct SymlinkCommand {}

/// Clones a git repository into a target directory.
pub struct CloneCommand {}

/// Runs shell commands from a generated script.
pub struct RunCommand {}

/// Runs another configuration file.
pub struct MachineSetupCommand {}

/// The text of the rule that a value be a list or a string.
pub open spec fn string_or_list_message() -> Seq<char> {
    "OneOf: "@ + ("argument must be an array"@ + " | "@ + "argument must be a string"@)
}

/// The error for a value that is neither a string nor a list.
pub open spec fn shape_message(v: ConfigValue) -> Seq<char> {
    if v is Hash {
        named_message()
    } else {
        string_or_list_message()
    }
}

/// The commands that a string or a list of strings stands for.
pub open spec fn command_list(v: ConfigValue) -> Result<Seq<Seq<char>>, Seq<char>> {
    match v {
        ConfigValue::String(s) => Ok(seq![s@]),
        ConfigValue::Array(items) => if all_strings(items@) {
            Ok(string_items(items@))
        } else {
            Err("commands have to be strings"@)
        },
        _ => Err(shape_message(v)),
    }
}

/// The commands of a `run` command in `mode`: the arguments themselves, or,
/// where they are named, the value under the mode's name.
pub open spec fn run_commands_of(args: ConfigValue, mode: TaskRunnerMode) -> Result<Seq<Seq<char>>, Seq<char>> {
    match args {
        ConfigValue::Hash(entries) => match lookup(entries@, mode_name(mode)) {
            None => Err(mode_name(mode) + " is not defined..."@),
            Some(v) => if v is String || v is Array {
                command_list(v)
            } else {
                Err(mode_name(mode) + ": "@ + string_or_list_message())
            },
        },
        _ => command_list(args),
    }
}

/// The view of a list of commands, or an error.
pub open spec fn texts_result(r: Result<Vec<String>, String>) -> Result<Seq<Seq<char>>, Seq<char>> {
    match r {
        Ok(v) => Ok(texts(v@)),
        Err(e) => Err(e@),
    }
}

/// The commands that a string or a list of strings stands for.
pub fn get_commands_from_yaml(args: &ConfigValue) -> (r: Result<Vec<String>, String>)
    ensures
        texts_result(r) == command_list(*args),
{
    match args {
        ConfigValue::String(s) => {
            let v = vec![s.clone()];
            assert(texts(v@) =~= seq![s@]);
            Ok(v)
        },
        ConfigValue::Array(items) => match strings_of(items) {
            Some(v) => Ok(v),
            None => Err(String::from_str("commands have to be strings")),
        },
        ConfigValue::Hash(_) => Err(String::from_str("Expected positional arguments, got named arguments")),
        _ => {
            let mut message = String::from_str("OneOf: ");
            message.append("argument must be an array");
            message.append(" | ");
            message.append("argument must be a string");
            assert(message@ =~= shape_message(*args));
            Err(message)
        },
    }
}

fn string_or_list_rule() -> (r: Rule)
    ensures
        r == Rule::OneOf(r->OneOf_0),
        r->OneOf_0.rules@ == seq![BasicRule::IsArray(IsArray {}), BasicRule::IsString(IsString {})],
{
    Rule::OneOf(OneOf { rules: vec![BasicRule::IsArray(IsArray {}), BasicRule::IsString(IsString {})] })
}

/// The commands that a `run` command runs in `mode`: its arguments, a
/// string or a list of strings, or where they are named, the one under the
/// mode's name (`install`, `update`, `uninstall`).
pub fn get_commands(args: &ConfigValue, mode: TaskRunnerMode) -> (r: Result<Vec<String>, String>)
    ensures
        texts_result(r) == run_commands_of(*args, mode),
{
    let rule = string_or_list_rule();
    proof {
        let rules = rule->OneOf_0.rules@;
        assert(rules.drop_last() =~= seq![BasicRule::IsArray(IsArray {})]);
        assert(joined_texts(rules.drop_last()) == "argument must be an array"@);
        assert(rules.last() == BasicRule::IsString(IsString {}));
        assert(joined_texts(rules) == "argument must be an array"@ + " | "@ + "argument must be a string"@);
        assert(string_or_list_message() == rule_text(rule));
        assert(forall|v: ConfigValue| !(v is Hash) ==> #[trigger] shape_message(v) == rule_text(rule));
        assert(forall|v: ConfigValue| #[trigger] rule_accepts(rule, Some(v)) <==> (v is Array || v is String)) by {
            assert forall|v: ConfigValue| #[trigger] rule_accepts(rule, Some(v)) <==> (v is Array || v is String) by {
                if v is Array {
                    assert(basic_accepts(rules[0], Some(v)));
                }
                if v is String {
                    assert(basic_accepts(rules[1], Some(v)));
                }
            }
        }
    }
    let method = mode.to_string();
    if arguments_are_named(Some(args)) {
        if args.get(method.as_str()).is_none() {
            let mut message = method.clone();
            message.append(" is not defined...");
            return Err(message);
        }
        let rules: Vec<(String, Vec<Rule>)> = vec![(method.clone(), vec![rule])];
        let checked = validate_named_args(args, rules);
        proof {
            let entries = args->Hash_0@;
            assert(rules@.drop_first().len() == 0);
            assert(named_args_outcome(entries, rules@.drop_first()) == Ok::<(), Seq<char>>(()));
            assert(rules@[0].1@.drop_first().len() == 0);
            let input = lookup(entries, method@);
            assert(first_rejection(rules@[0].1@.drop_first(), input) is None);
        }
        if let Err(e) = checked {
            return Err(e);
        }
        match args.get(method.as_str()) {
            Some(value) => get_commands_from_yaml(value),
            None => Err(String::new()),
        }
    } else {
        let rules = vec![rule];
        let checked = validate_args(Some(args), &rules);
        proof {
            assert(rules@.drop_first().len() == 0);
            assert(first_rejection(rules@.drop_first(), Some(*args)) is None);
        }
        if let Err(e) = checked {
            return Err(e);
        }
        get_commands_from_yaml(args)
    }
}

/// What the `commands` and `shell` arguments of a `run` command give: the
/// commands' value and the shell's name, the default shell where none is
/// given.
pub open spec fn run_arguments(args: ConfigValue, default_shell: Shell) -> Result<
    (ConfigValue, Seq<char>),
    Seq<char>,
> {
    match args {
        ConfigValue::Hash(entries) => match lookup(entries@, "commands"@) {
            None => Err("\"commands\" key is missing in args"@),
            Some(c) => match lookup(entries@, "shell"@) {
                None => Ok((c, shell_name(default_shell))),
                Some(ConfigValue::String(s)) => Ok((c, s@)),
                Some(_) => Err("shell: "@ + "argument must be a string"@),
            },
        },
        _ => Err("args is not an object"@),
    }
}

/// The run's outcome from the script's exit status and its error lines.
pub open spec fn run_outcome_of(success: bool, code: Option<i32>, errors: Seq<Seq<char>>) -> Result<(), Seq<char>> {
    if !success {
        Err("Err: Exited with "@ + signed_decimal(
            match code {
                Some(c) => c as int,
                None => -1,
            },
        ))
    } else if errors.len() > 0 {
        Err("Command exited with errors: \n"@ + joined_lines(errors))
    } else {
        Ok(())
    }
}

/// `n` in decimal, with a minus sign where negative.
pub open spec fn signed_decimal(n: int) -> Seq<char> {
    if n < 0 {
        "-"@ + decimal((-n) as nat)
    } else {
        decimal(n as nat)
    }
}

/// `lines` separated by newlines.
pub open spec fn joined_lines(lines: Seq<Seq<char>>) -> Seq<char>
    decreases lines.len(),
{
    if lines.len() == 0 {
        Seq::empty()
    } else if lines.len() == 1 {
        lines[0]
    } else {
        joined_lines(lines.drop_last()) + "\n"@ + lines.last()
    }
}

/// `n` written in decimal, with a minus sign where negative.
pub fn signed_decimal_string(n: i32) -> (r: String)
    ensures
        r@ == signed_decimal(n as int),
{
    if n < 0 {
        let magnitude: i64 = -(n as i64);
        let mut r = String::from_str("-");
        let digits = decimal_string(magnitude as usize);
        r.append(digits.as_str());
        r
    } else {
        decimal_string(n as usize)
    }
}

/// `lines` separated by newlines.
pub fn join_lines(lines: &Vec<String>) -> (r: String)
    ensures
        r@ == joined_lines(texts(lines@)),
{
    let mut out = String::new();
    let mut i: usize = 0;
    while i < lines.len()
        invariant
            i <= lines@.len(),
            out@ == joined_lines(texts(lines@.subrange(0, i as int))),
        decreases lines.len() - i,
    {
        proof {
            let next = texts(lines@.subrange(0, i + 1));
            assert(next.drop_last() =~= texts(lines@.subrange(0, i as int)));
            assert(next.last() == lines@[i as int]@);
            if i == 0 {
                assert(next =~= seq![lines@[0]@]);
            }
        }
        if i > 0 {
            out.append("\n");
        }
        out.append(lines[i].as_str());
        i += 1;
    }
    assert(lines@.subrange(0, lines@.len() as int) =~= lines@);
    out
}

/// The error line that a line of the script's error output gives: the line
/// without the shell's position prefix, where anything remains.
pub fn error_line(line: &str) -> (r: Option<String>)
    ensures
        match r {
            Some(e) => e@.len() > 0 && e@ == regex_replaced(LINE_INFO_PATTERN@, line@, ""@),
            None => regex_replaced(LINE_INFO_PATTERN@, line@, ""@).len() == 0,
        },
{
    let stripped = strip_line_err_info(line);
    if stripped.as_str().unicode_len() == 0 {
        None
    } else {
        Some(stripped)
    }
}

impl RunCommand {
    /// Reads a `run` command's arguments: the value of its commands, and the
    /// shell's name (`default_shell` where none is given).
    pub fn run_task_args<'a>(args: &'a ConfigValue, default_shell: Shell) -> (r: Result<(&'a ConfigValue, String), String>)
        ensures
            match run_arguments(*args, default_shell) {
                Ok((c, shell)) => r is Ok && *r->Ok_0.0 == c && r->Ok_0.1@ == shell,
                Err(e) => r is Err && r->Err_0@ == e,
            },
    {
        if !args.is_hash() {
            return Err(String::from_str("args is not an object"));
        }
        let commands = match args.get("commands") {
            Some(c) => c,
            None => {
                return Err(String::from_str("\"commands\" key is missing in args"));
            },
        };
        match args.get("shell") {
            None => Ok((commands, default_shell.to_string())),
            Some(ConfigValue::String(s)) => Ok((commands, s.clone())),
            Some(_) => {
                let mut message = String::from_str("shell: ");
                message.append("argument must be a string");
                Err(message)
            },
        }
    }

    /// The shell a script is written for: the named one, bash where the name
    /// is unknown.
    pub fn script_shell(name: &str) -> (r: Shell)
        ensures
            name@ == "zsh"@ ==> r == Shell::Zsh,
            name@ != "zsh"@ ==> r == Shell::Bash,
    {
        match Shell::from_str(name) {
            Ok(shell) => shell,
            Err(_) => Shell::Bash,
        }
    }

    /// The result of a script run: an error with the exit code (`-1` where
    /// there is none) where it exited with a failure; else an error with the
    /// lines it reported on its error output, if any; else success.
    pub fn run_outcome(success: bool, code: Option<i32>, errors: &Vec<String>) -> (r: Result<(), String>)
        ensures
            match run_outcome_of(success, code, texts(errors@)) {
                Ok(_) => r is Ok,
                Err(e) => r is Err && r->Err_0@ == e,
            },
    {
        if !success {
            let value: i32 = match code {
                Some(c) => c,
                None => -1,
            };
            let mut message = String::from_str("Err: Exited with ");
            let number = signed_decimal_string(value);
            message.append(number.as_str());
            return Err(message);
        }
        if errors.len() > 0 {
            let mut message = String::from_str("Command exited with errors: \n");
            let lines = join_lines(errors);
            message.append(lines.as_str());
            return Err(message);
        }
        Ok(())
    }
}

/// The environment a `run` command sets: the pairs of its `env` map, in
/// order; none where the arguments are not named or have no `env`.
pub open spec fn environment_of(args: ConfigValue) -> Result<Seq<(Seq<char>, Seq<char>)>, Seq<char>> {
    match args {
        ConfigValue::Hash(entries) => match lookup(entries@, "env"@) {
            None => Ok(Seq::empty()),
            Some(ConfigValue::Hash(vars)) => if forall|i: int| 0 <= i < vars@.len() ==> #[trigger] vars@[i].1 is String {
                Ok(Seq::new(vars@.len(), |i: int| (vars@[i].0@, vars@[i].1->String_0@)))
            } else {
                Err("Environment values need to be strings"@)
            },
            Some(_) => Err("Environment needs to be defined as a map"@),
        },
        _ => Ok(Seq::empty()),
    }
}

/// The view of a list of pairs of strings.
pub open spec fn pairs_view(v: Seq<(String, String)>) -> Seq<(Seq<char>, Seq<char>)> {
    v.map_values(|p: (String, String)| (p.0@, p.1@))
}

/// The environment variables that a `run` command's `env` argument sets,
/// in order.
pub fn environment_variables(args: &ConfigValue) -> (r: Result<Vec<(String, String)>, String>)
    ensures
        match environment_of(*args) {
            Ok(pairs) => r is Ok && pairs_view(r->Ok_0@) == pairs,
            Err(e) => r is Err && r->Err_0@ == e,
        },
{
    if !arguments_are_named(Some(args)) {
        let empty: Vec<(String, String)> = Vec::new();
        assert(pairs_view(empty@) =~= Seq::empty());
        return Ok(empty);
    }
    let vars = match args.get("env") {
        None => {
            let empty: Vec<(String, String)> = Vec::new();
            assert(pairs_view(empty@) =~= Seq::empty());
            return Ok(empty);
        },
        Some(ConfigValue::Hash(vars)) => vars,
        Some(_) => {
            return Err(String::from_str("Environment needs to be defined as a map"));
        },
    };
    let mut pairs: Vec<(String, String)> = Vec::new();
    let mut i: usize = 0;
    while i < vars.len()
        invariant
            args is Hash,
            lookup(args->Hash_0@, "env"@) == Some(ConfigValue::Hash(*vars)),
            i <= vars@.len(),
            pairs@.len() == i,
            forall|j: int| 0 <= j < i ==> #[trigger] vars@[j].1 is String,
            forall|j: int|
                0 <= j < i ==> #[trigger] pairs@[j].0@ == vars@[j].0@ && pairs@[j].1@ == vars@[j].1->String_0@,
        decreases vars.len() - i,
    {
        match &vars[i].1 {
            ConfigValue::String(value) => {
                pairs.push((vars[i].0.clone(), value.clone()));
            },
            _ => {
                return Err(String::from_str("Environment values need to be strings"));
            },
        }
        i += 1;
    }
    assert(pairs_view(pairs@) =~= Seq::new(vars@.len(), |i: int| (vars@[i].0@, vars@[i].1->String_0@)));
    Ok(pairs)
}

impl SymlinkCommand {
    /// Whether existing files are replaced by links: the `force` argument,
    /// where it is a boolean; else no.
    pub fn should_force(args: &ConfigValue) -> (r: bool)
        ensures
            r == match *args {
                ConfigValue::Hash(entries) => match lookup(entries@, "force"@) {
                    Some(ConfigValue::Boolean(b)) => b,
                    _ => false,
                },
                _ => false,
            },
    {
        match args.get("force") {
            Some(ConfigValue::Boolean(b)) => *b,
            _ => false,
        }
    }
}

/// The error where a source and a target directory are the same.
pub open spec fn same_dirs_message(source: Seq<char>) -> Seq<char> {
    "Source and destination directories are the same: "@ + source
}

/// Refuses to copy or link a directory onto itself: `source_dir` and
/// `target_dir` are the expanded paths, `source` as the user wrote it.
pub fn check_distinct_dirs(source_dir: &str, target_dir: &str, source: &str) -> (r: Result<(), String>)
    ensures
        source_dir@ == target_dir@ ==> r is Err && r->Err_0@ == same_dirs_message(source@),
        source_dir@ != target_dir@ ==> r is Ok,
{
    if crate::config_value::str_equal(source_dir, target_dir) {
        let mut message = String::from_str("Source and destination directories are the same: ");
        message.append(source);
        Err(message)
    } else {
        Ok(())
    }
}

/// The target directory of a file or clone command, relative to `root`.
pub fn target_dir(args: &ConfigValue, root: &str) -> (r: Result<String, String>)
    ensures
        match required_string(*args, "target"@) {
            Ok(t) => r is Ok && r->Ok_0@ == relative_dir(root@, t),
            Err(e) => r is Err && r->Err_0@ == e,
        },
{
    let target = match required_string_arg(args, "target") {
        Ok(t) => t,
        Err(e) => {
            return Err(e);
        },
    };
    Ok(get_relative_dir(root, target.as_str()))
}

impl CopyDirCommand {
    /// Refuses to remove the configuration's own directory: `target` is the
    /// canonical path of what an uninstall would remove.
    pub fn check_removable(target: &str, config_dir: &str) -> (r: Result<(), String>)
        ensures
            target@ == config_dir@ ==> r is Err && r->Err_0@ == "cannot delete config_dir"@,
            target@ != config_dir@ ==> r is Ok,
    {
        if crate::config_value::str_equal(target, config_dir) {
            Err(String::from_str("cannot delete config_dir"))
        } else {
            Ok(())
        }
    }
}

impl CloneCommand {
    /// Reads the `url` and `target` arguments of a clone, the target taken
    /// relative to `root`.
    pub fn install_args(args: &ConfigValue, root: &str) -> (r: Result<(String, String), String>)
        ensures
            match required_string(*args, "url"@) {
                Err(e) => r is Err && r->Err_0@ == e,
                Ok(url) => match required_string(*args, "target"@) {
                    Err(e) => r is Err && r->Err_0@ == e,
                    Ok(t) => r is Ok && r->Ok_0.0@ == url && r->Ok_0.1@ == relative_dir(root@, t),
                },
            },
    {
        let url = match required_string_arg(args, "url") {
            Ok(u) => u,
            Err(e) => {
                return Err(e);
            },
        };
        let target = match target_dir(args, root) {
            Ok(t) => t,
            Err(e) => {
                return Err(e);
            },
        };
        Ok((url, target))
    }
}

impl MachineSetupCommand {
    /// Reads the `config` (required) and `task` (optional) arguments of a
    /// nested configuration run.
    pub fn config_args(args: &ConfigValue) -> (r: Result<(String, Option<String>), String>)
        ensures
            !(args is Hash) ==> r is Err && r->Err_0@ == "args is not an object"@,
            args is Hash ==> match required_string(*args, "config"@) {
                Err(e) => r is Err && r->Err_0@ == e,
                Ok(config) => match optional_string(*args, "task"@) {
                    Err(e) => r is Err && r->Err_0@ == e,
                    Ok(None) => r is Ok && r->Ok_0.0@ == config && r->Ok_0.1 is None,
                    Ok(Some(task)) => r is Ok && r->Ok_0.0@ == config && r->Ok_0.1 is Some
                        && r->Ok_0.1->0@ == task,
                },
            },
    {
        if !args.is_hash() {
            return Err(String::from_str("args is not an object"));
        }
        let config = match required_string_arg(args, "config") {
            Ok(c) => c,
            Err(e) => {
                return Err(e);
            },
        };
        let task = match optional_string_arg(args, "task") {
            Ok(t) => t,
            Err(e) => {
                return Err(e);
            },
        };
        Ok((config, task))
    }
}

} // verus!
