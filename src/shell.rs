use vstd::prelude::*;
use vstd::string::*;

use crate::config_value::str_equal;

verus! {

/// The shell that generated scripts are written for.
#[derive(PartialEq, Eq, Structural, Clone, Copy, Debug)]
pub enum Shell {
    Zsh,
    Bash,
}

/// The first lines of a script for `shell`: the interpreter line, then the
/// user's shell profile, read quietly.
pub open spec fn script_header(shell: Shell) -> Seq<char> {
    match shell {
        Shell::Bash => "#!/bin/bash\nsource $HOME/.bashrc >/dev/null 2>&1\n"@,
        Shell::Zsh => "#!/bin/zsh\nsource $HOME/.zshrc >/dev/null 2>&1\n"@,
    }
}

/// The name of `shell`.
pub open spec fn shell_name(shell: Shell) -> Seq<char> {
    match shell {
        Shell::Bash => "bash"@,
        Shell::Zsh => "zsh"@,
    }
}

/// The shell named `name`, if any.
pub open spec fn shell_of_name(name: Seq<char>) -> Option<Shell> {
    if name == "zsh"@ {
        Some(Shell::Zsh)
    } else if name == "bash"@ {
        Some(Shell::Bash)
    } else {
        None
    }
}

/// Each command on a line of its own.
pub open spec fn script_lines(commands: Seq<String>) -> Seq<char>
    decreases commands.len(),
{
    if commands.len() == 0 {
        Seq::empty()
    } else {
        script_lines(commands.drop_last()) + commands.last()@ + "\n"@
    }
}

/// The pattern of what a shell puts before an error: the script's path and
/// the line number.
pub const LINE_INFO_PATTERN: &'static str = "^(.*?)line \\d+:\\s";

/// What the regex crate gives for replacing the leftmost-first match of
/// `pattern` in `text` with `replacement`.
pub uninterp spec fn regex_replaced(pattern: Seq<char>, text: Seq<char>, replacement: Seq<char>) -> Seq<char>;

/// Relies on `regex::Regex::new` (an error only for an invalid or oversized
/// pattern, which the pattern of shell position prefixes is not) and
/// `regex::Regex::replace` (replaces the leftmost-first match); the result
/// depends on the three strings alone.
#[verifier::external_body]
fn replace_first_match(pattern: &str, text: &str, replacement: &str) -> (r: Option<String>)
    ensures
        r is Some ==> r->0@ == regex_replaced(pattern@, text@, replacement@),
        pattern@ == LINE_INFO_PATTERN@ ==> r is Some,
{
    match regex::Regex::new(pattern) {
        Ok(re) => Some(re.replace(text, replacement).into_owned()),
        Err(_) => None,
    }
}

impl Shell {
    /// Parses a shell's name; an unknown one gives `"Unknown shell: <name>"`.
    pub fn from_str(s: &str) -> (r: Result<Shell, String>)
        ensures
            match shell_of_name(s@) {
                Some(shell) => r == Ok::<Shell, String>(shell),
                None => r is Err && r->Err_0@ == "Unknown shell: "@ + s@,
            },
    {
        if str_equal(s, "zsh") {
            Ok(Shell::Zsh)
        } else if str_equal(s, "bash") {
            Ok(Shell::Bash)
        } else {
            let mut message = String::from_str("Unknown shell: ");
            message.append(s);
            Err(message)
        }
    }

    /// The shell's name, which is also the program that runs it.
    pub fn to_string(&self) -> (r: String)
        ensures
            r@ == shell_name(*self),
    {
        match self {
            Shell::Bash => String::from_str("bash"),
            Shell::Zsh => String::from_str("zsh"),
        }
    }
}

/// The text of a script that runs `commands` in order under `shell`.
pub fn create_script_file(shell: Shell, commands: &Vec<String>) -> (r: String)
    ensures
        r@ == script_header(shell) + script_lines(commands@),
{
    let mut script = match shell {
        Shell::Bash => String::from_str("#!/bin/bash\nsource $HOME/.bashrc >/dev/null 2>&1\n"),
        Shell::Zsh => String::from_str("#!/bin/zsh\nsource $HOME/.zshrc >/dev/null 2>&1\n"),
    };
    let mut i: usize = 0;
    while i < commands.len()
        invariant
            i <= commands@.len(),
            script@ == script_header(shell) + script_lines(commands@.subrange(0, i as int)),
        decreases commands.len() - i,
    {
        proof {
            let next = commands@.subrange(0, i + 1);
            assert(next.drop_last() =~= commands@.subrange(0, i as int));
        }
        script.append(commands[i].as_str());
        script.append("\n");
        i += 1;
    }
    assert(commands@.subrange(0, commands@.len() as int) =~= commands@);
    script
}

/// Removes what a shell puts before an error message (the script's path and
/// the line number), so that only the message remains.
pub fn strip_line_err_info(err_output: &str) -> (r: String)
    ensures
        r@ == regex_replaced(LINE_INFO_PATTERN@, err_output@, ""@),
{
    match replace_first_match(LINE_INFO_PATTERN, err_output, "") {
        Some(stripped) => stripped,
        None => String::from_str(err_output),
    }
}

} // verus!
