use vstd::prelude::*;
use vstd::string::*;

use crate::arguments::{
    all_strings, required_string, required_string_arg, string_items, strings_of, texts,
};
use crate::config_value::{lookup, ConfigValue};

verus! {

/// What std's `Path::join` gives for `dir` adjoined to `root`, as text. The
/// separator and the handling of roots and prefixes depend on the platform.
pub uninterp spec fn path_joined(root: Seq<char>, dir: Seq<char>) -> Seq<char>;

/// What std's `Path::components` gives as the last component of `path`, as
/// text, if it has one.
pub uninterp spec fn path_last_component(path: Seq<char>) -> Option<Seq<char>>;

/// Relies on `std::path::Path::join` (by way of `PathBuf::push`): `dir`
/// adjoined to `root`; the result depends on the two strings alone, and
/// pushing a non-empty path never leaves an empty one.
#[verifier::external_body]
fn join_path(root: &str, dir: &str) -> (r: String)
    ensures
        r@ == path_joined(root@, dir@),
        dir@.len() > 0 ==> r@.len() > 0,
{
    std::path::Path::new(root).join(dir).to_string_lossy().into_owned()
}

/// Relies on `std::path::Path::components`: the last component of `path`;
/// the result depends on the string alone.
#[verifier::external_body]
fn last_component(path: &str) -> (r: Option<String>)
    ensures
        match r {
            Some(c) => path_last_component(path@) == Some(c@),
            None => path_last_component(path@) is None,
        },
{
    match std::path::Path::new(path).components().last() {
        Some(c) => Some(c.as_os_str().to_string_lossy().into_owned()),
        None => None,
    }
}

/// Whether the first `'.'` of `c` is there and is not its first character.
pub open spec fn first_dot_inside(c: Seq<char>) -> bool {
    exists|i: int| 0 < i < c.len() && #[trigger] c[i] == '.' && forall|j: int| 0 <= j < i ==> c[j] != '.'
}

/// Whether `path` names a file: its last component holds a `'.'` that does
/// not open it (`a.txt`, not `.config` nor `dir`).
pub open spec fn spec_is_file_path(path: Seq<char>) -> bool {
    path.len() > 0 && match path_last_component(path) {
        Some(c) => first_dot_inside(c),
        None => false,
    }
}

/// Whether `path` names a file rather than a directory, by its last
/// component.
pub fn is_file_path(path: &str) -> (r: bool)
    ensures
        r == spec_is_file_path(path@),
{
    if path.unicode_len() == 0 {
        return false;
    }
    let last = match last_component(path) {
        Some(c) => c,
        None => {
            return false;
        },
    };
    let n = last.as_str().unicode_len();
    let mut i: usize = 0;
    while i < n
        invariant
            path@.len() > 0,
            path_last_component(path@) == Some(last@),
            n == last@.len(),
            i <= n,
            forall|j: int| 0 <= j < i ==> last@[j] != '.',
        decreases n - i,
    {
        if last.as_str().get_char(i) == '.' {
            let r = i != 0;
            proof {
                if r {
                    let k = i as int;
                    assert(0 < k < last@.len() && last@[k] == '.' && forall|j: int|
                        0 <= j < k ==> last@[j] != '.');
                    assert(first_dot_inside(last@));
                }
                if !r {
                    assert forall|k: int| 0 < k < last@.len() && #[trigger] last@[k] == '.' implies !(forall|j: int|
                        0 <= j < k ==> last@[j] != '.') by {
                        assert(last@[0] == '.');
                    }
                    assert(!first_dot_inside(last@));
                }
            }
            return r;
        }
        i += 1;
    }
    false
}

/// `dir` taken relative to `root`, unless it starts from the home directory
/// (`~`).
pub open spec fn relative_dir(root: Seq<char>, dir: Seq<char>) -> Seq<char> {
    if dir.len() > 0 && dir[0] == '~' {
        dir
    } else {
        path_joined(root, dir)
    }
}

/// `dir` taken relative to `root`, unless it starts with `~`.
pub fn get_relative_dir(root: &str, dir: &str) -> (r: String)
    ensures
        r@ == relative_dir(root@, dir@),
{
    if dir.unicode_len() > 0 && dir.get_char(0) == '~' {
        return String::from_str(dir);
    }
    join_path(root, dir)
}

/// The source and target of a file command, relative to the configuration's
/// directory, and the relative paths it leaves alone.
pub struct Dirs {
    pub src: String,
    pub target: String,
    pub ignore: Vec<String>,
}

/// The paths that a file command leaves alone: the list under `ignore`,
/// none where it is absent.
pub open spec fn ignore_list(args: ConfigValue) -> Result<Seq<Seq<char>>, Seq<char>> {
    match args {
        ConfigValue::Hash(entries) => match lookup(entries@, "ignore"@) {
            None => Ok(Seq::empty()),
            Some(ConfigValue::Array(items)) => if all_strings(items@) {
                Ok(string_items(items@))
            } else {
                Err("ignore: argument must be a list of strings"@)
            },
            Some(_) => Err("ignore: argument must be a list of strings"@),
        },
        _ => Ok(Seq::empty()),
    }
}

/// What `get_source_and_target` gives: source, target and ignored paths.
pub open spec fn source_and_target(args: ConfigValue, root: Seq<char>) -> Result<
    (Seq<char>, Seq<char>, Seq<Seq<char>>),
    Seq<char>,
> {
    match required_string(args, "src"@) {
        Err(e) => Err(e),
        Ok(src) => match required_string(args, "target"@) {
            Err(e) => Err(e),
            Ok(target) => if relative_dir(root, target).len() == 0 {
                Err("Target directory cannot be empty"@)
            } else {
                match ignore_list(args) {
                    Err(e) => Err(e),
                    Ok(ignore) => Ok((relative_dir(root, src), relative_dir(root, target), ignore)),
                }
            },
        },
    }
}

/// Reads the `src`, `target` and `ignore` arguments of a file command, with
/// the two directories taken relative to `root`.
pub fn get_source_and_target(args: &ConfigValue, root: &str) -> (r: Result<Dirs, String>)
    ensures
        match source_and_target(*args, root@) {
            Ok((src, target, ignore)) => r is Ok && r->Ok_0.src@ == src && r->Ok_0.target@ == target
                && texts(r->Ok_0.ignore@) == ignore,
            Err(e) => r is Err && r->Err_0@ == e,
        },
{
    let src = match required_string_arg(args, "src") {
        Ok(s) => s,
        Err(e) => {
            return Err(e);
        },
    };
    let target = match required_string_arg(args, "target") {
        Ok(s) => s,
        Err(e) => {
            return Err(e);
        },
    };
    let relative_target = get_relative_dir(root, target.as_str());
    if relative_target.as_str().unicode_len() == 0 {
        return Err(String::from_str("Target directory cannot be empty"));
    }
    let relative_src = get_relative_dir(root, src.as_str());
    let ignore = match args.get("ignore") {
        None => Vec::new(),
        Some(ConfigValue::Array(items)) => match strings_of(items) {
            Some(list) => list,
            None => {
                return Err(String::from_str("ignore: argument must be a list of strings"));
            },
        },
        Some(_) => {
            return Err(String::from_str("ignore: argument must be a list of strings"));
        },
    };
    assert(texts(ignore@) == ignore_list(*args)->Ok_0);
    Ok(Dirs { src: relative_src, target: relative_target, ignore })
}

} // verus!
