use vstd::prelude::*;
use vstd::string::*;

use crate::config_value::str_equal;

verus! {

/// Whether `e` is the extension of a YAML configuration file.
pub open spec fn is_yaml_ending(e: Seq<char>) -> bool {
    e == "yml"@ || e == "yaml"@
}

/// Whether `e` is the extension of a JSON configuration file.
pub open spec fn is_json_ending(e: Seq<char>) -> bool {
    e == "json"@
}

/// The configuration formats.
#[derive(PartialEq, Eq, Structural, Clone, Copy, Debug)]
pub enum ConfigFormat {
    Yaml,
    Json,
}

/// The extensions of configuration files, in the order in which a path
/// without one is tried.
pub fn get_valid_file_endings() -> (r: Vec<&'static str>)
    ensures
        r@.len() == 3,
        r@[0]@ == "yml"@,
        r@[1]@ == "yaml"@,
        r@[2]@ == "json"@,
{
    vec!["yml", "yaml", "json"]
}

/// Whether `file_ending` is the extension of a configuration file.
pub fn is_valid_file_ending(file_ending: &str) -> (r: bool)
    ensures
        r == (is_yaml_ending(file_ending@) || is_json_ending(file_ending@)),
{
    let endings = get_valid_file_endings();
    let mut i: usize = 0;
    while i < endings.len()
        invariant
            endings@.len() == 3,
            endings@[0]@ == "yml"@,
            endings@[1]@ == "yaml"@,
            endings@[2]@ == "json"@,
            i <= endings@.len(),
            forall|j: int| 0 <= j < i ==> #[trigger] endings@[j]@ != file_ending@,
        decreases endings.len() - i,
    {
        if str_equal(endings[i], file_ending) {
            return true;
        }
        i += 1;
    }
    assert(endings@[0]@ != file_ending@ && endings@[1]@ != file_ending@ && endings@[2]@ != file_ending@);
    false
}

/// What follows the last `'.'` of `p`, if it has one.
pub open spec fn after_last_dot(p: Seq<char>) -> Option<Seq<char>>
    decreases p.len(),
{
    if p.len() == 0 {
        None
    } else if p.last() == '.' {
        Some(Seq::empty())
    } else {
        match after_last_dot(p.drop_last()) {
            Some(e) => Some(e.push(p.last())),
            None => None,
        }
    }
}

/// The extension of `path`: what follows its last `'.'`, a leading `'.'`
/// left aside.
pub open spec fn file_ending(path: Seq<char>) -> Option<Seq<char>> {
    if path.len() > 0 && path[0] == '.' {
        after_last_dot(path.drop_first())
    } else {
        after_last_dot(path)
    }
}

/// The extension of `path`, if it has one.
pub fn get_file_ending(path: &str) -> (r: Option<String>)
    ensures
        match file_ending(path@) {
            Some(e) => r is Some && r->0@ == e,
            None => r is None,
        },
{
    let n = path.unicode_len();
    let start: usize = if n > 0 && path.get_char(0) == '.' {
        1
    } else {
        0
    };
    assert(file_ending(path@) == after_last_dot(path@.subrange(start as int, n as int))) by {
        if start == 1 {
            assert(path@.drop_first() =~= path@.subrange(1, n as int));
        } else {
            assert(path@ =~= path@.subrange(0, n as int));
        }
    }
    let mut last: Option<usize> = None;
    let mut i: usize = start;
    while i < n
        invariant
            start <= i <= n,
            n == path@.len(),
            file_ending(path@) == after_last_dot(path@.subrange(start as int, n as int)),
            match last {
                Some(k) => start <= k < i && after_last_dot(path@.subrange(start as int, i as int)) == Some(
                    path@.subrange(k + 1, i as int),
                ),
                None => after_last_dot(path@.subrange(start as int, i as int)) is None,
            },
        decreases n - i,
    {
        let c = path.get_char(i);
        proof {
            let next = path@.subrange(start as int, i + 1);
            assert(next.drop_last() =~= path@.subrange(start as int, i as int));
            assert(next.last() == c);
            if let Some(k) = last {
                assert(path@.subrange(k + 1, i + 1) =~= path@.subrange(k + 1, i as int).push(c));
            }
        }
        if c == '.' {
            last = Some(i);
            assert(path@.subrange(i + 1, i + 1) =~= Seq::<char>::empty());
        }
        i += 1;
    }
    match last {
        Some(k) => Some(String::from_str(path.substring_char(k + 1, n))),
        None => None,
    }
}

/// The format of configuration files with the extension `file_ending`.
pub fn get_config_handler(file_ending: &str) -> (r: Result<ConfigFormat, String>)
    ensures
        is_yaml_ending(file_ending@) ==> r == Ok::<ConfigFormat, String>(ConfigFormat::Yaml),
        !is_yaml_ending(file_ending@) && is_json_ending(file_ending@) ==> r == Ok::<
            ConfigFormat,
            String,
        >(ConfigFormat::Json),
        !is_yaml_ending(file_ending@) && !is_json_ending(file_ending@) ==> r is Err && r->Err_0@
            == "Unsupported config file type: "@ + file_ending@,
{
    if str_equal(file_ending, "yml") || str_equal(file_ending, "yaml") {
        Ok(ConfigFormat::Yaml)
    } else if str_equal(file_ending, "json") {
        Ok(ConfigFormat::Json)
    } else {
        let mut message = String::from_str("Unsupported config file type: ");
        message.append(file_ending);
        Err(message)
    }
}

} // verus!
