use vstd::prelude::*;
use vstd::string::*;

use crate::config_value::{lookup, ConfigValue};
use crate::validation::{
    first_rejection, named_args_outcome, validate_named_args, BasicRule, IsString, Required, Rule,
};

verus! {

/// The view of a `Result` with a `String` value and a `String` error.
pub open spec fn text_result(r: Result<String, String>) -> Result<Seq<char>, Seq<char>> {
    match r {
        Ok(t) => Ok(t@),
        Err(e) => Err(e@),
    }
}

/// The view of a list of strings.
pub open spec fn texts(v: Seq<String>) -> Seq<Seq<char>> {
    v.map_values(|s: String| s@)
}

/// Whether every value in `items` is a string.
pub open spec fn all_strings(items: Seq<ConfigValue>) -> bool {
    forall|i: int| 0 <= i < items.len() ==> #[trigger] items[i] is String
}

/// The texts of a list of string values.
pub open spec fn string_items(items: Seq<ConfigValue>) -> Seq<Seq<char>> {
    Seq::new(items.len(), |i: int| items[i]->String_0@)
}

/// The error for a value given where names were expected.
pub open spec fn positional_message() -> Seq<char> {
    "Expected named arguments, got positional arguments"@
}

/// The error for a map given where a single value was expected.
pub open spec fn named_message() -> Seq<char> {
    "Expected positional arguments, got named arguments"@
}

/// The value of the required string argument `name` of `args`: it must be a
/// non-empty string.
pub open spec fn required_string(args: ConfigValue, name: Seq<char>) -> Result<Seq<char>, Seq<char>> {
    match args {
        ConfigValue::Hash(entries) => match lookup(entries@, name) {
            Some(ConfigValue::String(s)) => if s@.len() > 0 {
                Ok(s@)
            } else {
                Err(name + ": "@ + "argument is required"@)
            },
            Some(ConfigValue::Null) => Err(name + ": "@ + "argument is required"@),
            Some(ConfigValue::Invalid) => Err(name + ": "@ + "argument is required"@),
            None => Err(name + ": "@ + "argument is required"@),
            Some(_) => Err(name + ": "@ + "argument must be a string"@),
        },
        _ => Err(positional_message()),
    }
}

/// The value of the optional string argument `name` of `args`: absent, or a
/// string.
pub open spec fn optional_string(args: ConfigValue, name: Seq<char>) -> Result<Option<Seq<char>>, Seq<char>> {
    match args {
        ConfigValue::Hash(entries) => match lookup(entries@, name) {
            None => Ok(None),
            Some(ConfigValue::String(s)) => Ok(Some(s@)),
            Some(_) => Err(name + ": "@ + "argument must be a string"@),
        },
        _ => Err(positional_message()),
    }
}

/// The strings of `items`, if they all are strings.
pub fn strings_of(items: &Vec<ConfigValue>) -> (r: Option<Vec<String>>)
    ensures
        match r {
            Some(v) => all_strings(items@) && texts(v@) == string_items(items@),
            None => !all_strings(items@),
        },
{
    let mut out: Vec<String> = Vec::new();
    let mut i: usize = 0;
    while i < items.len()
        invariant
            i <= items@.len(),
            out@.len() == i,
            forall|j: int| 0 <= j < i ==> #[trigger] items@[j] is String,
            forall|j: int| 0 <= j < i ==> #[trigger] out@[j]@ == items@[j]->String_0@,
        decreases items.len() - i,
    {
        match &items[i] {
            ConfigValue::String(s) => {
                out.push(s.clone());
            },
            _ => {
                return None;
            },
        }
        i += 1;
    }
    assert(texts(out@) =~= string_items(items@));
    Some(out)
}

/// Reads the required string argument `name`: `args` must be a map, and the
/// value a non-empty string.
pub fn required_string_arg(args: &ConfigValue, name: &str) -> (r: Result<String, String>)
    ensures
        text_result(r) == required_string(*args, name@),
{
    let rules: Vec<(String, Vec<Rule>)> = vec![(String::from_str(name), vec![Rule::Basic(BasicRule::Required(Required {}))])];
    let checked = validate_named_args(args, rules);
    proof {
        if args is Hash {
            let entries = args->Hash_0@;
            assert(rules@.drop_first().len() == 0);
            assert(named_args_outcome(entries, rules@.drop_first()) == Ok::<(), Seq<char>>(()));
            assert(rules@[0].1@.drop_first().len() == 0);
            let input = lookup(entries, name@);
            assert(first_rejection(rules@[0].1@.drop_first(), input) is None);
        }
    }
    if let Err(e) = checked {
        return Err(e);
    }
    match args.get(name) {
        Some(ConfigValue::String(s)) => Ok(s.clone()),
        _ => {
            let mut message = String::from_str(name);
            message.append(": ");
            message.append("argument must be a string");
            Err(message)
        },
    }
}

/// Reads the optional string argument `name`: `args` must be a map, and the
/// value, where present, a string.
pub fn optional_string_arg(args: &ConfigValue, name: &str) -> (r: Result<Option<String>, String>)
    ensures
        match optional_string(*args, name@) {
            Ok(Some(s)) => r is Ok && r->Ok_0 is Some && r->Ok_0->0@ == s,
            Ok(None) => r is Ok && r->Ok_0 is None,
            Err(e) => r is Err && r->Err_0@ == e,
        },
{
    let rules: Vec<(String, Vec<Rule>)> = vec![(String::from_str(name), vec![Rule::Basic(BasicRule::IsString(IsString {}))])];
    let checked = validate_named_args(args, rules);
    proof {
        if args is Hash {
            let entries = args->Hash_0@;
            assert(rules@.drop_first().len() == 0);
            assert(named_args_outcome(entries, rules@.drop_first()) == Ok::<(), Seq<char>>(()));
            assert(rules@[0].1@.drop_first().len() == 0);
            let input = lookup(entries, name@);
            assert(first_rejection(rules@[0].1@.drop_first(), input) is None);
        }
    }
    if let Err(e) = checked {
        return Err(e);
    }
    match args.get(name) {
        Some(ConfigValue::String(s)) => Ok(Some(s.clone())),
        _ => Ok(None),
    }
}

} // verus!
