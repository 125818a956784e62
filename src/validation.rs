use vstd::prelude::*;
use vstd::string::*;

use crate::config_value::{lookup, opt_value, ConfigValue};

verus! {

/// A predicate over an optional argument value, with a text that says what
/// it asks for.
pub trait ValidationRule {
    /// Whether the rule accepts `input` (`None`: the argument is absent).
    spec fn accepts(&self, input: Option<ConfigValue>) -> bool;

    /// What the rule asks for, as reported when it fails.
    spec fn description(&self) -> Seq<char>;

    fn validate(&self, input: Option<&ConfigValue>) -> (r: bool)
        ensures
            r == self.accepts(opt_value(input)),
    ;

    fn to_string(&self) -> (r: String)
        ensures
            r@ == self.description(),
    ;
}

/// The argument must be present and neither `Null`, `Invalid` nor an empty
/// string.
pub struct Required {}

/// Where present, the argument must be a string.
pub struct IsString {}

/// Where present, the argument must be a list.
pub struct IsArray {}

/// Where present, the argument must be a boolean.
pub struct IsBool {}

/// Where present, the argument must satisfy at least one of `rules`.
pub struct OneOf {
    pub rules: Vec<BasicRule>,
}

/// A rule that looks at the argument alone.
pub enum BasicRule {
    Required(Required),
    IsString(IsString),
    IsArray(IsArray),
    IsBool(IsBool),
}

/// Any rule.
pub enum Rule {
    Basic(BasicRule),
    OneOf(OneOf),
}

pub open spec fn required_accepts(input: Option<ConfigValue>) -> bool {
    match input {
        None => false,
        Some(ConfigValue::Null) => false,
        Some(ConfigValue::Invalid) => false,
        Some(ConfigValue::String(s)) => s@.len() > 0,
        Some(_) => true,
    }
}

pub open spec fn basic_accepts(rule: BasicRule, input: Option<ConfigValue>) -> bool {
    match rule {
        BasicRule::Required(_) => required_accepts(input),
        BasicRule::IsString(_) => input is None || input->0 is String,
        BasicRule::IsArray(_) => input is None || input->0 is Array,
        BasicRule::IsBool(_) => input is None || input->0 is Boolean,
    }
}

pub open spec fn basic_text(rule: BasicRule) -> Seq<char> {
    match rule {
        BasicRule::Required(_) => "argument is required"@,
        BasicRule::IsString(_) => "argument must be a string"@,
        BasicRule::IsArray(_) => "argument must be an array"@,
        BasicRule::IsBool(_) => "argument must be a boolean"@,
    }
}

pub open spec fn one_of_accepts(rules: Seq<BasicRule>, input: Option<ConfigValue>) -> bool {
    input is None || exists|i: int| 0 <= i < rules.len() && #[trigger] basic_accepts(rules[i], input)
}

/// The texts of `rules`, separated by `" | "`.
pub open spec fn joined_texts(rules: Seq<BasicRule>) -> Seq<char>
    decreases rules.len(),
{
    if rules.len() == 0 {
        Seq::empty()
    } else if rules.len() == 1 {
        basic_text(rules[0])
    } else {
        joined_texts(rules.drop_last()) + " | "@ + basic_text(rules.last())
    }
}

pub open spec fn rule_accepts(rule: Rule, input: Option<ConfigValue>) -> bool {
    match rule {
        Rule::Basic(b) => basic_accepts(b, input),
        Rule::OneOf(o) => one_of_accepts(o.rules@, input),
    }
}

pub open spec fn rule_text(rule: Rule) -> Seq<char> {
    match rule {
        Rule::Basic(b) => basic_text(b),
        Rule::OneOf(o) => "OneOf: "@ + joined_texts(o.rules@),
    }
}

impl ValidationRule for Required {
    open spec fn accepts(&self, input: Option<ConfigValue>) -> bool {
        required_accepts(input)
    }

    open spec fn description(&self) -> Seq<char> {
        "argument is required"@
    }

    fn validate(&self, input: Option<&ConfigValue>) -> (r: bool) {
        match input {
            None => false,
            Some(value) => {
                if value.is_invalid() || value.is_null() {
                    return false;
                }
                match value.as_str() {
                    Some(text) => text.unicode_len() > 0,
                    None => true,
                }
            },
        }
    }

    fn to_string(&self) -> (r: String) {
        String::from_str("argument is required")
    }
}

impl ValidationRule for IsString {
    open spec fn accepts(&self, input: Option<ConfigValue>) -> bool {
        input is None || input->0 is String
    }

    open spec fn description(&self) -> Seq<char> {
        "argument must be a string"@
    }

    fn validate(&self, input: Option<&ConfigValue>) -> (r: bool) {
        match input {
            None => true,
            Some(ConfigValue::String(_)) => true,
            Some(_) => false,
        }
    }

    fn to_string(&self) -> (r: String) {
        String::from_str("argument must be a string")
    }
}

impl ValidationRule for IsArray {
    open spec fn accepts(&self, input: Option<ConfigValue>) -> bool {
        input is None || input->0 is Array
    }

    open spec fn description(&self) -> Seq<char> {
        "argument must be an array"@
    }

    fn validate(&self, input: Option<&ConfigValue>) -> (r: bool) {
        match input {
            None => true,
            Some(value) => value.is_array(),
        }
    }

    fn to_string(&self) -> (r: String) {
        String::from_str("argument must be an array")
    }
}

impl ValidationRule for IsBool {
    open spec fn accepts(&self, input: Option<ConfigValue>) -> bool {
        input is None || input->0 is Boolean
    }

    open spec fn description(&self) -> Seq<char> {
        "argument must be a boolean"@
    }

    fn validate(&self, input: Option<&ConfigValue>) -> (r: bool) {
        match input {
            None => true,
            Some(ConfigValue::Boolean(_)) => true,
            Some(_) => false,
        }
    }

    fn to_string(&self) -> (r: String) {
        String::from_str("argument must be a boolean")
    }
}

impl ValidationRule for BasicRule {
    open spec fn accepts(&self, input: Option<ConfigValue>) -> bool {
        basic_accepts(*self, input)
    }

    open spec fn description(&self) -> Seq<char> {
        basic_text(*self)
    }

    fn validate(&self, input: Option<&ConfigValue>) -> (r: bool) {
        match self {
            BasicRule::Required(rule) => rule.validate(input),
            BasicRule::IsString(rule) => rule.validate(input),
            BasicRule::IsArray(rule) => rule.validate(input),
            BasicRule::IsBool(rule) => rule.validate(input),
        }
    }

    fn to_string(&self) -> (r: String) {
        match self {
            BasicRule::Required(rule) => rule.to_string(),
            BasicRule::IsString(rule) => rule.to_string(),
            BasicRule::IsArray(rule) => rule.to_string(),
            BasicRule::IsBool(rule) => rule.to_string(),
        }
    }
}

impl ValidationRule for OneOf {
    open spec fn accepts(&self, input: Option<ConfigValue>) -> bool {
        one_of_accepts(self.rules@, input)
    }

    open spec fn description(&self) -> Seq<char> {
        "OneOf: "@ + joined_texts(self.rules@)
    }

    fn validate(&self, input: Option<&ConfigValue>) -> (r: bool) {
        if input.is_none() {
            return true;
        }
        let mut i: usize = 0;
        while i < self.rules.len()
            invariant
                input is Some,
                i <= self.rules@.len(),
                forall|j: int| 0 <= j < i ==> !basic_accepts(#[trigger] self.rules@[j], opt_value(input)),
            decreases self.rules.len() - i,
        {
            if self.rules[i].validate(input) {
                return true;
            }
            i += 1;
        }
        false
    }

    fn to_string(&self) -> (r: String) {
        let mut text = String::from_str("OneOf: ");
        let mut i: usize = 0;
        while i < self.rules.len()
            invariant
                i <= self.rules@.len(),
                text@ == "OneOf: "@ + joined_texts(self.rules@.subrange(0, i as int)),
            decreases self.rules.len() - i,
        {
            proof {
                let next = self.rules@.subrange(0, i + 1);
                assert(next.drop_last() =~= self.rules@.subrange(0, i as int));
                assert(next.last() == self.rules@[i as int]);
            }
            if i > 0 {
                text.append(" | ");
            }
            let part = self.rules[i].to_string();
            text.append(part.as_str());
            i += 1;
        }
        assert(self.rules@.subrange(0, self.rules@.len() as int) =~= self.rules@);
        text
    }
}

impl ValidationRule for Rule {
    open spec fn accepts(&self, input: Option<ConfigValue>) -> bool {
        rule_accepts(*self, input)
    }

    open spec fn description(&self) -> Seq<char> {
        rule_text(*self)
    }

    fn validate(&self, input: Option<&ConfigValue>) -> (r: bool) {
        match self {
            Rule::Basic(rule) => rule.validate(input),
            Rule::OneOf(rule) => rule.validate(input),
        }
    }

    fn to_string(&self) -> (r: String) {
        match self {
            Rule::Basic(rule) => rule.to_string(),
            Rule::OneOf(rule) => rule.to_string(),
        }
    }
}

/// Whether the arguments are named: a map of argument names to values.
pub fn arguments_are_named(args: Option<&ConfigValue>) -> (r: bool)
    ensures
        r == (args is Some && args->0 is Hash),
{
    match args {
        Some(value) => value.is_hash(),
        None => false,
    }
}

/// The first rule in `rules` that rejects `input`, if any.
pub open spec fn first_rejection(rules: Seq<Rule>, input: Option<ConfigValue>) -> Option<Rule>
    decreases rules.len(),
{
    if rules.len() == 0 {
        None
    } else if !rule_accepts(rules[0], input) {
        Some(rules[0])
    } else {
        first_rejection(rules.drop_first(), input)
    }
}

/// What checking a value against `rules` gives: the text of the first rule
/// that rejects it, if any.
pub open spec fn rules_outcome(input: Option<ConfigValue>, rules: Seq<Rule>) -> Result<(), Seq<char>> {
    match first_rejection(rules, input) {
        Some(rule) => Err(rule_text(rule)),
        None => Ok(()),
    }
}

/// What checking positional arguments against `rules` gives: a map is
/// refused, else the text of the first rule that rejects them.
pub open spec fn args_outcome(args: Option<ConfigValue>, rules: Seq<Rule>) -> Result<(), Seq<char>> {
    if args is Some && args->0 is Hash {
        Err("Expected positional arguments, got named arguments"@)
    } else {
        rules_outcome(args, rules)
    }
}

/// What checking named arguments gives, taking the names in the order of
/// `rules`: the first failure, prefixed with the argument's name.
pub open spec fn named_args_outcome(
    entries: Seq<(String, ConfigValue)>,
    rules: Seq<(String, Vec<Rule>)>,
) -> Result<(), Seq<char>>
    decreases rules.len(),
{
    if rules.len() == 0 {
        Ok(())
    } else {
        match rules_outcome(lookup(entries, rules[0].0@), rules[0].1@) {
            Err(e) => Err(rules[0].0@ + ": "@ + e),
            Ok(_) => named_args_outcome(entries, rules.drop_first()),
        }
    }
}

/// What `validate_named_args` returns for `args`.
pub open spec fn validation_outcome(args: ConfigValue, rules: Seq<(String, Vec<Rule>)>) -> Result<
    (),
    Seq<char>,
> {
    match args {
        ConfigValue::Hash(entries) => named_args_outcome(entries@, rules),
        _ => Err("Expected named arguments, got positional arguments"@),
    }
}

/// The view of a `Result` with a `String` error.
pub open spec fn result_view(r: Result<(), String>) -> Result<(), Seq<char>> {
    match r {
        Ok(_) => Ok(()),
        Err(e) => Err(e@),
    }
}

/// Checks a value (absent: `None`) against `rules`, in order, and reports
/// the first rule that rejects it.
pub fn check_rules(input: Option<&ConfigValue>, rules: &Vec<Rule>) -> (r: Result<(), String>)
    ensures
        result_view(r) == rules_outcome(opt_value(input), rules@),
{
    let mut i: usize = 0;
    assert(rules@.subrange(0, rules@.len() as int) =~= rules@);
    while i < rules.len()
        invariant
            i <= rules@.len(),
            first_rejection(rules@, opt_value(input)) == first_rejection(
                rules@.subrange(i as int, rules@.len() as int),
                opt_value(input),
            ),
        decreases rules.len() - i,
    {
        proof {
            let rest = rules@.subrange(i as int, rules@.len() as int);
            assert(rest.drop_first() =~= rules@.subrange(i + 1, rules@.len() as int));
            assert(rest[0] == rules@[i as int]);
        }
        if !rules[i].validate(input) {
            return Err(rules[i].to_string());
        }
        i += 1;
    }
    Ok(())
}

/// Checks positional arguments (absent: `None`) against `rules`, in order;
/// a map of named arguments is refused.
pub fn validate_args(args: Option<&ConfigValue>, rules: &Vec<Rule>) -> (r: Result<(), String>)
    ensures
        result_view(r) == args_outcome(opt_value(args), rules@),
{
    if arguments_are_named(args) {
        return Err(String::from_str("Expected positional arguments, got named arguments"));
    }
    check_rules(args, rules)
}

/// Checks named arguments: `args` must be a map, and the value under each
/// name of `rules` (absent: `None`) must pass that name's rules. Reports the
/// first failure as `"<name>: <rule>"`.
pub fn validate_named_args(args: &ConfigValue, rules: Vec<(String, Vec<Rule>)>) -> (r: Result<(), String>)
    ensures
        result_view(r) == validation_outcome(*args, rules@),
{
    if !args.is_hash() {
        return Err(String::from_str("Expected named arguments, got positional arguments"));
    }
    let mut i: usize = 0;
    assert(rules@.subrange(0, rules@.len() as int) =~= rules@);
    while i < rules.len()
        invariant
            args is Hash,
            i <= rules@.len(),
            validation_outcome(*args, rules@) == named_args_outcome(
                args->Hash_0@,
                rules@.subrange(i as int, rules@.len() as int),
            ),
        decreases rules.len() - i,
    {
        proof {
            let rest = rules@.subrange(i as int, rules@.len() as int);
            assert(rest.drop_first() =~= rules@.subrange(i + 1, rules@.len() as int));
            assert(rest[0] == rules@[i as int]);
        }
        let name = &rules[i].0;
        let input = args.get(name.as_str());
        match check_rules(input, &rules[i].1) {
            Err(e) => {
                let mut message = name.clone();
                message.append(": ");
                message.append(e.as_str());
                return Err(message);
            },
            Ok(_) => {},
        }
        i += 1;
    }
    Ok(())
}

/// `Required` rejects an absent argument, `Null`, `Invalid` and the empty
/// string, and accepts every non-empty string.
pub proof fn required_rule(text: String)
    ensures
        !required_accepts(None),
        !required_accepts(Some(ConfigValue::Null)),
        !required_accepts(Some(ConfigValue::Invalid)),
        required_accepts(Some(ConfigValue::String(text))) <==> text@.len() > 0,
{
}

/// `OneOf` with two rules accepts a value exactly where one of the two does,
/// and accepts an absent argument whatever its rules say.
pub proof fn one_of_rule(rule: OneOf, input: Option<ConfigValue>)
    requires
        rule.rules@.len() == 2,
    ensures
        rule.accepts(input) == (input is None || basic_accepts(rule.rules@[0], input) || basic_accepts(
            rule.rules@[1],
            input,
        )),
        rule.accepts(None),
{
    if basic_accepts(rule.rules@[0], input) {
        assert(basic_accepts(rule.rules@[0], input));
    }
    if basic_accepts(rule.rules@[1], input) {
        assert(basic_accepts(rule.rules@[1], input));
    }
}

/// Positional arguments (a list) never pass as named arguments, whatever the
/// rules.
pub proof fn positional_args_rejected(items: Vec<ConfigValue>, rules: Seq<(String, Vec<Rule>)>)
    ensures
        validation_outcome(ConfigValue::Array(items), rules) == Err::<(), Seq<char>>(
            "Expected named arguments, got positional arguments"@,
        ),
{
}

/// Whether every rule of `rules` accepts the value that `entries` holds
/// under its argument's name.
pub open spec fn all_rules_pass(entries: Seq<(String, ConfigValue)>, rules: Seq<(String, Vec<Rule>)>) -> bool {
    forall|k: int, j: int|
        0 <= k < rules.len() && 0 <= j < rules[k].1@.len() ==> #[trigger] rule_accepts(
            rules[k].1@[j],
            lookup(entries, rules[k].0@),
        )
}

proof fn lemma_first_rejection(rules: Seq<Rule>, input: Option<ConfigValue>)
    ensures
        first_rejection(rules, input) is None <==> forall|j: int|
            0 <= j < rules.len() ==> #[trigger] rule_accepts(rules[j], input),
    decreases rules.len(),
{
    if rules.len() > 0 {
        lemma_first_rejection(rules.drop_first(), input);
        if first_rejection(rules, input) is None {
            assert forall|j: int| 0 <= j < rules.len() implies #[trigger] rule_accepts(rules[j], input) by {
                if j > 0 {
                    assert(rules.drop_first()[j - 1] == rules[j]);
                }
            }
        } else if rule_accepts(rules[0], input) {
            let j = choose|j: int|
                0 <= j < rules.drop_first().len() && !#[trigger] rule_accepts(rules.drop_first()[j], input);
            assert(!rule_accepts(rules[j + 1], input));
        }
    }
}

proof fn lemma_named_args(entries: Seq<(String, ConfigValue)>, rules: Seq<(String, Vec<Rule>)>)
    ensures
        named_args_outcome(entries, rules) is Ok <==> all_rules_pass(entries, rules),
    decreases rules.len(),
{
    if rules.len() > 0 {
        lemma_named_args(entries, rules.drop_first());
        lemma_first_rejection(rules[0].1@, lookup(entries, rules[0].0@));
        if named_args_outcome(entries, rules) is Ok {
            assert forall|k: int, j: int|
                0 <= k < rules.len() && 0 <= j < rules[k].1@.len() implies #[trigger] rule_accepts(
                rules[k].1@[j],
                lookup(entries, rules[k].0@),
            ) by {
                if k > 0 {
                    assert(rules.drop_first()[k - 1] == rules[k]);
                }
            }
        } else {
            if first_rejection(rules[0].1@, lookup(entries, rules[0].0@)) is None {
                assert(!all_rules_pass(entries, rules.drop_first()));
                let (k, j) = choose|k: int, j: int|
                    0 <= k < rules.drop_first().len() && 0 <= j < rules.drop_first()[k].1@.len()
                        && !#[trigger] rule_accepts(
                        rules.drop_first()[k].1@[j],
                        lookup(entries, rules.drop_first()[k].0@),
                    );
                assert(rules.drop_first()[k] == rules[k + 1]);
                assert(!rule_accepts(rules[k + 1].1@[j], lookup(entries, rules[k + 1].0@)));
            } else {
                let j = choose|j: int|
                    0 <= j < rules[0].1@.len() && !#[trigger] rule_accepts(
                        rules[0].1@[j],
                        lookup(entries, rules[0].0@),
                    );
                assert(!rule_accepts(rules[0].1@[j], lookup(entries, rules[0].0@)));
            }
        }
    }
}

/// Named arguments pass exactly where every rule accepts the value under
/// its argument's name (whatever that value is, a map included); a failure
/// names the argument and the text of a rule.
pub proof fn named_args_pass_iff_rules_pass(entries: Vec<(String, ConfigValue)>, rules: Seq<(String, Vec<Rule>)>)
    ensures
        validation_outcome(ConfigValue::Hash(entries), rules) is Ok <==> all_rules_pass(entries@, rules),
{
    lemma_named_args(entries@, rules);
}

} // verus!
