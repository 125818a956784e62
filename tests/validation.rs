use machine_setup::config_value::ConfigValue;
use machine_setup::validation::{
    validate_args, validate_named_args, BasicRule, IsArray, IsBool, IsString, OneOf, Required, Rule,
    ValidationRule,
};

fn text(s: &str) -> ConfigValue {
    ConfigValue::String(s.to_string())
}

fn required() -> Vec<Rule> {
    vec![Rule::Basic(BasicRule::Required(Required {}))]
}

#[test]
fn it_fails_when_required_arg_is_not_an_array() {
    let rule = IsArray {};
    let input = ConfigValue::String("foo".to_string());
    assert!(!rule.validate(Some(&input)));
}

#[test]
fn it_returns_ok_when_required_arg_is_an_array() {
    let rule = IsArray {};
    let input = ConfigValue::Array(vec![ConfigValue::String("foo".to_string())]);
    assert!(rule.validate(Some(&input)));
}

#[test]
fn is_array_it_returns_true_when_value_is_none() {
    let rule = IsArray {};
    assert!(rule.validate(None));
}

#[test]
fn it_fails_when_input_is_not_a_boolean() {
    let rule = IsBool {};
    let input = ConfigValue::Array(vec![ConfigValue::Integer(1)]);
    assert!(!rule.validate(Some(&input)));
}

#[test]
fn is_bool_it_returns_true_when_value_is_a_string() {
    let rule = IsBool {};
    let input = ConfigValue::Boolean(true);
    assert!(rule.validate(Some(&input)));
}

#[test]
fn is_bool_it_returns_true_when_value_is_none() {
    let rule = IsBool {};
    assert!(rule.validate(None));
}

#[test]
fn it_fails_when_input_is_not_string() {
    let rule = IsString {};
    let input = ConfigValue::Array(vec![ConfigValue::Integer(1)]);
    assert!(!rule.validate(Some(&input)));
}

#[test]
fn is_string_it_returns_true_when_value_is_a_string() {
    let rule = IsString {};
    let input = ConfigValue::String(String::from("test"));
    assert!(rule.validate(Some(&input)));
}

#[test]
fn is_string_accepts_an_absent_argument() {
    assert!(IsString {}.validate(None));
}

#[test]
fn it_returns_true_if_one_rule_is_valid() {
    let rule = OneOf { rules: vec![BasicRule::Required(Required {}), BasicRule::IsArray(IsArray {})] };
    assert!(rule.validate(Some(&ConfigValue::String(String::from("foo")))));
}

#[test]
fn it_returns_false_if_no_rule_is_valid() {
    let rule = OneOf { rules: vec![BasicRule::Required(Required {}), BasicRule::IsArray(IsArray {})] };
    assert!(!rule.validate(Some(&ConfigValue::String(String::from("")))));
}

#[test]
fn one_of_it_returns_true_when_value_is_none() {
    let rule = OneOf { rules: vec![BasicRule::Required(Required {})] };
    assert!(rule.validate(None));
}

#[test]
fn it_fails_when_required_arg_is_a_bad_value() {
    let rule = Required {};
    let input = ConfigValue::Invalid;
    assert!(!rule.validate(Some(&input)));
}

#[test]
fn it_fails_when_required_arg_is_empty() {
    let rule = Required {};
    let input = ConfigValue::String(String::from(""));
    assert!(!rule.validate(Some(&input)));
}

#[test]
fn it_fails_when_required_arg_is_null() {
    let rule = Required {};
    let input = ConfigValue::Null;
    assert!(!rule.validate(Some(&input)));
}

#[test]
fn it_returns_ok_when_required_arg_is_present() {
    let rule = Required {};
    let input = ConfigValue::String(String::from("hello"));
    assert!(rule.validate(Some(&input)));
}

#[test]
fn required_rejects_an_absent_argument() {
    assert!(!Required {}.validate(None));
}

#[test]
fn one_of_succeeds_iff_a_member_does() {
    let rule = OneOf { rules: vec![BasicRule::IsArray(IsArray {}), BasicRule::IsBool(IsBool {})] };
    assert!(rule.validate(Some(&ConfigValue::Array(vec![]))));
    assert!(rule.validate(Some(&ConfigValue::Boolean(false))));
    assert!(!rule.validate(Some(&text("x"))));
    assert!(rule.validate(None));
}

#[test]
fn rule_descriptions() {
    assert_eq!(Required {}.to_string(), "argument is required");
    assert_eq!(IsString {}.to_string(), "argument must be a string");
    assert_eq!(IsArray {}.to_string(), "argument must be an array");
    assert_eq!(IsBool {}.to_string(), "argument must be a boolean");
    let rule = OneOf { rules: vec![BasicRule::IsArray(IsArray {}), BasicRule::IsString(IsString {})] };
    assert_eq!(rule.to_string(), "OneOf: argument must be an array | argument must be a string");
}

#[test]
fn it_returns_ok_when_all_rules_pass() {
    let rules = vec![("foo".to_string(), required())];
    let args = ConfigValue::Hash(vec![("foo".to_string(), ConfigValue::String("bar".to_string()))]);
    assert!(validate_named_args(&args, rules).is_ok());
}

#[test]
fn it_returns_an_error_when_a_rule_is_failing() {
    let rules = vec![("foo".to_string(), required())];
    let args = ConfigValue::Hash(vec![("foo".to_string(), ConfigValue::Null)]);
    assert!(validate_named_args(&args, rules).is_err());
}

#[test]
fn named_args_report_the_argument_and_the_rule() {
    let rules = vec![("foo".to_string(), required()), ("bar".to_string(), required())];
    let args = ConfigValue::Hash(vec![("foo".to_string(), text("x"))]);
    assert_eq!(validate_named_args(&args, rules), Err("bar: argument is required".to_string()));
}

#[test]
fn positional_args_are_not_named_args() {
    let args = ConfigValue::Array(vec![text("a")]);
    assert_eq!(
        validate_named_args(&args, vec![]),
        Err("Expected named arguments, got positional arguments".to_string())
    );
}

#[test]
fn a_map_is_not_a_positional_argument() {
    let args = ConfigValue::Hash(vec![]);
    assert_eq!(
        validate_args(Some(&args), &required()),
        Err("Expected positional arguments, got named arguments".to_string())
    );
}

#[test]
fn a_map_valued_argument_passes_its_rules() {
    let args = ConfigValue::Hash(vec![("a".to_string(), ConfigValue::Hash(vec![]))]);
    assert_eq!(validate_named_args(&args, vec![("a".to_string(), vec![])]), Ok(()));
    assert_eq!(validate_named_args(&args, vec![("a".to_string(), required())]), Ok(()));
    let must_be_text = vec![("a".to_string(), vec![Rule::Basic(BasicRule::IsString(IsString {}))])];
    assert_eq!(validate_named_args(&args, must_be_text), Err("a: argument must be a string".to_string()));
}
