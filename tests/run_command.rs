use machine_setup::commands::{environment_variables, get_commands, RunCommand};
use machine_setup::config_value::ConfigValue;
use machine_setup::shell::Shell;
use machine_setup::task_runner::TaskRunnerMode;

fn text(s: &str) -> ConfigValue {
    ConfigValue::String(s.to_string())
}

#[test]
fn it_gets_command_from_string() {
    let command = "echo hello";
    let commands = get_commands(&ConfigValue::String(command.to_string()), TaskRunnerMode::Install);
    assert!(commands.is_ok());
    assert_eq!(vec![command.to_string()], commands.unwrap());
}

#[test]
fn it_gets_commands_from_array() {
    let commands = ConfigValue::Array(vec![
        ConfigValue::String(String::from("command1")),
        ConfigValue::String(String::from("command2")),
    ]);
    let commands = get_commands(&commands, TaskRunnerMode::Install);
    assert!(commands.is_ok());
    assert_eq!(commands.unwrap(), vec![String::from("command1"), String::from("command2")]);
}

fn per_mode(key: &str, value: ConfigValue) -> ConfigValue {
    ConfigValue::Hash(vec![(key.to_string(), value)])
}

fn two_commands() -> ConfigValue {
    ConfigValue::Array(vec![
        ConfigValue::String("command1".to_string()),
        ConfigValue::String("command2".to_string()),
    ])
}

#[test]
fn it_gets_install_commands() {
    let commands = get_commands(&per_mode("install", two_commands()), TaskRunnerMode::Install);
    assert!(commands.is_ok());
    assert_eq!(commands.unwrap(), vec![String::from("command1"), String::from("command2")]);
}

#[test]
fn it_gets_install_command_string() {
    let commands = get_commands(&per_mode("install", text("command1")), TaskRunnerMode::Install);
    assert!(commands.is_ok());
    assert_eq!(commands.unwrap(), vec![String::from("command1")]);
}

#[test]
fn it_gets_uninstall_commands() {
    let commands = get_commands(&per_mode("uninstall", two_commands()), TaskRunnerMode::Uninstall);
    assert!(commands.is_ok());
    assert_eq!(commands.unwrap(), vec![String::from("command1"), String::from("command2")]);
}

#[test]
fn it_gets_uninstall_command_string() {
    let commands = get_commands(&per_mode("uninstall", text("command1")), TaskRunnerMode::Uninstall);
    assert!(commands.is_ok());
    assert_eq!(commands.unwrap(), vec![String::from("command1")]);
}

#[test]
fn it_gets_update_commands() {
    let commands = get_commands(&per_mode("update", two_commands()), TaskRunnerMode::Update);
    assert!(commands.is_ok());
    assert_eq!(commands.unwrap(), vec![String::from("command1"), String::from("command2")]);
}

#[test]
fn it_gets_update_command_string() {
    let commands = get_commands(&per_mode("update", text("command1")), TaskRunnerMode::Update);
    assert!(commands.is_ok());
    assert_eq!(commands.unwrap(), vec![String::from("command1")]);
}

#[test]
fn it_skips_command_when_method_is_not_defined() {
    let commands = get_commands(&per_mode("invalid", text("command1")), TaskRunnerMode::Install);
    assert!(commands.is_err());
    assert!(commands.unwrap_err().contains("is not defined"));
}

#[test]
fn commands_of_the_wrong_shape_are_refused() {
    assert_eq!(
        get_commands(&ConfigValue::Integer(3), TaskRunnerMode::Install),
        Err("OneOf: argument must be an array | argument must be a string".to_string())
    );
    assert_eq!(
        get_commands(&per_mode("install", ConfigValue::Boolean(true)), TaskRunnerMode::Install),
        Err("install: OneOf: argument must be an array | argument must be a string".to_string())
    );
    assert_eq!(
        get_commands(&per_mode("install", ConfigValue::Hash(vec![])), TaskRunnerMode::Install),
        Err("install: OneOf: argument must be an array | argument must be a string".to_string())
    );
    assert_eq!(
        get_commands(&ConfigValue::Array(vec![ConfigValue::Integer(1)]), TaskRunnerMode::Install),
        Err("commands have to be strings".to_string())
    );
}

#[test]
fn run_arguments_default_to_the_configured_shell() {
    let args = ConfigValue::Hash(vec![("commands".to_string(), text("echo ok"))]);
    let (commands, shell) = RunCommand::run_task_args(&args, Shell::Zsh).unwrap();
    assert!(matches!(commands, ConfigValue::String(s) if s == "echo ok"));
    assert_eq!(shell, "zsh");
    let with_shell = ConfigValue::Hash(vec![
        ("commands".to_string(), text("echo ok")),
        ("shell".to_string(), text("bash")),
    ]);
    assert_eq!(RunCommand::run_task_args(&with_shell, Shell::Zsh).unwrap().1, "bash");
    assert_eq!(
        RunCommand::run_task_args(&ConfigValue::Hash(vec![]), Shell::Bash).unwrap_err(),
        "\"commands\" key is missing in args"
    );
    assert_eq!(RunCommand::run_task_args(&text("x"), Shell::Bash).unwrap_err(), "args is not an object");
}

#[test]
fn run_outcomes() {
    assert_eq!(RunCommand::run_outcome(false, Some(127), &vec![]), Err(String::from("Err: Exited with 127")));
    assert_eq!(RunCommand::run_outcome(false, None, &vec![]), Err(String::from("Err: Exited with -1")));
    assert_eq!(
        RunCommand::run_outcome(true, Some(0), &vec!["nananana: command not found".to_string()]),
        Err(String::from("Command exited with errors: \nnananana: command not found"))
    );
    assert_eq!(
        RunCommand::run_outcome(true, Some(0), &vec!["a".to_string(), "b".to_string()]),
        Err(String::from("Command exited with errors: \na\nb"))
    );
    assert_eq!(RunCommand::run_outcome(true, Some(0), &vec![]), Ok(()));
}

#[test]
fn script_shell_falls_back_to_bash() {
    assert_eq!(RunCommand::script_shell("zsh"), Shell::Zsh);
    assert_eq!(RunCommand::script_shell("fish"), Shell::Bash);
}

#[test]
fn it_sets_environment_variables_correctly() {
    let env = ConfigValue::Hash(vec![
        (String::from("TEST_1"), ConfigValue::String(String::from("value_one"))),
        (String::from("TEST_2"), ConfigValue::String(String::from("value_two"))),
    ]);
    let args = ConfigValue::Hash(vec![("env".to_string(), env)]);
    let pairs = environment_variables(&args).unwrap();
    assert_eq!(
        pairs,
        vec![
            ("TEST_1".to_string(), "value_one".to_string()),
            ("TEST_2".to_string(), "value_two".to_string())
        ]
    );
}

#[test]
fn environment_must_be_a_map_of_strings() {
    let args = ConfigValue::Hash(vec![("env".to_string(), text("x"))]);
    assert_eq!(environment_variables(&args), Err("Environment needs to be defined as a map".to_string()));
    let args = ConfigValue::Hash(vec![(
        "env".to_string(),
        ConfigValue::Hash(vec![("A".to_string(), ConfigValue::Integer(1))]),
    )]);
    assert_eq!(environment_variables(&args), Err("Environment values need to be strings".to_string()));
    assert_eq!(environment_variables(&text("x")), Ok(vec![]));
}
