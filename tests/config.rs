use machine_setup::base_config::{
    get_config_handler, get_file_ending, get_valid_file_endings, is_valid_file_ending, ConfigFormat,
};
use machine_setup::config_value::ConfigValue;
use machine_setup::os::Os;
use machine_setup::shell::Shell;
use machine_setup::task_config::{parse_task_list, JsonConfig, YamlConfig};

fn text(s: &str) -> ConfigValue {
    ConfigValue::String(s.to_string())
}

fn map(pairs: Vec<(&str, ConfigValue)>) -> ConfigValue {
    ConfigValue::Hash(pairs.into_iter().map(|(k, v)| (k.to_string(), v)).collect())
}

#[test]
fn json_config_it_fails_when_tasks_are_not_defined() {
    let result = JsonConfig::parse(map(vec![("text", text("hello world"))]));
    assert!(result.is_err());
    assert!(result.err().unwrap().contains("No tasks defined"));
}

#[test]
fn it_fails_when_commands_are_not_a_list() {
    let config = map(vec![(
        "tasks",
        map(vec![("test", map(vec![("commands", map(vec![("invalid", ConfigValue::Integer(0))]))]))]),
    )]);
    let result = JsonConfig::parse(config);
    assert!(result.is_err());
    assert!(result.err().unwrap().contains("Commands have to be a list"));
}

#[test]
fn yaml_config_it_fails_when_tasks_are_not_defined() {
    let result = YamlConfig::parse(map(vec![("text", text("hello world"))]));
    assert!(result.is_err());
    assert!(result.err().unwrap().contains("No tasks defined"));
}

#[test]
fn it_fails_when_commands_are_not_defined() {
    let config = map(vec![(
        "tasks",
        map(vec![("test", map(vec![("commands", map(vec![("invalid", ConfigValue::Null)]))]))]),
    )]);
    let result = YamlConfig::parse(config);
    assert!(result.is_err());
    assert!(result.err().unwrap().contains("No commands defined"));
}

#[test]
fn it_finds_a_valid_config_file() {
    let result = YamlConfig::parse(map(vec![("tasks", ConfigValue::Null)]));
    assert!(result.is_err());
    assert!(result.err().unwrap().contains("No tasks defined"));
}

#[test]
fn a_full_configuration_is_read_in_order() {
    let config = map(vec![
        (
            "tasks",
            map(vec![
                (
                    "first",
                    map(vec![
                        (
                            "commands",
                            ConfigValue::Array(vec![
                                map(vec![("run", map(vec![("commands", text("echo 1"))]))]),
                                map(vec![("copy", map(vec![])), ("symlink", map(vec![]))]),
                            ]),
                        ),
                        ("os", ConfigValue::Array(vec![text("linux"), text("macos")])),
                        ("parallel", ConfigValue::Boolean(true)),
                    ]),
                ),
                ("second", map(vec![("commands", ConfigValue::Array(vec![])), ("os", text("windows"))])),
            ]),
        ),
        ("temp_dir", text("/tmp/x")),
        ("default_shell", text("zsh")),
        ("parallel", ConfigValue::Boolean(true)),
        ("num_threads", ConfigValue::Integer(4)),
    ]);
    let list = parse_task_list(config, ConfigFormat::Json).ok().unwrap();
    assert_eq!(list.tasks.len(), 2);
    assert_eq!(list.tasks[0].name, "first");
    let names: Vec<&str> = list.tasks[0].commands.iter().map(|c| c.name.as_str()).collect();
    assert_eq!(names, vec!["run", "copy", "symlink"]);
    assert_eq!(list.tasks[0].os, vec![Os::Linux, Os::Mac]);
    assert!(list.tasks[0].parallel);
    assert_eq!(list.tasks[1].os, vec![Os::Windows]);
    assert!(!list.tasks[1].parallel);
    assert_eq!(list.temp_dir, "/tmp/x");
    assert_eq!(list.default_shell, Shell::Zsh);
    assert!(list.parallel);
    assert_eq!(list.num_threads, 4);
}

#[test]
fn configuration_defaults_and_errors() {
    let minimal = map(vec![("tasks", map(vec![]))]);
    let list = parse_task_list(minimal, ConfigFormat::Yaml).ok().unwrap();
    assert_eq!(list.temp_dir, "~/.machine_setup");
    assert_eq!(list.default_shell, Shell::Bash);
    assert!(!list.parallel);
    let bad_shell = map(vec![("tasks", map(vec![])), ("default_shell", text("fish"))]);
    assert_eq!(parse_task_list(bad_shell, ConfigFormat::Yaml).err().unwrap(), "default_shell: Unknown shell: fish");
    let bad_os = map(vec![(
        "tasks",
        map(vec![("t", map(vec![("commands", ConfigValue::Array(vec![])), ("os", text("beos"))]))]),
    )]);
    assert_eq!(parse_task_list(bad_os, ConfigFormat::Json).err().unwrap(), "Unknown OS: beos");
    let bad_task = map(vec![("tasks", map(vec![("t", text("x"))]))]);
    assert_eq!(parse_task_list(bad_task, ConfigFormat::Json).err().unwrap(), "t: task definition is incorrect");
    let bad_command = map(vec![(
        "tasks",
        map(vec![("t", map(vec![("commands", ConfigValue::Array(vec![text("run")]))]))]),
    )]);
    assert_eq!(parse_task_list(bad_command, ConfigFormat::Json).err().unwrap(), "command definition is incorrect");
}

#[test]
fn it_fails_if_no_valid_config_file_is_found() {
    let ending = get_file_ending("invalid.js").unwrap();
    assert_eq!(ending, "js");
    assert!(!is_valid_file_ending(&ending));
}

#[test]
fn file_endings() {
    assert_eq!(get_valid_file_endings(), vec!["yml", "yaml", "json"]);
    assert_eq!(get_file_ending("config.yaml"), Some("yaml".to_string()));
    assert_eq!(get_file_ending("a.b.json"), Some("json".to_string()));
    assert_eq!(get_file_ending(".machine_setup"), None);
    assert_eq!(get_file_ending("./machine_setup"), None);
    assert_eq!(get_file_ending("machine_setup"), None);
    assert!(is_valid_file_ending("yml"));
    assert!(is_valid_file_ending("json"));
    assert_eq!(get_config_handler("yml"), Ok(ConfigFormat::Yaml));
    assert_eq!(get_config_handler("json"), Ok(ConfigFormat::Json));
    assert_eq!(get_config_handler("toml"), Err("Unsupported config file type: toml".to_string()));
}
