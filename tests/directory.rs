use machine_setup::commands::{check_distinct_dirs, target_dir, CloneCommand, CopyDirCommand, MachineSetupCommand, SymlinkCommand};
use machine_setup::config_value::ConfigValue;
use machine_setup::directory::{get_relative_dir, get_source_and_target, is_file_path};

fn text(s: &str) -> ConfigValue {
    ConfigValue::String(s.to_string())
}

fn map(pairs: Vec<(&str, ConfigValue)>) -> ConfigValue {
    ConfigValue::Hash(pairs.into_iter().map(|(k, v)| (k.to_string(), v)).collect())
}

#[test]
fn it_returns_true_if_the_path_is_a_file() {
    assert!(is_file_path("/tmp/test.txt"));
}

#[test]
fn it_returns_false_if_the_path_is_a_directory() {
    assert!(!is_file_path("/tmp/test"));
    assert!(!is_file_path("/home/me/.config"));
    assert!(!is_file_path(""));
}

#[test]
fn relative_dirs() {
    assert_eq!(get_relative_dir("/etc/setup", "dotfiles"), "/etc/setup/dotfiles");
    assert_eq!(get_relative_dir("/etc/setup", "~/x"), "~/x");
    assert_eq!(get_relative_dir("/etc/setup", "/abs"), "/abs");
    assert_eq!(get_relative_dir("/etc/setup/", "x"), "/etc/setup/x");
    assert_eq!(get_relative_dir("", "x"), "x");
}

#[test]
fn sources_and_targets() {
    let args = map(vec![
        ("src", text("files")),
        ("target", text("~/out")),
        ("ignore", ConfigValue::Array(vec![text("a.txt")])),
    ]);
    let dirs = get_source_and_target(&args, "/root").ok().unwrap();
    assert_eq!(dirs.src, "/root/files");
    assert_eq!(dirs.target, "~/out");
    assert_eq!(dirs.ignore, vec!["a.txt".to_string()]);
    let missing = map(vec![("src", text("files"))]);
    assert_eq!(get_source_and_target(&missing, "/root").err().unwrap(), "target: argument is required");
    let positional = ConfigValue::Array(vec![]);
    assert_eq!(
        get_source_and_target(&positional, "/root").err().unwrap(),
        "Expected named arguments, got positional arguments"
    );
}

#[test]
fn copy_it_fails_when_dirs_are_the_same() {
    assert!(check_distinct_dirs("/tmp/a", "/tmp/a", "/tmp/a")
        .unwrap_err()
        .contains("Source and destination directories are the same"));
    assert_eq!(check_distinct_dirs("/tmp/a", "/tmp/b", "/tmp/a"), Ok(()));
}

#[test]
fn symlink_it_fails_when_dirs_are_the_same() {
    assert!(check_distinct_dirs("/x", "/x", "./x").unwrap_err().contains("Source and destination directories are the same"));
}

#[test]
fn it_doesnt_remove_config_dir() {
    let args = map(vec![("source", text("./test")), ("target", text("."))]);
    let target = target_dir(&args, "/cfg").unwrap();
    assert_eq!(target, "/cfg/.");
    let result = CopyDirCommand::check_removable("/cfg", "/cfg");
    assert!(result.is_err());
    assert!(result.unwrap_err().contains("cannot delete config_dir"));
    assert_eq!(CopyDirCommand::check_removable("/cfg/sub", "/cfg"), Ok(()));
}

#[test]
fn force_flag() {
    assert!(SymlinkCommand::should_force(&map(vec![("force", ConfigValue::Boolean(true))])));
    assert!(!SymlinkCommand::should_force(&map(vec![("force", text("yes"))])));
    assert!(!SymlinkCommand::should_force(&ConfigValue::Null));
}

#[test]
fn clone_arguments() {
    let args = map(vec![("url", text("https://example.com/r.git")), ("target", text("repo"))]);
    assert_eq!(
        CloneCommand::install_args(&args, "/cfg"),
        Ok(("https://example.com/r.git".to_string(), "/cfg/repo".to_string()))
    );
    let no_url = map(vec![("target", text("repo"))]);
    assert_eq!(CloneCommand::install_args(&no_url, "/cfg"), Err("url: argument is required".to_string()));
    let not_text = map(vec![("url", ConfigValue::Integer(1)), ("target", text("repo"))]);
    assert_eq!(CloneCommand::install_args(&not_text, "/cfg"), Err("url: argument must be a string".to_string()));
}

#[test]
fn nested_configuration_arguments() {
    let args = map(vec![("config", text("other.yaml")), ("task", text("t"))]);
    assert_eq!(
        MachineSetupCommand::config_args(&args),
        Ok(("other.yaml".to_string(), Some("t".to_string())))
    );
    let args = map(vec![("config", text("other.yaml"))]);
    assert_eq!(MachineSetupCommand::config_args(&args), Ok(("other.yaml".to_string(), None)));
    let args = map(vec![("config", text("other.yaml")), ("task", ConfigValue::Integer(2))]);
    assert_eq!(MachineSetupCommand::config_args(&args), Err("task: argument must be a string".to_string()));
    assert_eq!(MachineSetupCommand::config_args(&text("x")), Err("args is not an object".to_string()));
}
