use machine_setup::commands::error_line;
use machine_setup::shell::{create_script_file, strip_line_err_info, Shell};
use machine_setup::temp_storage::{create_temp_file_path, get_random_string};

const BASH_STR: &str = "#!/bin/bash\nsource $HOME/.bashrc >/dev/null 2>&1\n";
const ZSH_STR: &str = "#!/bin/zsh\nsource $HOME/.zshrc >/dev/null 2>&1\n";

#[test]
fn it_creates_correct_bash_script_file() {
    let script = create_script_file(Shell::Bash, &vec![String::from("echo 'hello world'")]);
    assert!(script.contains(BASH_STR));
    assert!(script.contains("echo 'hello world'"));
    assert_eq!(script, format!("{BASH_STR}echo 'hello world'\n"));
}

#[test]
fn it_creates_correct_zsh_script_file() {
    let script = create_script_file(Shell::Zsh, &vec![String::from("echo 'hello world'")]);
    assert!(script.contains(ZSH_STR));
    assert!(script.contains("echo 'hello world'"));
}

#[test]
fn script_paths_are_random_shell_files() {
    let path = create_temp_file_path("sh", "/tmp");
    assert!(path.contains(".sh"));
    assert!(path.starts_with("/tmp/"));
    assert_eq!(path.len(), "/tmp/".len() + 25 + ".sh".len());
    let name = get_random_string();
    assert_eq!(name.len(), 25);
    assert!(name.chars().all(|c| c.is_ascii_alphanumeric()));
}

#[test]
fn it_replaces_unneeded_err_info() {
    assert_eq!(
        strip_line_err_info("/home/test/temp.sh: line 5: some important info"),
        String::from("some important info")
    );
}

#[test]
fn error_lines_without_a_message_are_dropped() {
    assert_eq!(error_line("/tmp/x.sh: line 2: nananana: command not found"), Some("nananana: command not found".to_string()));
    assert_eq!(error_line("/tmp/x.sh: line 2: "), None);
    assert_eq!(error_line("plain"), Some("plain".to_string()));
}

#[test]
fn shells_by_name() {
    assert_eq!(Shell::from_str("zsh"), Ok(Shell::Zsh));
    assert_eq!(Shell::from_str("sh"), Err("Unknown shell: sh".to_string()));
    assert_eq!(Shell::Bash.to_string(), "bash");
}
