use pty_sessions::command::cd_target;
use pty_sessions::command::parse_command;
use pty_sessions::command::pick_output;
use pty_sessions::command::split_whitespace_tokens;
use pty_sessions::command::CommandPlan;
use pty_sessions::command::SystemInfo;
use pty_sessions::shell::default_shell;
use pty_sessions::shell::shell_init_command;
use pty_sessions::shell::shell_kind;
use pty_sessions::shell::ShellKind;

#[test]
fn default_shell_on_windows_is_powershell() {
    assert_eq!(default_shell(true, Some("/bin/zsh".to_string())), "powershell.exe");
    assert_eq!(default_shell(true, None), "powershell.exe");
}

#[test]
fn default_shell_follows_environment_or_falls_back() {
    assert_eq!(default_shell(false, Some("/usr/bin/fish".to_string())), "/usr/bin/fish");
    assert_eq!(default_shell(false, None), "/bin/sh");
}

#[test]
fn shell_kinds_by_suffix() {
    assert_eq!(shell_kind("/bin/zsh"), ShellKind::Zsh);
    assert_eq!(shell_kind("/usr/local/bin/bash"), ShellKind::Bash);
    assert_eq!(shell_kind("/usr/bin/fish"), ShellKind::Other);
    assert_eq!(shell_kind("zsh"), ShellKind::Zsh);
    assert_eq!(shell_kind("sh"), ShellKind::Other);
}

#[test]
fn init_command_per_shell() {
    assert_eq!(
        shell_init_command("/bin/zsh"),
        "precmd() { print -Pn \"\\033]0;%1c\\a\" }\n"
    );
    assert_eq!(
        shell_init_command("/bin/bash"),
        "PROMPT_COMMAND='echo -ne \"\\033]0;\\W\\a\"'\n"
    );
    assert_eq!(shell_init_command("/bin/sh"), "");
}

#[test]
fn splitting_a_line_into_words() {
    assert_eq!(split_whitespace_tokens("ls -la /tmp"), vec!["ls", "-la", "/tmp"]);
    assert_eq!(split_whitespace_tokens("  echo   hi \n"), vec!["echo", "hi"]);
    assert_eq!(split_whitespace_tokens(""), Vec::<String>::new());
    assert_eq!(split_whitespace_tokens("   \t "), Vec::<String>::new());
}

#[test]
fn blank_line_parses_to_empty_plan() {
    assert!(matches!(parse_command(""), CommandPlan::Empty));
    assert!(matches!(parse_command("  \t "), CommandPlan::Empty));
}

#[test]
fn cd_parses_to_directory_change() {
    match parse_command("cd /tmp") {
        CommandPlan::ChangeDir { path } => assert_eq!(path, "/tmp"),
        _ => panic!("cd with an argument must be a directory change"),
    }
    match parse_command("cd") {
        CommandPlan::ChangeDir { path } => assert_eq!(path, "~"),
        _ => panic!("bare cd must be a directory change to ~"),
    }
}

#[test]
fn other_lines_parse_to_run_plan() {
    match parse_command(" git  status --short ") {
        CommandPlan::Run { cmd, args } => {
            assert_eq!(cmd, "git");
            assert_eq!(args, vec!["status", "--short"]);
        },
        _ => panic!("a nonempty non-cd line must be a run plan"),
    }
}

#[test]
fn cd_target_resolves_home() {
    assert_eq!(cd_target("~".to_string(), Some("/home/u".to_string())), Ok("/home/u".to_string()));
    assert_eq!(
        cd_target("~".to_string(), None),
        Err("Could not find home directory".to_string())
    );
    assert_eq!(cd_target("/srv".to_string(), None), Ok("/srv".to_string()));
}

#[test]
fn output_choice_follows_exit_status() {
    assert_eq!(pick_output(true, "out".to_string(), "err".to_string()), "out");
    assert_eq!(pick_output(false, "out".to_string(), "err".to_string()), "err");
}

#[test]
fn system_info_carries_identity() {
    let info = SystemInfo::new("user".to_string(), "host".to_string());
    assert_eq!(info.username, "user");
    assert_eq!(info.hostname, "host");
    let copy = info.clone();
    assert_eq!(copy.username, "user");
}
