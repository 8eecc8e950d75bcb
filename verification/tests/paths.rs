use ttsync::commands::format_timestamp_ms;
use ttsync::config::{config_path_beside, join_path_exec, resolve_state_dir, CliError};
use ttsync::context::supports_color;
use ttsync::launch_agent::launch_agent_path;
use ttsync::systemd::user_unit_path;
use ttsync::user_service::{service_command, string_args};
use ttsync::windows_task_scheduler::powershell_command;

fn config_message(e: CliError) -> String {
    match e {
        CliError::Config(m) => m,
        _ => panic!("expected a config error"),
    }
}

#[test]
fn join_path_adds_one_separator() {
    assert_eq!(join_path_exec("/a/b", "c"), "/a/b/c");
    assert_eq!(join_path_exec("/a/b/", "c"), "/a/b/c");
    assert_eq!(join_path_exec("", "c"), "c");
}

#[test]
fn state_dir_prefers_flag_then_env_then_data_dir() {
    assert_eq!(resolve_state_dir(Some("/flag"), Some("/env"), Some("/data")), "/flag");
    assert_eq!(resolve_state_dir(None, Some("/env"), Some("/data")), "/env");
    assert_eq!(resolve_state_dir(None, None, Some("/data")), "/data/tt-sync");
    assert_eq!(resolve_state_dir(None, None, None), "./tt-sync");
}

#[test]
fn default_config_sits_beside_executable() {
    assert_eq!(config_path_beside(Some("/opt/tt")).unwrap(), "/opt/tt/config.toml");
    let e = config_path_beside(None).unwrap_err();
    assert_eq!(config_message(e), "current_exe has no parent directory");
}

#[test]
fn color_is_off_for_no_color_and_dumb_terminals() {
    assert!(supports_color(false, None));
    assert!(supports_color(false, Some("xterm-256color")));
    assert!(!supports_color(false, Some("dumb")));
    assert!(!supports_color(true, Some("xterm")));
}

#[test]
fn launch_agent_lives_under_library() {
    assert_eq!(
        launch_agent_path(Some("/Users/me")).unwrap(),
        "/Users/me/Library/LaunchAgents/io.github.darkatse.tt-sync.plist"
    );
    assert_eq!(config_message(launch_agent_path(None).unwrap_err()), "home directory is unavailable");
}

#[test]
fn systemd_unit_lives_under_config_dir() {
    assert_eq!(user_unit_path(Some("/home/me/.config")), "/home/me/.config/systemd/user/tt-sync.service");
    assert_eq!(user_unit_path(None), "./systemd/user/tt-sync.service");
}

#[test]
fn timestamp_out_of_range_is_shown_raw() {
    assert_eq!(format_timestamp_ms(u64::MAX), "18446744073709551615");
    let shown = format_timestamp_ms(1_700_000_000_000);
    assert_eq!(shown.len(), 16);
    assert!(shown.starts_with("2023-11-1"));
}

#[test]
fn service_command_keeps_program_and_args() {
    let args = string_args(&["--user", "start", "tt-sync.service"]);
    assert_eq!(args, vec!["--user".to_string(), "start".to_string(), "tt-sync.service".to_string()]);
    let c = service_command("systemctl", args.clone());
    assert_eq!(c.program, "systemctl");
    assert_eq!(c.args, args);
}

#[test]
fn powershell_command_encodes_script_as_utf16_base64() {
    let c = powershell_command("A");
    assert_eq!(c.program, "powershell.exe");
    assert_eq!(
        c.args,
        vec![
            "-NoProfile".to_string(),
            "-NonInteractive".to_string(),
            "-EncodedCommand".to_string(),
            "QQA=".to_string()
        ]
    );
}
