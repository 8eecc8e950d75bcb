use base64::Engine;

use ttsync::commands::{
    find_peer_to_revoke, pair_open_permissions, parse_duration, peer_row, permissions_label,
    format_timestamp_ms, timestamp_text, truncate_id, yes_no, Command, CertAction,
};
use ttsync::config::{
    create_identity, identity_from_secret, identity_path, parse_layout, private_key_bytes,
    resolve_config_path, signing_key, CliError, ConfigPathMode, Identity, LayoutMode, UiConfig,
    UiLanguage,
};
use ttsync::context::{background_serve_allowed, Context};
use ttsync::error::SyncError;
use ttsync::launch_agent::{
    gui_domain, install_enable_now_user_service as launch_install, is_user_service_active as launch_active,
    launchctl_outcome, reload_commands, render_launch_agent_plist, service_target,
    start_user_service as launch_start, stop_user_service as launch_stop, uid_from_output, xml_escape,
};
use ttsync::output::{err_line, field_line, header_line, ok_line, warn_line, Style};
use ttsync::peer::{DeviceId, PeerGrant, Permissions};
use ttsync::systemd::{
    install_enable_now_user_service as systemd_install, is_active_from_output,
    is_user_service_active as systemd_active, render_unit_file, start_user_service as systemd_start,
    stop_user_service as systemd_stop, systemctl_outcome, systemd_quote,
};
use ttsync::user_service::{
    command_failure, current_manager, install_enable_now, is_active, start, stop, TargetOs,
    UserServiceManager,
};
use ttsync::windows_task_scheduler::{
    encode_powershell_command, install_enable_now_user_service as windows_install, install_script,
    install_script_encodable, is_active_from_output as windows_active_from_output,
    is_user_service_active as windows_active, powershell_literal, powershell_outcome,
    quote_windows_arg, render_task_arguments, start_user_service as windows_start,
    stop_user_service as windows_stop, task_path, utf16le_bytes,
};

fn config_message(e: CliError) -> String {
    match e {
        CliError::Config(m) => m,
        other => panic!("expected a config error, got {:?}", other),
    }
}

#[test]
fn cli_mode_uses_override_path() {
    let resolved = resolve_config_path(
        String::from("config.toml"),
        Some("custom.toml"),
        ConfigPathMode::Cli,
    );

    assert_eq!(resolved, String::from("custom.toml"));
}

#[test]
fn tui_mode_ignores_override_path() {
    let resolved = resolve_config_path(
        String::from("config.toml"),
        Some("custom.toml"),
        ConfigPathMode::Tui,
    );

    assert_eq!(resolved, String::from("config.toml"));
}

#[test]
fn missing_override_keeps_default_path() {
    assert_eq!(resolve_config_path("a.toml".to_string(), None, ConfigPathMode::Cli), "a.toml");
}

#[test]
fn identity_file_lives_in_the_state_dir() {
    assert_eq!(identity_path("state"), "state/identity.json");
    assert_eq!(identity_path("/var/lib/tt/"), "/var/lib/tt/identity.json");
    assert_eq!(identity_path(""), "identity.json");
}

#[test]
fn layouts_are_named_as_on_the_command_line() {
    assert_eq!(parse_layout("tauritavern").unwrap(), LayoutMode::TauriTavern);
    assert_eq!(parse_layout("sillytavern").unwrap(), LayoutMode::SillyTavern);
    assert_eq!(parse_layout("sillytavern-docker").unwrap(), LayoutMode::SillyTavernDocker);
    assert_eq!(config_message(parse_layout("SillyTavern").unwrap_err()), "unknown layout: SillyTavern");
}

#[test]
fn defaults_are_chinese() {
    assert_eq!(UiLanguage::default(), UiLanguage::ZhCn);
    assert_eq!(UiConfig::default().language, UiLanguage::ZhCn);
    assert_eq!(ttsync::config::default_listen(), "0.0.0.0:8443");
}

#[test]
fn identity_key_round_trips_through_base64() {
    let secret = [7u8; 32];
    let identity = identity_from_secret(&secret, "550e8400-e29b-41d4-a716-446655440000".to_string());
    assert_eq!(identity.device_name, "TT-Sync");
    assert_eq!(
        identity.private_key,
        base64::engine::general_purpose::URL_SAFE_NO_PAD.encode(secret)
    );
    assert_ne!(identity.private_key.as_bytes(), &secret[..]);
    assert_eq!(private_key_bytes(&identity).unwrap(), secret.to_vec());
    assert!(signing_key(&identity).is_ok());
}

#[test]
fn private_key_errors() {
    let bad = Identity {
        device_id: "x".to_string(),
        device_name: "y".to_string(),
        private_key: "not base64!".to_string(),
    };
    assert!(config_message(private_key_bytes(&bad).unwrap_err()).starts_with("decode private key: "));
    let short = Identity {
        device_id: "x".to_string(),
        device_name: "y".to_string(),
        private_key: base64::engine::general_purpose::URL_SAFE_NO_PAD.encode([1u8; 16]),
    };
    assert_eq!(config_message(private_key_bytes(&short).unwrap_err()), "invalid private key length");
    assert!(signing_key(&short).is_err());
}

#[test]
fn created_identities_are_well_formed() {
    let a = create_identity();
    let b = create_identity();
    assert!(DeviceId::new(a.device_id.clone()).is_ok());
    assert_eq!(a.device_name, "TT-Sync");
    assert_eq!(private_key_bytes(&a).unwrap().len(), 32);
    assert_ne!(a.device_id, b.device_id);
}

#[test]
fn cli_error_messages() {
    assert_eq!(CliError::Config("c".into()).message(), "c");
    assert_eq!(CliError::Io("i".into()).message(), "i");
    let e: CliError = SyncError::NotFound("n".into()).into();
    assert_eq!(e.message(), "n");
}

#[test]
fn onboard_is_the_only_tui_command() {
    assert_eq!(Command::Onboard.config_path_mode(), ConfigPathMode::Tui);
    assert_eq!(Command::Serve.config_path_mode(), ConfigPathMode::Cli);
    assert_eq!(Command::Cert { action: CertAction::Show }.config_path_mode(), ConfigPathMode::Cli);
}

#[test]
fn durations_in_seconds() {
    assert_eq!(parse_duration("5m").unwrap(), 300);
    assert_eq!(parse_duration(" 10 min ").unwrap(), 600);
    assert_eq!(parse_duration("1h").unwrap(), 3600);
    assert_eq!(parse_duration("2 hour").unwrap(), 7200);
    assert_eq!(parse_duration("30").unwrap(), 30);
    assert_eq!(parse_duration("45sec").unwrap(), 45);
    assert_eq!(config_message(parse_duration("abc").unwrap_err()), "invalid duration: abc");
    assert_eq!(config_message(parse_duration("  ").unwrap_err()), "invalid duration: ");
    assert_eq!(config_message(parse_duration("5 x ").unwrap_err()), "unknown duration unit: x");
    assert!(ttsync::commands::duration_in_range("5m"));
    assert!(!ttsync::commands::duration_in_range("18446744073709551615h"));
}

#[test]
fn pair_open_permission_flags() {
    let rw = pair_open_permissions(false, false, false).unwrap();
    assert_eq!(rw, Permissions { read: true, write: true, mirror_delete: false });
    let ro = pair_open_permissions(true, false, false).unwrap();
    assert_eq!(ro, Permissions { read: true, write: false, mirror_delete: false });
    let mirror = pair_open_permissions(false, true, true).unwrap();
    assert_eq!(mirror, Permissions { read: true, write: true, mirror_delete: true });
    assert_eq!(
        config_message(pair_open_permissions(true, true, false).unwrap_err()),
        "invalid permissions: do not use both --ro and --rw"
    );
    assert_eq!(
        config_message(pair_open_permissions(true, false, true).unwrap_err()),
        "invalid permissions: --mirror requires write access (do not use --ro)"
    );
    assert_eq!(permissions_label(mirror), "RWD");
    assert_eq!(permissions_label(ro), "R--");
    assert_eq!(yes_no(true), "yes");
    assert_eq!(yes_no(false), "no");
}

#[test]
fn long_ids_are_shortened() {
    assert_eq!(truncate_id("550e8400-e29b-41d4-a716-446655440000"), "550e8400-e29…");
    assert_eq!(truncate_id("1234567890abc"), "1234567890abc");
    assert_eq!(truncate_id("1234567890abcd"), "1234567890ab…");
    assert_eq!(truncate_id("éééééééééé"), "éééééé…");
}

fn grant(id: &str, name: &str) -> PeerGrant {
    PeerGrant {
        device_id: DeviceId::new(id.to_string()).unwrap(),
        device_name: name.to_string(),
        public_key: vec![1, 2, 3],
        permissions: Permissions { read: true, write: false, mirror_delete: false },
        paired_at_ms: 0,
        last_sync_ms: None,
    }
}

#[test]
fn revoke_finds_peers_by_id_prefix_or_name() {
    let peers = vec![
        grant("550e8400-e29b-41d4-a716-446655440000", "Laptop"),
        grant("660e8400-e29b-41d4-a716-446655440000", "Phone"),
    ];
    assert_eq!(find_peer_to_revoke(&peers, "660e").unwrap(), 1);
    assert_eq!(find_peer_to_revoke(&peers, "laptop").unwrap(), 0);
    assert_eq!(find_peer_to_revoke(&peers, "550e8400-e29b-41d4-a716-446655440000").unwrap(), 0);
    assert_eq!(find_peer_to_revoke(&peers, "").unwrap(), 0);
    assert_eq!(config_message(find_peer_to_revoke(&peers, "tablet").unwrap_err()), "no peer matches \"tablet\"");
}

#[test]
fn peer_rows_for_the_list() {
    let row = peer_row(&grant("550e8400-e29b-41d4-a716-446655440000", "Laptop"));
    assert_eq!(row.len(), 5);
    assert_eq!(row[0], "550e8400-e29…");
    assert_eq!(row[1], "Laptop");
    assert_eq!(row[2], "R--");
    assert_eq!(row[4], "never");
    assert_eq!(timestamp_text(1234, None), "1234");
    assert_eq!(timestamp_text(1234, Some("2024-01-01 00:00".to_string())), "2024-01-01 00:00");
}

#[test]
fn launch_agent_plist_escapes_program_arguments() {
    let plist = render_launch_agent_plist(
        r#"/Applications/TT & Sync/tt-sync "beta""#,
        "/Users/alice/Library/Application Support/tt<sync>",
    );

    assert!(
        plist.contains("<string>/Applications/TT &amp; Sync/tt-sync &quot;beta&quot;</string>")
    );
    assert!(plist.contains("<string>serve</string>"));
    assert!(plist.contains("<string>--state-dir</string>"));
    assert!(
        plist.contains(
            "<string>/Users/alice/Library/Application Support/tt&lt;sync&gt;</string>"
        )
    );
}

#[test]
fn xml_escape_replaces_all_five_characters() {
    assert_eq!(xml_escape("'<&>\""), "&apos;&lt;&amp;&gt;&quot;");
    assert_eq!(xml_escape("&amp;"), "&amp;amp;");
    let plist = render_launch_agent_plist("/bin/tt", "/s");
    assert!(plist.starts_with("<?xml version=\"1.0\" encoding=\"UTF-8\"?>\n"));
    assert!(plist.contains("<string>io.github.darkatse.tt-sync</string>"));
    assert!(plist.ends_with("</plist>\n"));
}

#[test]
fn launch_agent_commands() {
    assert_eq!(gui_domain("501"), "gui/501");
    assert_eq!(service_target("501"), "gui/501/io.github.darkatse.tt-sync");
    let cmds = reload_commands("501", "/p.plist", true);
    assert_eq!(cmds.len(), 3);
    assert_eq!(cmds[0].args, vec!["bootout", "gui/501", "/p.plist"]);
    assert_eq!(cmds[1].args, vec!["bootstrap", "gui/501", "/p.plist"]);
    assert_eq!(cmds[2].args, vec!["kickstart", "-k", "gui/501/io.github.darkatse.tt-sync"]);
    assert_eq!(reload_commands("501", "/p.plist", false).len(), 2);
    let started = launch_start(TargetOs::MacOs, "501", "/p.plist", true).unwrap();
    assert_eq!(started.len(), 1);
    assert_eq!(started[0].program, "launchctl");
    assert_eq!(launch_stop(TargetOs::MacOs, "501", "/p.plist").unwrap().args[0], "bootout");
    assert_eq!(launch_active(TargetOs::MacOs, "501").unwrap().args, vec!["print", "gui/501/io.github.darkatse.tt-sync"]);
    assert!(launch_install(TargetOs::MacOs, "/bin/tt", "/s").unwrap().contains("<string>/s</string>"));
    assert_eq!(
        config_message(launch_install(TargetOs::Linux, "/bin/tt", "/s").unwrap_err()),
        "LaunchAgent user service (io.github.darkatse.tt-sync) is only supported on macOS"
    );
    assert!(launch_start(TargetOs::Windows, "1", "/p", false).is_err());
    assert_eq!(uid_from_output(true, "0", " 501\n", "").unwrap(), "501");
    assert!(matches!(uid_from_output(false, "exit status: 1", "", "boom"), Err(CliError::Io(m)) if m == "id -u failed (exit status: 1): \nboom"));
    assert!(launchctl_outcome(true, "0", "", "").is_ok());
    assert!(matches!(launchctl_outcome(false, "1", "o", "e"), Err(CliError::Io(m)) if m == "launchctl failed (1): o\ne"));
}

#[test]
fn systemd_unit_and_commands() {
    assert_eq!(systemd_quote(r#"a"b\c"#), r#""a\"b\\c""#);
    let unit = render_unit_file("/usr/bin/tt sync", "/home/a/state");
    assert_eq!(
        unit,
        "[Unit]\nDescription=TT-Sync server\n\n[Service]\nExecStart=\"/usr/bin/tt sync\" serve --state-dir \"/home/a/state\"\nRestart=on-failure\nRestartSec=2\n\n[Install]\nWantedBy=default.target\n"
    );
    let (text, cmds) = systemd_install(TargetOs::Linux, "/bin/tt", "/s").unwrap();
    assert!(text.contains("ExecStart=\"/bin/tt\""));
    assert_eq!(cmds[0].args, vec!["--user", "daemon-reload"]);
    assert_eq!(cmds[1].args, vec!["--user", "enable", "--now", "tt-sync.service"]);
    assert_eq!(systemd_start(TargetOs::Linux).unwrap().args, vec!["--user", "start", "tt-sync.service"]);
    assert_eq!(systemd_stop(TargetOs::Linux).unwrap().args, vec!["--user", "stop", "tt-sync.service"]);
    assert_eq!(systemd_active(TargetOs::Linux).unwrap().args, vec!["--user", "is-active", "tt-sync.service"]);
    assert_eq!(
        config_message(systemd_start(TargetOs::MacOs).unwrap_err()),
        "systemd user services (tt-sync.service) are only supported on Linux"
    );
    assert!(is_active_from_output("0", "active\n", "").unwrap());
    assert!(!is_active_from_output("3", "inactive\n", "").unwrap());
    assert!(!is_active_from_output("3", " failed ", "").unwrap());
    assert!(matches!(
        is_active_from_output("4", "weird\n", "err"),
        Err(CliError::Io(m)) if m == "systemctl is-active returned unexpected output (4): weird\n\nerr"
    ));
    assert!(systemctl_outcome(true, "", "", "").is_ok());
    assert!(matches!(systemctl_outcome(false, "1", "a", "b"), Err(CliError::Io(m)) if m == "systemctl failed (1): a\nb"));
}

#[test]
fn powershell_literal_escapes_single_quotes() {
    assert_eq!(powershell_literal("TT-Sync's beta"), "'TT-Sync''s beta'");
}

#[test]
fn task_arguments_quote_state_dir() {
    let args = render_task_arguments(r#"C:\Users\Alice\TT Sync\"beta""#);
    assert_eq!(
        args,
        r#"background-serve --state-dir "C:\Users\Alice\TT Sync\\\"beta\"""#
    );
}

#[test]
fn windows_arguments_are_quoted_only_when_needed() {
    assert_eq!(quote_windows_arg("plain"), "plain");
    assert_eq!(quote_windows_arg(r"C:\dir\"), r"C:\dir\");
    assert_eq!(quote_windows_arg(""), "\"\"");
    assert_eq!(quote_windows_arg(r"a b\"), r#""a b\\""#);
    assert_eq!(quote_windows_arg("a\tb"), "\"a\tb\"");
    assert_eq!(quote_windows_arg(r#"say "hi""#), r#""say \"hi\"""#);
}

#[test]
fn powershell_scripts_are_encoded_as_utf16le_base64() {
    assert_eq!(utf16le_bytes("A"), vec![0x41, 0x00]);
    assert_eq!(utf16le_bytes("é"), vec![0xE9, 0x00]);
    assert_eq!(utf16le_bytes("😀"), vec![0x3D, 0xD8, 0x00, 0xDE]);
    assert_eq!(encode_powershell_command("A"), "QQA=");
    assert_eq!(encode_powershell_command("dir"), "ZABpAHIA");
}

#[test]
fn windows_task_scripts() {
    let script = install_script(r"C:\tt.exe", r"C:\state dir");
    assert!(script.starts_with("$ErrorActionPreference = 'Stop'\n"));
    assert!(script.contains("New-ScheduledTaskAction -Execute 'C:\\tt.exe' -Argument 'background-serve --state-dir \"C:\\state dir\"'"));
    assert!(script.contains("-Description 'TT-Sync user-scope sync server (beta)' -Force | Out-Null"));
    assert!(script.ends_with("Start-ScheduledTask -TaskName 'TT-Sync'"));
    assert!(install_script_encodable(r"C:\tt.exe", r"C:\state dir"));
    let cmd = windows_install(TargetOs::Windows, r"C:\tt.exe", r"C:\state dir").unwrap();
    assert_eq!(cmd.program, "powershell.exe");
    assert_eq!(cmd.args[..3], ["-NoProfile", "-NonInteractive", "-EncodedCommand"]);
    assert_eq!(cmd.args[3], encode_powershell_command(&script));
    let start_cmd = windows_start(TargetOs::Windows).unwrap();
    assert_eq!(
        start_cmd.args[3],
        encode_powershell_command("$ErrorActionPreference = 'Stop'\nStart-ScheduledTask -TaskName 'TT-Sync'")
    );
    let stop_cmd = windows_stop(TargetOs::Windows).unwrap();
    assert_eq!(
        stop_cmd.args[3],
        encode_powershell_command("$ErrorActionPreference = 'Stop'\nStop-ScheduledTask -TaskName 'TT-Sync'")
    );
    assert!(windows_active(TargetOs::Windows).is_ok());
    assert!(windows_active_from_output("true\r\n"));
    assert!(!windows_active_from_output("false\r\n"));
    assert_eq!(task_path(), "TT-Sync");
    assert_eq!(
        config_message(windows_start(TargetOs::Linux).unwrap_err()),
        "Windows Task Scheduler user service (TT-Sync) is only supported on Windows"
    );
    assert!(matches!(powershell_outcome(false, "1", "", "x"), Err(CliError::Io(m)) if m == "powershell failed (1): \nx"));
}

#[test]
fn user_service_managers_by_platform() {
    assert_eq!(current_manager(TargetOs::Linux), Some(UserServiceManager::SystemdUser));
    assert_eq!(current_manager(TargetOs::MacOs), Some(UserServiceManager::LaunchAgent));
    assert_eq!(current_manager(TargetOs::Windows), Some(UserServiceManager::TaskScheduler));
    assert_eq!(current_manager(TargetOs::Other), None);
    assert_eq!(UserServiceManager::SystemdUser.display_name(), "systemd --user service");
    assert_eq!(UserServiceManager::TaskScheduler.display_name(), "Task Scheduler (beta)");
    assert_eq!(
        UserServiceManager::LaunchAgent.status_hint(),
        "launchctl print gui/$(id -u)/io.github.darkatse.tt-sync"
    );
    assert_eq!(
        UserServiceManager::TaskScheduler.status_hint(),
        "schtasks /Query /TN \"TT-Sync\" /V /FO LIST"
    );
    assert_eq!(
        UserServiceManager::SystemdUser.status_hint(),
        "systemctl --user status tt-sync.service"
    );
    for f in [install_enable_now, start, stop, is_active] {
        assert_eq!(
            config_message(f(TargetOs::Other).unwrap_err()),
            "user service management is not supported on this platform"
        );
        assert_eq!(f(TargetOs::Linux).unwrap(), UserServiceManager::SystemdUser);
    }
    assert!(matches!(command_failure("x", "s", "o", "e"), CliError::Io(m) if m == "x failed (s): o\ne"));
}

#[test]
fn styled_output() {
    let on = Style::new(true);
    let off = Style::new(false);
    assert_eq!(on.bold("x").render(), "\x1b[1mx\x1b[0m");
    assert_eq!(on.bold_red("x").render(), "\x1b[1;31mx\x1b[0m");
    assert_eq!(on.cyan("x").render(), "\x1b[36mx\x1b[0m");
    assert_eq!(off.bold("x").render(), "x");
    assert_eq!(field_line(&off, "Label", "value"), "  Label  value");
    assert_eq!(field_line(&on, "L", "v"), "  \x1b[2mL\x1b[0m  v");
    assert_eq!(ok_line(&off, "done"), "  ✓ done");
    assert_eq!(warn_line(&off, "careful"), "  ! careful");
    assert_eq!(err_line(&on, "bad"), "  \x1b[1;31m✗\x1b[0m bad");
    assert_eq!(header_line(&off, "H"), "\nH");
}

#[test]
fn context_and_background_gate() {
    let ctx = Context::new(false, true, "state".to_string(), "config.toml".to_string());
    assert!(ctx.quiet);
    assert!(!ctx.json);
    assert_eq!(ctx.state_dir, "state");
    assert!(background_serve_allowed(TargetOs::Windows).is_ok());
    assert_eq!(
        config_message(background_serve_allowed(TargetOs::Linux).unwrap_err()),
        "background-serve is only supported on Windows"
    );
}

fn minute_shaped(t: &str) -> bool {
    let c: Vec<char> = t.chars().collect();
    let n = c.len();
    if n < 13 {
        return false;
    }
    let d = |i: usize| c[i].is_ascii_digit();
    let year = &c[..n - 12];
    let year_ok = year.iter().skip(1).all(|x| x.is_ascii_digit())
        && (year[0].is_ascii_digit() || ((year[0] == '+' || year[0] == '-') && year.len() >= 2));
    year_ok
        && c[n - 12] == '-'
        && d(n - 11)
        && d(n - 10)
        && c[n - 9] == '-'
        && d(n - 8)
        && d(n - 7)
        && c[n - 6] == ' '
        && d(n - 5)
        && d(n - 4)
        && c[n - 3] == ':'
        && d(n - 2)
        && d(n - 1)
}

#[test]
fn timestamps_show_local_minutes() {
    assert!(minute_shaped(&format_timestamp_ms(0)));
    assert!(minute_shaped(&format_timestamp_ms(1_700_000_000_000)));
    assert_eq!(format_timestamp_ms(u64::MAX), u64::MAX.to_string());
}

#[test]
fn peer_row_shows_times() {
    let p = PeerGrant {
        device_id: DeviceId::new("123e4567-e89b-12d3-a456-426614174000".to_string()).unwrap(),
        device_name: "n".to_string(),
        public_key: vec![],
        permissions: Permissions { read: true, write: false, mirror_delete: false },
        paired_at_ms: 1_700_000_000_000,
        last_sync_ms: Some(1_700_000_060_000),
    };
    let row = peer_row(&p);
    assert!(minute_shaped(&row[3]));
    assert!(minute_shaped(&row[4]));
}

#[test]
fn rotated_leaf_cert_refuses_a_bad_key() {
    match ttsync::cert::rotated_leaf_cert("not a key") {
        Err(CliError::Config(m)) => assert!(m.starts_with("parse TLS key: ") && m.len() > "parse TLS key: ".len()),
        other => panic!("expected a config error, got {other:?}"),
    }
}

#[test]
fn rotated_leaf_cert_signs_with_the_given_key() {
    let key = rcgen::KeyPair::generate().unwrap();
    let cert = ttsync::cert::rotated_leaf_cert(&key.serialize_pem()).unwrap();
    assert!(cert.starts_with("-----BEGIN CERTIFICATE-----"));
    assert!(cert.ends_with("-----END CERTIFICATE-----\n"));
}

#[test]
fn leaf_certificates_name_the_server() {
    assert_eq!(ttsync::cert::leaf_certificate_names(), vec!["tt-sync".to_string(), "localhost".to_string()]);
}
