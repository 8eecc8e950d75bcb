use ttsync::tui::screens::layout::{pairing_body_layout, Area, PairingBodyLayout};
use ttsync::config::{Config, LayoutMode, UiConfig, UiLanguage};
use ttsync::peer::{DeviceId, PeerGrant, Permissions};
use ttsync::tui::app::{App, MainMenuItem, MainMenuState, MenuAction, PairingFlow, PairingKeyAction, Screen};
use ttsync::tui::doctor::{CheckStatus, DoctorProbes, FileProbe, PeersProbe, WorkspaceProbe};
use ttsync::tui::help::{about_text, keys_text, tips_text, HelpTab};
use ttsync::tui::i18n::tr;
use ttsync::tui::keys::{menu_next, menu_prev, Key};
use ttsync::tui::onboard::{OnboardAction, ServiceMode, Step};
use ttsync::tui::pairing::{render_qr, sorted_peer_ids, try_render_qr, Overlay as PairOverlay};
use ttsync::tui::peer_permissions::PermissionPreset;
use ttsync::tui::peers::{Overlay as PeersOverlay, PeersKeyAction};
use ttsync::tui::screens::{
    pairing_body_kind, peers_panel_height, qr_fits_in_block, status_dot, sync_folder_display,
    text_size, ConfigRead, PairingBodyKind, StatusDot, TextSize,
};
use ttsync::tui::serve::{actions, ServeAction};
use ttsync::tui::text_input::TextInput;
use ttsync::user_service::TargetOs;

fn grant(id: &str, name: &str, permissions: Permissions) -> PeerGrant {
    PeerGrant {
        device_id: DeviceId::new(id.to_string()).unwrap(),
        device_name: name.to_string(),
        public_key: vec![9],
        permissions,
        paired_at_ms: 1,
        last_sync_ms: Some(2),
    }
}

const A: &str = "aaaaaaaa-0000-4000-8000-000000000001";
const B: &str = "bbbbbbbb-0000-4000-8000-000000000002";
const C: &str = "cccccccc-0000-4000-8000-000000000003";

#[test]
fn qr_fit_check_accounts_for_block_borders() {
    let qr = TextSize {
        width: 30,
        height: 12,
    };

    let fits = |r: ratatui::layout::Rect| qr_fits_in_block(qr, r.width, r.height);
    assert!(fits(ratatui::layout::Rect::new(0, 0, 32, 14)));
    assert!(!fits(ratatui::layout::Rect::new(0, 0, 31, 14)));
    assert!(!fits(ratatui::layout::Rect::new(0, 0, 32, 13)));
}

#[test]
fn text_sizes_follow_lines() {
    assert_eq!(text_size(""), TextSize { width: 0, height: 0 });
    assert_eq!(text_size("ab\ncde\n"), TextSize { width: 3, height: 2 });
    assert_eq!(text_size("ab\r\nc"), TextSize { width: 2, height: 2 });
    assert_eq!(text_size("\n\n"), TextSize { width: 0, height: 2 });
    assert_eq!(text_size("█▀▄"), TextSize { width: 3, height: 1 });
    assert!(qr_fits_in_block(TextSize { width: 0, height: 0 }, 1, 1));
}

#[test]
fn pairing_layout_by_size() {
    assert_eq!(pairing_body_kind(120, 24), PairingBodyKind::Wide);
    assert_eq!(pairing_body_kind(72, 40), PairingBodyKind::Stacked);
    assert_eq!(pairing_body_kind(72, 22), PairingBodyKind::PairOnly);
    assert_eq!(peers_panel_height(40), 8);
    assert_eq!(peers_panel_height(18), 6);
    assert_eq!(status_dot(true, false), StatusDot::Success);
    assert_eq!(status_dot(false, true), StatusDot::Warning);
    assert_eq!(status_dot(false, false), StatusDot::Error);
}

#[test]
fn sync_folder_texts() {
    assert_eq!(sync_folder_display(UiLanguage::En, ConfigRead::Missing), "unspecified");
    assert_eq!(sync_folder_display(UiLanguage::ZhCn, ConfigRead::Failed), "读取失败（运行 Doctor 查看）");
    assert_eq!(sync_folder_display(UiLanguage::En, ConfigRead::Loaded("/data".into())), "/data");
    assert_eq!(tr(UiLanguage::En, "中", "en"), "en");
    assert_eq!(tr(UiLanguage::ZhCn, "中", "en"), "中");
}

#[test]
fn text_input_edits_at_the_cursor() {
    let mut t = TextInput::new("abc".to_string());
    assert_eq!(t.cursor(), 3);
    assert_eq!(t.visualize(), "abc▏");
    assert!(t.handle_key(Key::Left));
    assert!(t.handle_key(Key::Char('X')));
    assert_eq!(t.value(), "abXc");
    assert_eq!(t.visualize(), "abX▏c");
    assert!(t.handle_key(Key::Backspace));
    assert_eq!(t.value(), "abc");
    assert_eq!(t.cursor(), 2);
    assert!(t.handle_key(Key::Delete));
    assert_eq!(t.value(), "ab");
    assert!(!t.handle_key(Key::Delete));
    assert!(t.handle_key(Key::Home));
    assert!(!t.handle_key(Key::Left));
    assert!(!t.handle_key(Key::Backspace));
    assert_eq!(t.visualize(), "▏ab");
    assert!(t.handle_key(Key::End));
    assert!(!t.handle_key(Key::Right));
    assert!(!t.handle_key(Key::Tab));
    t.set("é中".to_string());
    assert_eq!(t.cursor(), 2);
    assert!(t.handle_key(Key::Left));
    assert!(t.handle_key(Key::Char('x')));
    assert_eq!(t.value(), "éx中");
}

#[test]
fn menus_wrap() {
    assert_eq!(menu_next(2, 3), 0);
    assert_eq!(menu_prev(0, 3), 2);
    assert_eq!(menu_prev(1, 3), 0);
    let mut m = MainMenuState::new();
    assert_eq!(m.selected_item(), MainMenuItem::Onboard);
    m.prev();
    assert_eq!(m.selected(), 6);
    assert_eq!(m.selected_item(), MainMenuItem::Exit);
    m.next();
    assert_eq!(m.selected(), 0);
    assert_eq!(MainMenuItem::all().len(), 7);
    assert_eq!(MainMenuItem::Pair.title(UiLanguage::En), "Pair (QR / link)");
    assert_eq!(MainMenuItem::Exit.title(UiLanguage::ZhCn), "退出");
}

#[test]
fn help_tabs_cycle() {
    let mut s = ttsync::tui::help::State::new();
    assert_eq!(s.tab, HelpTab::About);
    s.next_tab();
    s.next_tab();
    assert_eq!(s.tab, HelpTab::Tips);
    s.next_tab();
    assert_eq!(s.tab, HelpTab::About);
    s.prev_tab();
    assert_eq!(s.tab, HelpTab::Tips);
    assert_eq!(HelpTab::Keys.title(UiLanguage::En), "Keys");
    assert_eq!(about_text(UiLanguage::En)[0], "TT-Sync — Remote sync server for TauriTavern");
    assert_eq!(about_text(UiLanguage::ZhCn).len(), 14);
    assert_eq!(keys_text(UiLanguage::En).last().copied(), Some("  Tab / ←→    Switch tabs"));
    assert_eq!(tips_text(UiLanguage::En)[0], "VPS Deployment");
    assert_eq!(HelpTab::all(), vec![HelpTab::About, HelpTab::Keys, HelpTab::Tips]);
}

#[test]
fn permission_presets() {
    let rw = Permissions { read: true, write: true, mirror_delete: false };
    let odd = Permissions { read: false, write: true, mirror_delete: true };
    assert_eq!(PermissionPreset::ReadWrite.permissions(), rw);
    assert_eq!(PermissionPreset::suggest_for(Permissions { read: true, write: false, mirror_delete: false }), PermissionPreset::ReadOnly);
    assert_eq!(PermissionPreset::suggest_for(Permissions { read: true, write: true, mirror_delete: true }), PermissionPreset::ReadWriteMirrorDelete);
    assert_eq!(PermissionPreset::suggest_for(odd), PermissionPreset::ReadWrite);
    assert_eq!(PermissionPreset::ReadOnly.title(UiLanguage::En), "Read only");
    assert_eq!(PermissionPreset::at(2), PermissionPreset::ReadWriteMirrorDelete);
    assert_eq!(PermissionPreset::ReadWrite.index(), 1);
}

#[test]
fn serve_actions_by_service_state() {
    assert_eq!(actions(TargetOs::Other, false, None), vec![ServeAction::StartForeground]);
    assert_eq!(
        actions(TargetOs::Linux, true, Some(true)),
        vec![ServeAction::StopForeground, ServeAction::InstallUserService, ServeAction::StopUserService]
    );
    assert_eq!(
        actions(TargetOs::Windows, false, None),
        vec![
            ServeAction::StartForeground,
            ServeAction::InstallUserService,
            ServeAction::StartUserService,
            ServeAction::StopUserService
        ]
    );
    assert_eq!(
        ServeAction::InstallUserService.title(UiLanguage::En, TargetOs::Linux),
        "Install systemd --user service (and start now)"
    );
    assert_eq!(ServeAction::StartUserService.title(UiLanguage::En, TargetOs::Other), "Start user service");
    assert_eq!(ServeAction::StopUserService.title(UiLanguage::ZhCn, TargetOs::MacOs), "停止 LaunchAgent");
    let mut s = ttsync::tui::serve::State::new();
    s.menu = None;
    s.error = Some("x".into());
    s.enter();
    assert_eq!(s.menu, Some(0));
    assert!(s.error.is_none());
    assert!(s.refresh_user_service_status(Some(Ok(true))).is_ok());
    assert_eq!(s.user_service_active, Some(true));
    assert!(s.refresh_user_service_status(Some(Err(ttsync::config::CliError::Io("e".into())))).is_err());
    assert_eq!(s.user_service_active, Some(true));
    assert!(s.refresh_user_service_status(None).is_ok());
    assert_eq!(s.user_service_active, None);
}

#[test]
fn doctor_runs_six_checks() {
    let mut s = ttsync::tui::doctor::State::new();
    s.run(
        UiLanguage::En,
        DoctorProbes {
            state_dir_is_dir: true,
            state_dir_display: "/state".into(),
            config: FileProbe::Missing,
            identity: FileProbe::Missing,
            tls: Ok("AA:BB".into()),
            peers: PeersProbe::Counted(3),
            workspace: WorkspaceProbe::PathMissing("/w".into()),
        },
    );
    assert_eq!(s.checks.len(), 6);
    assert_eq!(s.checks[0].status, CheckStatus::Pass);
    assert_eq!(s.checks[0].detail, "/state");
    assert_eq!(s.checks[1].label, "Config");
    assert_eq!(s.checks[1].status, CheckStatus::Fail);
    assert_eq!(s.checks[1].detail, "config.toml not found");
    assert_eq!(s.checks[2].status, CheckStatus::Warn);
    assert_eq!(s.checks[3].detail, "spki: AA:BB");
    assert_eq!(s.checks[4].detail, "3 peer(s)");
    assert_eq!(s.checks[5].detail, "Path does not exist: /w");
    s.run(
        UiLanguage::ZhCn,
        DoctorProbes {
            state_dir_is_dir: false,
            state_dir_display: "/state".into(),
            config: FileProbe::Failed("bad".into()),
            identity: FileProbe::Loaded("/state/identity.json".into()),
            tls: Err("tls".into()),
            peers: PeersProbe::Missing,
            workspace: WorkspaceProbe::Mounted("/data".into()),
        },
    );
    assert_eq!(s.checks[0].detail, "状态目录不存在，请先运行 Onboard");
    assert_eq!(s.checks[1].detail, "bad");
    assert_eq!(s.checks[4].status, CheckStatus::Pass);
    assert_eq!(s.checks[5].detail, "data: /data");
}

#[test]
fn onboard_walks_through_its_steps() {
    let mut app: App<()> = App::new(TargetOs::Linux, 0);
    app.start_onboard(5);
    assert_eq!(app.screen, Screen::Onboard);
    assert_eq!(app.onboard.welcome_phrase_idx, 5);
    assert_eq!(app.onboard.service_mode, ServiceMode::UserService);
    assert_eq!(app.handle_key_onboard(Key::Right), OnboardAction::LanguageChanged);
    assert_eq!(app.language, UiLanguage::En);
    assert_eq!(app.handle_key_onboard(Key::Enter), OnboardAction::Stay);
    assert_eq!(app.onboard.step, Step::ListenPort);
    app.onboard.port.set("99999".into());
    assert_eq!(app.handle_key_onboard(Key::Enter), OnboardAction::Stay);
    assert_eq!(app.onboard.error.as_deref(), Some("Invalid port (expected 1..65535)"));
    app.onboard.port.set(" 9443 ".into());
    assert_eq!(app.handle_key_onboard(Key::Enter), OnboardAction::ConfirmPort);
    assert_eq!(app.onboard.port_number(), Some(9443));
    app.onboard.prepare_public_url(Some("192.168.1.5".into()));
    assert_eq!(app.onboard.public_url.value(), "https://192.168.1.5:9443");
    app.onboard.next_step();
    assert_eq!(app.onboard.step, Step::PublicUrl);
    assert_eq!(app.handle_key_onboard(Key::Enter), OnboardAction::Stay);
    assert_eq!(app.onboard.step, Step::LayoutMode);
    app.handle_key_onboard(Key::Up);
    assert_eq!(app.onboard.layout_mode(), LayoutMode::SillyTavernDocker);
    app.handle_key_onboard(Key::Down);
    app.handle_key_onboard(Key::Down);
    assert_eq!(app.onboard.layout_mode(), LayoutMode::SillyTavern);
    app.handle_key_onboard(Key::Enter);
    assert_eq!(app.onboard.step, Step::WorkspacePath);
    assert_eq!(app.onboard.workspace_input(), Err("workspace path is empty".to_string()));
    assert_eq!(app.handle_key_onboard(Key::Char('/')), OnboardAction::WorkspaceEdited);
    assert_eq!(app.onboard.workspace_input(), Ok("/".to_string()));
    assert_eq!(app.handle_key_onboard(Key::Enter), OnboardAction::DeriveMounts);
    app.onboard.mounts_derived(Ok(()));
    assert_eq!(app.handle_key_onboard(Key::Enter), OnboardAction::WriteConfig);
    let cfg = app.onboard.build_config(Some("/ws".into())).unwrap();
    assert_eq!(cfg.listen, "0.0.0.0:9443");
    assert_eq!(cfg.public_url, "https://192.168.1.5:9443");
    assert_eq!(cfg.layout, LayoutMode::SillyTavern);
    assert_eq!(cfg.ui.language, UiLanguage::En);
    assert_eq!(app.onboard.build_config(None).unwrap_err(), "workspace path not confirmed");
    app.onboard.next_step();
    assert_eq!(app.onboard.step, Step::PairNow);
    assert_eq!(app.handle_key_onboard(Key::Enter), OnboardAction::StartPairing);
    assert_eq!(app.onboard.step, Step::ServiceMode);
    app.handle_key_onboard(Key::Left);
    assert_eq!(app.onboard.service_mode, ServiceMode::Foreground);
    assert_eq!(app.handle_key_onboard(Key::Enter), OnboardAction::StartForeground);
    app.onboard.next_step();
    assert_eq!(app.handle_key_onboard(Key::Esc), OnboardAction::Stay);
    assert_eq!(app.onboard.step, Step::ServiceMode);
    assert_eq!(app.handle_key_onboard(Key::Char('q')), OnboardAction::Quit);
    assert!(app.should_quit);
}

#[test]
fn onboard_prefills_from_config() {
    let mut s = ttsync::tui::onboard::State::new(TargetOs::Other, 0);
    assert_eq!(s.service_mode, ServiceMode::Foreground);
    assert_eq!(s.port.value(), "8443");
    let cfg = Config {
        workspace_path: "/w".into(),
        layout: LayoutMode::SillyTavernDocker,
        public_url: "https://x:1".into(),
        listen: "0.0.0.0:1".into(),
        ui: UiConfig { language: UiLanguage::En },
    };
    s.prefill_from_config("127.0.0.1".to_string(), 1, &cfg);
    assert_eq!(s.listen_host, "127.0.0.1");
    assert_eq!(s.port.value(), "1");
    assert_eq!(s.build_config(Some("/w".into())).unwrap().listen, "127.0.0.1:1");
    assert_eq!(s.layout_idx, 2);
    assert!(!s.public_url_is_auto);
    s.port.set("abc".into());
    s.prepare_public_url(None);
    assert_eq!(s.public_url.value(), "https://127.0.0.1:abc");
    assert_eq!(s.build_config(Some("/w".into())).unwrap_err(), "invalid port");
}

#[test]
fn main_menu_opens_screens() {
    let mut app: App<u8> = App::new(TargetOs::Other, 0);
    app.handle_key_main_menu(Key::Down, 0);
    assert_eq!(app.handle_key_main_menu(Key::Enter, 0), MenuAction::EnterPairing);
    assert_eq!(app.screen, Screen::Pairing);
    assert_eq!(app.handle_key_pairing(Key::Esc), PairingKeyAction::Stay);
    assert_eq!(app.screen, Screen::MainMenu);
    app.handle_key_main_menu(Key::Down, 0);
    app.handle_key_main_menu(Key::Down, 0);
    app.handle_key_main_menu(Key::Enter, 0);
    assert_eq!(app.screen, Screen::Serve);
    assert_eq!(app.handle_key_serve(Key::Enter), Some(ServeAction::StartForeground));
    app.server = Some(1);
    assert_eq!(app.handle_key_serve(Key::Enter), Some(ServeAction::StopForeground));
    app.handle_key_serve(Key::Esc);
    app.handle_key_main_menu(Key::Down, 0);
    assert_eq!(app.handle_key_main_menu(Key::Enter, 0), MenuAction::RunDoctor);
    app.handle_key_doctor(Key::Esc);
    app.handle_key_main_menu(Key::Down, 0);
    app.handle_key_main_menu(Key::Enter, 0);
    assert_eq!(app.screen, Screen::Help);
    app.handle_key_help(Key::Tab);
    assert_eq!(app.help.tab, HelpTab::Keys);
    app.handle_key_help(Key::Esc);
    app.open_placeholder("t".into(), "b".into());
    assert_eq!(app.screen, Screen::Placeholder);
    app.handle_key_placeholder(Key::Enter);
    assert!(app.placeholder.is_none());
    app.handle_key_main_menu(Key::Esc, 0);
    assert!(app.should_quit);
}

#[test]
fn peers_selection_and_overlays() {
    let mut s = ttsync::tui::peers::State::new();
    s.next_peer();
    assert_eq!(s.selected, None);
    s.refresh_with(vec![
        grant(A, "a", Permissions { read: true, write: true, mirror_delete: false }),
        grant(B, "b", Permissions { read: true, write: false, mirror_delete: false }),
    ]);
    assert_eq!(s.selected, Some(0));
    s.next_peer();
    assert_eq!(s.selected, Some(1));
    s.refresh_with(vec![
        grant(C, "c", Permissions { read: true, write: true, mirror_delete: false }),
        grant(B, "b", Permissions { read: true, write: false, mirror_delete: false }),
        grant(A, "a", Permissions { read: true, write: true, mirror_delete: false }),
    ]);
    assert_eq!(s.selected, Some(1));
    s.prev_peer();
    assert_eq!(s.selected, Some(0));
    s.prev_peer();
    assert_eq!(s.selected, Some(2));
    assert_eq!(s.selected_device_id().unwrap().as_str(), A);
    assert_eq!(s.handle_key(Key::Char('p')), PeersKeyAction::Stay);
    assert!(matches!(s.overlay, PeersOverlay::Permissions { menu: 1, .. }));
    s.handle_key(Key::Up);
    assert_eq!(s.handle_key(Key::Enter), PeersKeyAction::ApplyPermissions);
    let g = s.regranted_permissions().unwrap();
    assert_eq!(g.permissions, Permissions { read: true, write: false, mirror_delete: false });
    assert_eq!(g.device_name, "a");
    s.handle_key(Key::Esc);
    assert!(matches!(s.overlay, PeersOverlay::Closed));
    s.handle_key(Key::Char('d'));
    assert_eq!(s.overlay_selected_revoke(), Some(false));
    s.handle_key(Key::Right);
    assert_eq!(s.overlay_selected_revoke(), Some(true));
    assert_eq!(s.handle_key(Key::Enter), PeersKeyAction::Revoke);
    assert_eq!(s.revocation_target().unwrap().as_str(), A);
    s.close_overlay();
    s.handle_key(Key::Enter);
    assert_eq!(s.overlay_selected_action(), Some(0));
    s.handle_key(Key::Down);
    s.handle_key(Key::Down);
    s.handle_key(Key::Enter);
    assert!(matches!(s.overlay, PeersOverlay::Closed));
    s.open_rename_overlay(DeviceId::new(B.to_string()).unwrap());
    if let PeersOverlay::Rename { input, .. } = &mut s.overlay {
        input.set("  Tablet ".into());
    }
    assert_eq!(s.renamed_grant().unwrap().device_name, "Tablet");
    assert_eq!(s.handle_key(Key::Char('q')), PeersKeyAction::Quit);
    s.refresh_with(Vec::new());
    assert_eq!(s.selected, None);
}

#[test]
fn pairing_queues_new_peers_in_id_order() {
    let rw = Permissions { read: true, write: true, mirror_delete: false };
    let ids = sorted_peer_ids(&vec![grant(C, "c", rw), grant(A, "a", rw), grant(B, "b", rw)]);
    let texts: Vec<&str> = ids.iter().map(|d| d.as_str()).collect();
    assert_eq!(texts, vec![A, B, C]);

    let mut s = ttsync::tui::pairing::State::new();
    s.snapshot_peers(vec![grant(B, "b", rw)]);
    s.poll_peers(vec![grant(C, "c", rw), grant(B, "b", rw), grant(A, "a", rw)]);
    match &s.overlay {
        PairOverlay::Permissions { device_id, menu } => {
            assert_eq!(device_id.as_str(), A);
            assert_eq!(*menu, 1);
        }
        other => panic!("unexpected {:?}", other),
    }
    assert_eq!(s.new_peers.len(), 1);
    assert_eq!(s.new_peers[0].as_str(), C);
    let g = s.permissions_grant_for_overlay().unwrap();
    assert_eq!(g.device_id.as_str(), A);
    assert_eq!(g.permissions, rw);
    s.open_continue_overlay();
    assert_eq!(s.overlay_selected_continue(), Some(true));
    s.close_overlay();
    s.maybe_open_next_new_peer();
    assert!(matches!(&s.overlay, PairOverlay::Permissions { device_id, .. } if device_id.as_str() == C));
    assert!(s.new_peers.is_empty());
    s.poll_peers(vec![grant(A, "a", rw), grant(B, "b", rw), grant(C, "c", rw)]);
    assert!(s.new_peers.is_empty());
    assert_eq!(s.token_refreshed("t1".into(), "uri".into(), "qr".into()), None);
    assert_eq!(s.token_refreshed("t2".into(), "uri".into(), "qr".into()), Some("t1".to_string()));
}

#[test]
fn pairing_keys() {
    let mut app: App<()> = App::new(TargetOs::Other, 0);
    app.start_pairing(PairingFlow::Onboard);
    assert_eq!(app.handle_key_pairing(Key::Char('r')), PairingKeyAction::RefreshToken);
    app.pairing.open_continue_overlay();
    app.handle_key_pairing(Key::Right);
    assert_eq!(app.pairing.overlay_selected_continue(), Some(false));
    assert_eq!(app.handle_key_pairing(Key::Enter), PairingKeyAction::Stay);
    assert_eq!(app.screen, Screen::Onboard);
    app.start_pairing(PairingFlow::MainMenu);
    app.pairing.open_continue_overlay();
    assert_eq!(app.handle_key_pairing(Key::Enter), PairingKeyAction::RefreshAndClose);
}

#[test]
fn qr_codes_render() {
    let qr = render_qr("tauritavern://tt-sync/pair?v=2");
    assert!(!qr.is_empty());
    assert_eq!(try_render_qr("tauritavern://tt-sync/pair?v=2"), Some(qr.clone()));
    let size = text_size(&qr);
    assert!(size.width > 0 && size.height > 0);
    assert_ne!(qr, "tauritavern://tt-sync/pair?v=2");
    assert_eq!(try_render_qr(&"x".repeat(8000)), None);
}

#[test]
fn wide_layout_uses_side_by_side_panels() {
    let area = Area { x: 0, y: 0, width: 120, height: 24 };
    match pairing_body_layout(area) {
        PairingBodyLayout::Wide { pair, peers } => {
            assert_eq!(pair.height, area.height);
            assert_eq!(peers.height, area.height);
            assert!(pair.width > peers.width);
            assert_eq!(pair.width + peers.width, area.width);
        }
        _ => panic!("expected wide layout"),
    }
}

#[test]
fn tall_narrow_layout_keeps_pairing_above_peers() {
    let area = Area { x: 0, y: 0, width: 72, height: 40 };
    match pairing_body_layout(area) {
        PairingBodyLayout::Stacked { pair, peers } => {
            assert_eq!(pair.width, area.width);
            assert_eq!(peers.width, area.width);
            assert!(pair.height > peers.height);
            assert_eq!(pair.height + peers.height, area.height);
        }
        _ => panic!("expected stacked layout"),
    }
}

#[test]
fn compact_layout_hides_peers_to_prioritize_pairing() {
    let area = Area { x: 0, y: 0, width: 72, height: 22 };
    match pairing_body_layout(area) {
        PairingBodyLayout::PairOnly { pair } => assert_eq!(pair, area),
        _ => panic!("expected pair-only layout"),
    }
}

#[test]
fn onboard_invalid_port_only_sets_the_error() {
    let mut app: App<u8> = App::new(TargetOs::Other, 0);
    app.start_onboard(0);
    app.handle_key_onboard(Key::Enter);
    assert_eq!(app.onboard.step, Step::ListenPort);
    app.onboard.public_url.set("https://h:1".into());
    app.onboard.port.set("x".into());
    assert_eq!(app.handle_key_onboard(Key::Enter), OnboardAction::Stay);
    assert_eq!(app.onboard.step, Step::ListenPort);
    assert_eq!(app.onboard.error.as_deref(), Some("端口无效（请输入 1..65535）"));
    assert_eq!(app.onboard.public_url.value(), "https://h:1");
    assert_eq!(app.onboard.language, UiLanguage::ZhCn);
    assert_eq!(app.onboard.port.value(), "x");
}

#[test]
fn onboard_fields_take_typed_keys() {
    let mut app: App<u8> = App::new(TargetOs::Other, 0);
    app.start_onboard(0);
    app.handle_key_onboard(Key::Enter);
    assert_eq!(app.handle_key_onboard(Key::Backspace), OnboardAction::Stay);
    assert_eq!(app.onboard.port.value(), "844");
    assert_eq!(app.handle_key_onboard(Key::Char('4')), OnboardAction::Stay);
    assert_eq!(app.onboard.port.value(), "8444");
    assert_eq!(app.handle_key_onboard(Key::Enter), OnboardAction::ConfirmPort);
    app.onboard.prepare_public_url(None);
    app.onboard.next_step();
    assert_eq!(app.onboard.step, Step::PublicUrl);
    app.handle_key_onboard(Key::Char('/'));
    assert_eq!(app.onboard.public_url.value(), "https://127.0.0.1:8444/");
    assert_eq!(app.onboard.port.value(), "8444");
}

#[test]
fn onboard_service_outcome_moves_on_or_shows_the_error() {
    let mut s = ttsync::tui::onboard::State::new(TargetOs::Other, 0);
    for _ in 0..6 {
        s.next_step();
    }
    assert_eq!(s.step, Step::ServiceMode);
    s.service_started(Err("no service".into()));
    assert_eq!(s.step, Step::ServiceMode);
    assert_eq!(s.error.as_deref(), Some("no service"));
    s.service_started(Ok(()));
    assert_eq!(s.step, Step::Done);
    assert_eq!(s.error, None);
}

#[test]
fn peers_permissions_overlay_names_the_selected_peer_and_its_preset() {
    let mut s = ttsync::tui::peers::State::new();
    s.refresh_with(vec![
        grant(A, "a", Permissions { read: true, write: false, mirror_delete: false }),
        grant(B, "b", Permissions { read: true, write: true, mirror_delete: true }),
    ]);
    s.next_peer();
    s.handle_key(Key::Char('p'));
    match &s.overlay {
        PeersOverlay::Permissions { device_id, menu } => {
            assert_eq!(device_id.as_str(), B);
            assert_eq!(*menu, 2);
        }
        other => panic!("expected permissions, got {other:?}"),
    }
    s.handle_key(Key::Esc);
    s.prev_peer();
    s.handle_key(Key::Enter);
    s.handle_key(Key::Enter);
    assert!(matches!(&s.overlay, PeersOverlay::Permissions { device_id, menu: 0 } if device_id.as_str() == A));
}

#[test]
fn keys_tabs_line_up_across_languages() {
    let z = keys_text(UiLanguage::ZhCn);
    let e = keys_text(UiLanguage::En);
    assert_eq!(z.len(), e.len());
    for (a, b) in z.iter().zip(e.iter()) {
        assert_eq!(a.is_empty(), b.is_empty());
        assert_eq!(a.starts_with("  "), b.starts_with("  "));
        if a.starts_with("  ") {
            assert!(a.chars().take(14).eq(b.chars().take(14)));
        }
    }
}

#[test]
fn serve_keys_wrap_through_the_actions() {
    let mut app: App<u8> = App::new(TargetOs::Linux, 0);
    app.start_serve();
    let n = actions(TargetOs::Linux, false, None).len();
    assert_eq!(app.handle_key_serve(Key::Up), None);
    assert_eq!(app.serve.menu, Some(n - 1));
    assert_eq!(app.handle_key_serve(Key::Down), None);
    assert_eq!(app.serve.menu, Some(0));
    app.serve.menu = Some(n + 1);
    app.handle_key_serve(Key::Down);
    assert_eq!(app.serve.menu, Some((n + 2) % n));
    app.serve.menu = Some(n + 1);
    app.handle_key_serve(Key::Up);
    assert_eq!(app.serve.menu, Some((n + 1 + n - 1) % n));
    assert_eq!(app.screen, Screen::Serve);
    assert!(!app.should_quit);
}

#[test]
fn onboard_layout_keys_only_move_the_layout() {
    let mut app: App<u8> = App::new(TargetOs::Other, 0);
    app.start_onboard(0);
    for _ in 0..3 {
        app.onboard.next_step();
    }
    assert_eq!(app.onboard.step, Step::LayoutMode);
    assert_eq!(app.handle_key_onboard(Key::Up), OnboardAction::Stay);
    assert_eq!(app.onboard.step, Step::LayoutMode);
    assert_eq!(app.onboard.layout_idx, 2);
    assert_eq!(app.onboard.port.value(), "8443");
    assert_eq!(app.onboard.error, None);
}

#[test]
fn peers_arrows_keep_the_overlay_and_error() {
    let mut s = ttsync::tui::peers::State::new();
    s.refresh_with(vec![
        grant(A, "a", Permissions { read: true, write: false, mirror_delete: false }),
        grant(B, "b", Permissions { read: true, write: true, mirror_delete: false }),
    ]);
    s.error = Some("old".into());
    assert_eq!(s.handle_key(Key::Up), PeersKeyAction::Stay);
    assert!(matches!(s.overlay, PeersOverlay::Closed));
    assert_eq!(s.selected, Some(1));
    assert_eq!(s.error.as_deref(), Some("old"));
}
