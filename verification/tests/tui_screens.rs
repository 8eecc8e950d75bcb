use ttsync::config::UiLanguage;
use ttsync::peer::{DeviceId, PeerGrant, Permissions};
use ttsync::tui::app::{App, PairingFlow, Screen};
use ttsync::tui::doctor::{
    check_config, check_identity, check_peers, check_state_dir, check_tls, check_workspace,
    CheckStatus, FileProbe, PeersProbe, WorkspaceProbe,
};
use ttsync::tui::help::HelpTab;
use ttsync::tui::keys::Key;
use ttsync::tui::onboard::{toggle_language, welcome_phrase_index, Step};
use ttsync::tui::pairing::Overlay as PairOverlay;
use ttsync::tui::peers::Overlay as PeersOverlay;
use ttsync::user_service::TargetOs;

const A: &str = "aaaaaaaa-0000-4000-8000-000000000001";
const B: &str = "bbbbbbbb-0000-4000-8000-000000000002";

fn grant(id: &str, name: &str, permissions: Permissions) -> PeerGrant {
    PeerGrant {
        device_id: DeviceId::new(id.to_string()).unwrap(),
        device_name: name.to_string(),
        public_key: vec![1],
        permissions,
        paired_at_ms: 1,
        last_sync_ms: None,
    }
}

#[test]
fn doctor_checks_one_by_one() {
    let c = check_state_dir(UiLanguage::En, false, "/s".into());
    assert_eq!((c.label, c.status), ("State dir", CheckStatus::Fail));
    assert_eq!(c.detail, "State dir does not exist; run Onboard first");
    let c = check_config(UiLanguage::ZhCn, FileProbe::Loaded("/c.toml".into()));
    assert_eq!((c.label, c.status, c.detail.as_str()), ("配置文件", CheckStatus::Pass, "/c.toml"));
    let c = check_identity(UiLanguage::En, FileProbe::Missing);
    assert_eq!(c.status, CheckStatus::Warn);
    assert_eq!(c.detail, "identity.json missing (Onboard will create it)");
    let c = check_identity(UiLanguage::En, FileProbe::Failed("broken".into()));
    assert_eq!((c.status, c.detail.as_str()), (CheckStatus::Fail, "broken"));
    let c = check_tls(UiLanguage::En, Err("no cert".into()));
    assert_eq!((c.label, c.status, c.detail.as_str()), ("TLS cert", CheckStatus::Fail, "no cert"));
    let c = check_peers(UiLanguage::ZhCn, PeersProbe::Counted(0));
    assert_eq!((c.status, c.detail.as_str()), (CheckStatus::Pass, "0 台设备"));
    let c = check_peers(UiLanguage::En, PeersProbe::Missing);
    assert_eq!(c.detail, "No peers yet (peers.json not created)");
    let c = check_workspace(UiLanguage::En, WorkspaceProbe::ConfigMissing);
    assert_eq!((c.label, c.status, c.detail.as_str()), ("Workspace", CheckStatus::Warn, "Config missing, skipped"));
    let c = check_workspace(UiLanguage::En, WorkspaceProbe::ConfigFailed("e".into()));
    assert_eq!(c.status, CheckStatus::Fail);
}

#[test]
fn app_screens_open_and_close() {
    let mut app: App<()> = App::new(TargetOs::Other, 0);
    app.start_doctor();
    assert_eq!(app.screen, Screen::Doctor);
    assert!(app.doctor.checks.is_empty());
    app.start_help();
    assert_eq!(app.screen, Screen::Help);
    assert_eq!(app.help.tab, HelpTab::About);
    app.start_peers();
    assert_eq!(app.screen, Screen::Peers);
    assert!(app.peers.peers.is_empty());
    app.start_serve();
    assert_eq!(app.screen, Screen::Serve);
    assert_eq!(app.serve.menu, Some(0));
    app.go_home();
    assert_eq!(app.screen, Screen::MainMenu);
    app.start_pairing(PairingFlow::Onboard);
    app.leave_pairing();
    assert_eq!(app.screen, Screen::Onboard);
    app.start_pairing(PairingFlow::MainMenu);
    app.leave_pairing();
    assert_eq!(app.screen, Screen::MainMenu);
}

#[test]
fn onboard_steps_back_and_language_toggles() {
    assert_eq!(toggle_language(UiLanguage::ZhCn), UiLanguage::En);
    assert_eq!(toggle_language(UiLanguage::En), UiLanguage::ZhCn);
    assert_eq!(welcome_phrase_index(123_456_789), 789);
    let mut s = ttsync::tui::onboard::State::new(TargetOs::Linux, 0);
    assert_eq!(s.step, Step::WelcomeLanguage);
    s.prev_step();
    assert_eq!(s.step, Step::WelcomeLanguage);
    s.next_step();
    assert_eq!(s.step, Step::ListenPort);
    s.prev_step();
    assert_eq!(s.step, Step::WelcomeLanguage);
}

#[test]
fn pairing_overlay_menus_move_and_wrap() {
    let mut s = ttsync::tui::pairing::State::new();
    assert!(!s.move_in_overlay(Key::Down));
    s.open_permissions_overlay(DeviceId::new(A.to_string()).unwrap());
    assert!(matches!(&s.overlay, PairOverlay::Permissions { menu: 1, .. }));
    assert!(s.move_in_overlay(Key::Down));
    assert!(s.move_in_overlay(Key::Down));
    assert!(matches!(&s.overlay, PairOverlay::Permissions { menu: 0, .. }));
    assert!(!s.move_in_overlay(Key::Left));
    assert!(s.move_in_overlay(Key::Up));
    assert!(matches!(&s.overlay, PairOverlay::Permissions { menu: 2, .. }));
    s.open_continue_overlay();
    assert!(s.move_in_overlay(Key::Left));
    assert_eq!(s.overlay_selected_continue(), Some(false));
    assert!(!s.move_in_overlay(Key::Enter));
}

#[test]
fn peers_overlays_open_on_selected_peer() {
    let rw = Permissions { read: true, write: true, mirror_delete: false };
    let ro = Permissions { read: true, write: false, mirror_delete: false };
    let mut s = ttsync::tui::peers::State::new();
    assert!(s.selected_peer().is_none());
    s.open_actions_overlay();
    assert!(matches!(s.overlay, PeersOverlay::Closed));
    s.refresh_with(vec![grant(A, "a", rw), grant(B, "b", ro)]);
    assert_eq!(s.selected_peer().unwrap().device_name, "a");
    s.open_actions_overlay();
    assert!(matches!(s.overlay, PeersOverlay::Actions { menu: 0 }));
    s.open_permissions_overlay(DeviceId::new(B.to_string()).unwrap());
    assert!(matches!(&s.overlay, PeersOverlay::Permissions { menu: 0, .. }));
    s.open_revoke_overlay(DeviceId::new(A.to_string()).unwrap());
    assert!(matches!(&s.overlay, PeersOverlay::RevokeConfirm { menu: 0, .. }));
}
