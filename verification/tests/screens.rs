use ttsync::config::UiLanguage;
use ttsync::peer::{DeviceId, PeerGrant, Permissions};
use ttsync::tui::app::{MainMenuState, PairingFlow};
use ttsync::tui::doctor::{DoctorProbes, FileProbe, PeersProbe, WorkspaceProbe};
use ttsync::tui::help::HelpTab;
use ttsync::tui::onboard::{ServiceMode, Step};
use ttsync::tui::screens::onboard::{
    layout_detail, render_footer as onboard_footer, render_header as onboard_header, render_step_done,
    render_step_language, render_step_layout, render_step_pair_now, render_step_port,
    render_step_public_url, render_step_service_mode, render_step_workspace,
};
use ttsync::tui::screens::pairing::{
    clipboard_status_line, pair_card_plan, qr_title, render_footer as pairing_footer,
    render_header as pairing_header, render_overlay as pairing_overlay, render_pair_fallback,
    render_pair_info, render_peers as pairing_peers, CardPlan, ClipboardStatus,
};
use ttsync::tui::screens::peers::{render as peers_render, PeerList};
use ttsync::tui::screens::serve::{render as serve_render, RunningInfo};
use ttsync::tui::screens::{doctor, help, main_menu};
use ttsync::tui::view::{Line, Panel, Tone};
use ttsync::user_service::{TargetOs, UserServiceManager};
use ttsync::config::{LayoutMode, MountPaths};

const A: &str = "aaaaaaaa-0000-4000-8000-000000000001";

fn text(l: &Line) -> String {
    l.spans.iter().map(|s| s.text.as_str()).collect()
}

fn texts(p: &Panel) -> Vec<String> {
    p.lines.iter().map(text).collect()
}

fn grant(id: &str, name: &str, permissions: Permissions, last: Option<u64>) -> PeerGrant {
    PeerGrant {
        device_id: DeviceId::new(id.to_string()).unwrap(),
        device_name: name.to_string(),
        public_key: vec![1],
        permissions,
        paired_at_ms: u64::MAX,
        last_sync_ms: last,
    }
}

#[test]
fn onboard_header_shows_progress() {
    let h = onboard_header(UiLanguage::En, Step::ListenPort);
    assert_eq!(text(&h), "TT-Sync  │  Onboard  ━●────────  2/10");
    assert_eq!(h.spans[0].tone, Tone::Brand);
    assert_eq!(h.spans[4].tone, Tone::Selected);
    assert_eq!(h.spans[6].tone, Tone::Hint);
    let h = onboard_header(UiLanguage::ZhCn, Step::ServiceMode);
    assert_eq!(text(&h), "TT-Sync  │  Onboard（引导设置）  ━━━━━━━━●─  9/10");
    let h = onboard_header(UiLanguage::En, Step::Done);
    assert!(text(&h).ends_with("━━━━━━━━━●  10/10"));
}

#[test]
fn onboard_steps_show_their_texts() {
    let mut s = ttsync::tui::onboard::State::new(TargetOs::Linux, 6);
    let v = render_step_language(&s);
    assert_eq!(v.logo.len(), 6);
    assert_eq!(text(&v.intro[1]), "准备好了吗？让我们开始吧。");
    assert_eq!(texts(&v.languages), vec!["● 中文    ○ English"]);
    s.language = UiLanguage::En;
    s.welcome_phrase_idx = 3;
    let v = render_step_language(&s);
    assert_eq!(text(&v.intro[1]), "You're safe here. I'll look after you. --Seraphina");
    assert_eq!(texts(&v.languages), vec!["○ 中文    ● English"]);

    let v = render_step_port(&s);
    assert_eq!(v.input.title, "Listen Port (Enter to continue)");
    assert_eq!(texts(&v.input).len(), 1);
    assert_eq!(v.help.lines.len(), 4);
    s.error = Some("bad port".into());
    let v = render_step_port(&s);
    assert_eq!(texts(&v.help)[5], "bad port");
    assert_eq!(v.help.lines[5].spans[0].tone, Tone::Error);
    s.error = None;

    let v = render_step_public_url(&s);
    assert_eq!(v.input.title, "Public URL");
    assert_eq!(texts(&v.info)[4], "No online public-IP lookup is performed.");

    s.layout_idx = 1;
    let v = render_step_layout(&s);
    assert_eq!(
        texts(&v.list),
        vec![
            "○ tauritavern — TauriTavern data/",
            "● sillytavern — SillyTavern repo layout",
            "○ sillytavern-docker — SillyTavern docker volume",
        ]
    );
    assert_eq!(v.selected, 1);
    assert_eq!(texts(&v.detail)[0], "sillytavern");
    assert_eq!(layout_detail(UiLanguage::En, LayoutMode::SillyTavernDocker).len(), 8);

    let mounts = Some(MountPaths {
        data_root: "/w/data".into(),
        default_user_root: "/w/data/default-user".into(),
        extensions_root: "/w/public/scripts/extensions/third-party".into(),
    });
    let v = render_step_workspace(&s, &mounts, "/etc/tt/config.toml");
    assert_eq!(v.input.title, "Workspace Path (Enter to detect)");
    let info = texts(&v.help);
    assert_eq!(info[2], "layout: SillyTavern");
    assert_eq!(info[4], "✓ data root      : /w/data");
    assert_eq!(info[9], "/etc/tt/config.toml");
    let v = render_step_workspace(&s, &None, "/c");
    assert_eq!(texts(&v.help)[4], "Not detected yet. Enter a path and press Enter.");

    let v = render_step_pair_now(&s);
    assert_eq!(texts(&v.choice)[4], "● Pair now (recommended)    ○ Not now");
    s.pair_now = false;
    let v = render_step_pair_now(&s);
    assert_eq!(texts(&v.choice)[4], "○ Pair now (recommended)    ● Not now");

    let v = render_step_service_mode(&s, Some(UserServiceManager::SystemdUser), "/w", "/c");
    let choice = texts(&v.choice);
    assert_eq!(choice[4], "● Install as systemd user service (recommended)");
    assert_eq!(choice[6], "○ Run in this terminal (no service)");
    assert_eq!(texts(&v.notes)[6], "Sync folder: /w");
    let v = render_step_service_mode(&s, None, "/w", "/c");
    assert_eq!(texts(&v.choice)[4], "● Run in this terminal (systemd not supported)");
    assert_eq!(v.choice.lines.len(), 5);

    let p = render_step_done(&s, Some(UserServiceManager::SystemdUser), "/w", "/c");
    assert_eq!(texts(&p)[5], "mode  : systemd user service");
    s.service_mode = ServiceMode::Foreground;
    let p = render_step_done(&s, None, "/w", "/c");
    assert_eq!(texts(&p)[5], "mode  : In-process");
    assert_eq!(p.title, "Onboard completed");

    assert_eq!(onboard_footer(UiLanguage::En, Step::WorkspacePath, true), "Enter write  Esc edit  q quit");
    assert_eq!(onboard_footer(UiLanguage::ZhCn, Step::Done, false), "Enter 返回主菜单  Esc 返回  q 退出");
}

#[test]
fn main_menu_marks_selection_and_status() {
    let menu = MainMenuState::new();
    let v = main_menu::render(UiLanguage::En, &menu, false, true, "/w", "/c");
    assert_eq!(text(&v.header), "TT-Sync  │  ● Initialized");
    assert_eq!(v.header.spans[2].tone, Tone::Warning);
    let items = texts(&v.menu);
    assert_eq!(items.len(), 7);
    assert_eq!(items[0], "● Onboard (Guided setup)");
    assert_eq!(items[6], "○ Exit");
    assert_eq!(texts(&v.info)[5], "Server: stopped");
    assert_eq!(texts(&v.info)[7], "Config: /c");
    let v = main_menu::render(UiLanguage::ZhCn, &menu, true, true, "/w", "/c");
    assert_eq!(text(&v.header), "TT-Sync  │  ● Serving");
    assert_eq!(texts(&v.info)[5], "服务: 运行中");
}

#[test]
fn serve_screen_keeps_selection_in_range() {
    let mut s = ttsync::tui::serve::State::new();
    s.menu = Some(9);
    s.user_service_active = Some(true);
    let v = serve_render(&mut s, UiLanguage::En, TargetOs::Linux, &None, true, "/w", "/c");
    assert_eq!(v.selected, 2);
    assert_eq!(s.menu, Some(2));
    assert_eq!(
        texts(&v.actions),
        vec![
            "○ Start server (in-process)",
            "○ Install systemd --user service (and start now)",
            "● Stop systemd --user service",
        ]
    );
    assert_eq!(text(&v.header), "TT-Sync  │  Serve  │  Running");
    let info = texts(&v.info);
    assert_eq!(info[2], "● Server started.");
    assert_eq!(info[8], "systemd");
    assert_eq!(info[9], "status: active");
    assert_eq!(info[10], "After install, check status with `systemctl --user status tt-sync.service`.");

    let server = Some(RunningInfo {
        listen: "0.0.0.0:8443".into(),
        public_url: "https://h:8443".into(),
        device_name: "box".into(),
        device_id: A.into(),
        spki_sha256: "AB".into(),
    });
    let mut s = ttsync::tui::serve::State::new();
    s.error = Some("boom".into());
    let v = serve_render(&mut s, UiLanguage::En, TargetOs::Other, &server, false, "/w", "/c");
    let info = texts(&v.info);
    assert_eq!(info[2], "Not initialized (config.toml not found). Run Onboard first.");
    assert_eq!(info[4], "listen: 0.0.0.0:8443");
    assert_eq!(info[8], "spki  : AB");
    assert_eq!(info.last().unwrap(), "boom");
    assert_eq!(texts(&v.actions), vec!["● Stop server (in-process)"]);
}

#[test]
fn doctor_and_help_views() {
    let mut s = ttsync::tui::doctor::State::new();
    let v = doctor::render(&s, UiLanguage::En);
    assert_eq!(texts(&v.body), vec!["Loading…"]);
    s.run(
        UiLanguage::En,
        DoctorProbes {
            state_dir_is_dir: true,
            state_dir_display: "/s".into(),
            config: FileProbe::Missing,
            identity: FileProbe::Missing,
            tls: Ok("X".into()),
            peers: PeersProbe::Missing,
            workspace: WorkspaceProbe::ConfigMissing,
        },
    );
    let v = doctor::render(&s, UiLanguage::En);
    let body = texts(&v.body);
    assert_eq!(body.len(), 18);
    assert_eq!(body[0], " ✓ State dir");
    assert_eq!(body[1], "     /s");
    assert_eq!(body[2], "");
    assert_eq!(body[3], " ✗ Config");
    assert_eq!(body[6], " ! Identity");
    assert_eq!(v.body.lines[3].spans[0].tone, Tone::Error);

    let mut h = ttsync::tui::help::State::new();
    h.tab = HelpTab::Keys;
    let v = help::render(&h, UiLanguage::En);
    assert_eq!(v.tabs, vec!["About", "Keys", "Deploy Tips"]);
    assert_eq!(v.selected, 1);
    assert_eq!(v.content.title, "Keys");
    assert_eq!(text(&v.header), "TT-Sync  │  Help / About");
}

#[test]
fn peers_screen_lists_and_details() {
    let rw = Permissions { read: true, write: true, mirror_delete: false };
    let mut s = ttsync::tui::peers::State::new();
    let v = peers_render(&s, UiLanguage::En, "/w", "/c");
    match &v.list {
        PeerList::Empty(p) => assert_eq!(texts(p)[0], "No paired peers yet."),
        _ => panic!("expected the empty note"),
    }
    assert_eq!(texts(&v.detail)[2], "No peer selected.");
    s.refresh_with(vec![grant(A, "phone", rw, None)]);
    let v = peers_render(&s, UiLanguage::En, "/w", "/c");
    match &v.list {
        PeerList::Table { rows, header, selected, .. } => {
            assert_eq!(header[3], "Last Sync");
            assert_eq!(rows[0], vec!["phone", "aaaaaaaa-000…", "RW-", "never"]);
            assert_eq!(*selected, Some(0));
        }
        _ => panic!("expected a table"),
    }
    let d = texts(&v.detail);
    assert_eq!(d[2], "Name: phone");
    assert_eq!(d[4], "Perms: RW-");
    assert_eq!(d[5], "Paired: 18446744073709551615");
    assert_eq!(d[6], "Last sync: never");
    assert!(v.overlay.is_none());
    s.open_revoke_overlay(DeviceId::new(A.to_string()).unwrap());
    let v = peers_render(&s, UiLanguage::En, "/w", "/c");
    let o = v.overlay.unwrap();
    assert_eq!(o.menu.title, "Confirm revoke? aaaaaaaa-000…");
    assert_eq!(texts(&o.menu), vec!["● Cancel", "○ Revoke (irreversible)"]);
    assert_eq!(o.highlight, Tone::Error);
    assert_eq!((o.width_percent, o.height_percent), (70, 30));
    assert_eq!(v.hint, "←→ choose  Enter confirm  Esc cancel");
    s.open_permissions_overlay(DeviceId::new(A.to_string()).unwrap());
    let o = peers_render(&s, UiLanguage::En, "/w", "/c").overlay.unwrap();
    assert_eq!(texts(&o.menu), vec!["○ Read only", "● Read + Write", "○ Read + Write + Allow mirror delete"]);
    assert_eq!(texts(o.note.as_ref().unwrap())[0], format!("Device: {A}"));
}

#[test]
fn pairing_screen_plans_its_card() {
    let mut s = ttsync::tui::pairing::State::new();
    assert_eq!(pair_card_plan(&s, 80, 30), CardPlan::InfoOnly);
    s.qr = Some("ab\ncd".into());
    assert_eq!(pair_card_plan(&s, 4, 11), CardPlan::QrWithInfo { qr_height: 4 });
    assert_eq!(pair_card_plan(&s, 4, 10), CardPlan::QrOnly);
    assert_eq!(pair_card_plan(&s, 3, 10), CardPlan::Fallback);
    assert_eq!(
        text(&pairing_header(UiLanguage::En, PairingFlow::Onboard)),
        "TT-Sync  │  Onboard: Pairing  Step 7/10"
    );
    let info = render_pair_info(&s, UiLanguage::En, PairingFlow::MainMenu, &None);
    let lines = texts(&info);
    assert_eq!(lines[0], "The pair link will be copied to clipboard after generation.");
    assert_eq!(lines[4], "(not generated yet)");
    s.pair_uri = Some("tauritavern://tt-sync/pair?v=2".into());
    let fb = render_pair_fallback(&s, UiLanguage::En, &Some(ClipboardStatus::Copied));
    assert_eq!(texts(&fb)[4], "tauritavern://tt-sync/pair?v=2");
    let l = clipboard_status_line(&Some(ClipboardStatus::Failed("no display".into())), UiLanguage::En);
    assert_eq!(text(&l), "! Could not write to clipboard; copy the link below manually. (no display)");
    assert_eq!(qr_title(&Some(ClipboardStatus::Copied), UiLanguage::En), "QR · link copied");
    assert_eq!(pairing_footer(&s, UiLanguage::En, PairingFlow::Onboard), "r refresh  Esc next  q quit");

    let rw = Permissions { read: true, write: true, mirror_delete: false };
    s.peers = vec![grant(A, "tablet", rw, None)];
    let t = pairing_peers(&s, UiLanguage::En);
    assert_eq!(t.rows[0], vec!["tablet", A, "RW-"]);
    s.open_permissions_overlay(DeviceId::new(A.to_string()).unwrap());
    let o = pairing_overlay(&s, UiLanguage::En, PairingFlow::MainMenu).unwrap();
    assert!(o.backdrop);
    assert_eq!(texts(o.note.as_ref().unwrap())[0], format!("Device: tablet ({A})"));
    s.open_continue_overlay();
    let o = pairing_overlay(&s, UiLanguage::En, PairingFlow::Onboard).unwrap();
    assert_eq!(texts(&o.menu), vec!["● Pair another device (recommended)", "○ Next step"]);
}
