use ttsync::config::{CliError, LayoutMode, MountPaths};
use ttsync::output::Style;
use ttsync::peer::Permissions;
use ttsync::reports::{
    already_initialized, cert_show_report, doctor_report, error_report, init_report, no_peers_report,
    not_a_directory, pair_open_report, peers_header, revoke_report, rotate_report, serve_report,
    shutdown_report, tls_key_missing, ConfigFacts, DoctorFacts, PeersFileFacts, ServeFacts, TlsFacts,
};

fn mounts() -> MountPaths {
    MountPaths {
        data_root: "/w/data".into(),
        default_user_root: "/w/data/default-user".into(),
        extensions_root: "/w/data/extensions".into(),
    }
}

fn config_text(e: CliError) -> String {
    match e {
        CliError::Config(m) => m,
        _ => panic!("expected a config error"),
    }
}

#[test]
fn init_report_lists_the_instance() {
    let s = Style::new(false);
    let v = init_report(&s, "/state", "/w", "tauritavern", &mounts(), "https://h:8443", "0.0.0.0:8443", "id-1", "PIN");
    assert_eq!(v.len(), 18);
    assert_eq!(v[1], "  ✓ TT-Sync initialized");
    assert_eq!(v[3], "  State dir        /state");
    assert_eq!(v[8], "  Extensions root  /w/data/extensions");
    assert_eq!(v[12], "  SPKI SHA-256     PIN");
    assert_eq!(v[15], "    $ tt-sync serve");
    let colored = init_report(&Style::new(true), "/s", "/w", "x", &mounts(), "u", "l", "i", "p");
    assert_eq!(colored[1], "  \x1b[1;32m✓\x1b[0m TT-Sync initialized");
    assert_eq!(
        config_text(already_initialized("/c/config.toml")),
        "already initialized (config exists at /c/config.toml). Remove config.toml to re-initialize."
    );
    assert_eq!(config_text(not_a_directory("/nope")), "workspace path is not a directory: /nope");
}

#[test]
fn serve_and_pairing_reports() {
    let s = Style::new(false);
    let f = ServeFacts {
        listen: "0.0.0.0:8443".into(),
        public_url: "https://h".into(),
        device_name: "box".into(),
        device_id: "id".into(),
        workspace_path: "/w".into(),
        layout: LayoutMode::SillyTavernDocker,
        mounts: mounts(),
        spki_sha256: "PIN".into(),
        state_dir: "/s".into(),
    };
    let v = serve_report(&s, &f);
    assert_eq!(v[1], "  ▶ TT-Sync server running");
    assert_eq!(v[8], "  Layout           SillyTavernDocker");
    assert_eq!(v[12], "  TLS              self-managed (SPKI pin)");
    assert_eq!(v[16], "  Press Ctrl+C to stop.");
    assert_eq!(shutdown_report(&s), vec!["".to_string(), "  • Shutting down...".to_string()]);

    let p = Permissions { read: true, write: false, mirror_delete: false };
    let v = pair_open_report(&s, "tauritavern://x", "soon", p, "PIN");
    assert_eq!(v[3], "  Pair URI      tauritavern://x");
    assert_eq!(v[5], "  Read          yes");
    assert_eq!(v[6], "  Write         no");
    assert_eq!(v[10], "  Paste the Pair URI into TauriTavern to complete pairing.");
}

#[test]
fn peer_and_cert_reports() {
    let s = Style::new(false);
    assert_eq!(peers_header(), vec!["Device ID", "Name", "Permissions", "Paired", "Last Sync"]);
    assert_eq!(no_peers_report(&s)[1], "  • No paired peers.");
    let v = revoke_report(&s, "phone", "aaaaaaaa-0000-4000-8000-000000000001");
    assert_eq!(v[1], "  ✓ Revoked peer phone (aaaaaaaa-000…)");
    let v = cert_show_report(&s, "PIN", "/s/tls/key.pem", "/s/tls/cert.pem");
    assert_eq!(v[1], "  TLS Certificate");
    assert_eq!(v[6], "  Mode          self-managed");
    assert_eq!(config_text(tls_key_missing()), "TLS key not found. Run `tt-sync init` first.");
    let v = rotate_report(&s, "PIN");
    assert_eq!(v[5], "  SPKI pin is unchanged — existing paired clients remain valid.");
    assert_eq!(error_report(&s, "boom"), "error: boom");
    assert_eq!(error_report(&Style::new(true), "boom"), "\x1b[1;31merror:\x1b[0m boom");
}

#[test]
fn doctor_report_stops_without_state_dir() {
    let s = Style::new(false);
    let v = doctor_report(&s, "/missing", &None);
    assert_eq!(
        v,
        vec![
            "",
            "  TT-Sync Doctor",
            "",
            "  ✗ State directory missing: /missing",
            "  ! Run `tt-sync init` to initialize.",
            "",
        ]
    );
}

#[test]
fn doctor_report_walks_every_check() {
    let s = Style::new(false);
    let facts = DoctorFacts {
        config: Ok(ConfigFacts {
            layout: LayoutMode::TauriTavern,
            workspace_path: "/w".into(),
            mounts: Err("no data dir".into()),
            listen: "0.0.0.0:1".into(),
            listen_check: Ok(()),
        }),
        identity: Ok(("box".into(), "aaaaaaaa-0000-4000-8000-000000000001".into())),
        tls: Ok(TlsFacts { spki_sha256: "PIN".into(), server_config: Err("bad key".into()) }),
        peers: PeersFileFacts::Parsed(2),
    };
    let v = doctor_report(&s, "/s", &Some(facts));
    assert_eq!(
        v,
        vec![
            "",
            "  TT-Sync Doctor",
            "",
            "  ✓ State directory exists: /s",
            "  ✓ config.toml loaded",
            "  ✓ Layout: TauriTavern",
            "  ✓ Workspace path: /w",
            "  ✗ Mount derivation failed: no data dir",
            "  ✓ Listen address valid: 0.0.0.0:1",
            "  ✓ Identity: box (aaaaaaaa-000…)",
            "  ✓ TLS certificate loaded (SPKI: PIN)",
            "  ✗ TLS server config failed: bad key",
            "  ✓ 2 paired peer(s)",
            "",
        ]
    );
    let facts = DoctorFacts {
        config: Err("missing".into()),
        identity: Err("gone".into()),
        tls: Err("no tls".into()),
        peers: PeersFileFacts::Missing,
    };
    let v = doctor_report(&s, "/s", &Some(facts));
    assert_eq!(v[4], "  ✗ config.toml: missing");
    assert_eq!(v[5], "  ✗ identity.json: gone");
    assert_eq!(v[6], "  ✗ TLS: no tls");
    assert_eq!(v[7], "  ✓ No peers.json (0 paired peers)");
}
