use ttsync::bundle::{
    bundle_terminator, check_database_scope, encode_frame_header, u32_from_be, u32_to_be,
    BundleHeader, BundleReader, BundleWriteError, WorkspaceWriteError,
};
use ttsync::dataset::DatasetSelection;
use ttsync::engine::{
    applies_deletes, bundle_transport_for_status, commit_outcome, ensure_pull_allowed,
    ensure_push_allowed, is_zstd_encoding, push_files_deleted, relabel_dataset_error,
    should_emit_progress, total_bytes, uses_bundle, validate_options, BundleTransport,
    ClientSyncOptions, JoinOutcome, LocalChangeTracker, TransferScheduler,
};
use ttsync::error::SyncError;
use ttsync::manifest::ManifestEntryV2;
use ttsync::path::SyncPath;
use ttsync::peer::Permissions;
use ttsync::status::StatusResponse;
use ttsync::sync::SyncMode;

fn entry(path: &str, size: u64) -> ManifestEntryV2 {
    ManifestEntryV2 {
        path: SyncPath::new(path).unwrap(),
        size_bytes: size,
        modified_ms: 5,
        content_hash: None,
    }
}

fn invalid_data(e: SyncError) -> String {
    match e {
        SyncError::InvalidData(m) => m,
        other => panic!("expected invalid data, got {:?}", other),
    }
}

#[test]
fn frame_headers_are_big_endian_lengths() {
    assert_eq!(u32_to_be(0x01020304), vec![1, 2, 3, 4]);
    assert_eq!(u32_from_be(&[0, 0, 1, 0]), 256);
    assert_eq!(bundle_terminator(), vec![0, 0, 0, 0]);
    let header = encode_frame_header(&SyncPath::new("a/é").unwrap(), 4096).unwrap();
    assert_eq!(header, vec![0, 0, 0, 4, b'a', b'/', 0xC3, 0xA9]);
    let long = encode_frame_header(&SyncPath::new("abcdef").unwrap(), 3).unwrap_err();
    assert_eq!(invalid_data(long), "bundle path is too long to encode: 6 bytes");
}

#[test]
fn bundle_reader_takes_each_planned_file_once() {
    let mut reader = BundleReader::new(vec![entry("a.txt", 1), entry("b/c.txt", 2)], 4096);
    assert_eq!(reader.on_header(7).unwrap(), BundleHeader::Path(7));
    let first = reader.on_path(b"b/c.txt".to_vec()).unwrap();
    assert_eq!(first.size_bytes, 2);
    let again = reader.on_path(b"b/c.txt".to_vec()).unwrap_err();
    assert!(matches!(again.into_error(), SyncError::NotFound(m) if m == "bundle file not in plan: b/c.txt"));
    let early = reader.finish().unwrap_err();
    assert!(!early.target_changed());
    assert_eq!(invalid_data(early.into_error()), "bundle ended early: 1/2 files received");
    reader.on_path(b"a.txt".to_vec()).unwrap();
    assert_eq!(reader.on_header(0).unwrap(), BundleHeader::End);
    assert!(reader.finish().is_ok());
}

#[test]
fn bundle_reader_refuses_bad_paths() {
    let mut reader = BundleReader::new(vec![entry("a.txt", 1)], 8);
    assert_eq!(invalid_data(reader.on_header(9).unwrap_err().into_error()), "bundle path too long: 9 bytes");
    assert_eq!(invalid_data(reader.on_path(vec![0xff]).unwrap_err().into_error()), "bundle path is not UTF-8");
    assert_eq!(
        invalid_data(reader.on_path(b"/abs".to_vec()).unwrap_err().into_error()),
        "path must not start with '/'"
    );
}

#[test]
fn written_frames_read_back_in_plan_order() {
    let plan = vec![entry("x/1", 1), entry("x/2", 2), entry("y", 3)];
    let mut reader = BundleReader::new(plan.clone(), 64);
    for e in &plan {
        let header = encode_frame_header(&e.path, 64).unwrap();
        let len = u32_from_be(&header[..4]);
        assert_eq!(reader.on_header(len).unwrap(), BundleHeader::Path(len));
        let got = reader.on_path(header[4..].to_vec()).unwrap();
        assert_eq!(got.path, e.path);
    }
    assert_eq!(reader.on_header(u32_from_be(&bundle_terminator())).unwrap(), BundleHeader::End);
    assert!(reader.finish().is_ok());
}

#[test]
fn later_plan_entries_replace_earlier_ones() {
    let mut reader = BundleReader::new(vec![entry("a", 1), entry("a", 9)], 64);
    assert_eq!(reader.on_path(b"a".to_vec()).unwrap().size_bytes, 9);
    assert!(reader.finish().is_ok());
}

#[test]
fn write_errors_keep_whether_the_target_changed() {
    let changed = WorkspaceWriteError::changed(SyncError::Io("disk".into()));
    assert!(changed.target_changed());
    let wrapped = BundleWriteError::from_workspace(changed);
    assert!(wrapped.target_changed());
    let unchanged = BundleWriteError::unchanged(SyncError::Io("x".into()));
    assert!(!unchanged.target_changed());
    assert!(!WorkspaceWriteError::unchanged(SyncError::Io("y".into())).target_changed());
}

#[test]
fn database_datasets_are_refused() {
    assert!(check_database_scope(&vec!["default".to_string()], "database").is_ok());
    assert_eq!(
        invalid_data(check_database_scope(&vec!["default".to_string(), "database".to_string()], "database").unwrap_err()),
        "This storage does not support database synchronization"
    );
}

fn status(features: &[&str]) -> StatusResponse {
    StatusResponse {
        ok: true,
        protocol: "v2".into(),
        server: "tt-sync".into(),
        features: features.iter().map(|f| f.to_string()).collect(),
        dataset_policy_version: Some(1),
        supported_dataset_ids: vec![],
        supported_profile_ids: vec![],
        default_dataset_ids: vec![],
        device_id: None,
        device_name: None,
        spki_sha256: None,
    }
}

#[test]
fn transport_follows_peer_features() {
    assert_eq!(
        bundle_transport_for_status(&status(&["bundle_v1", "zstd_v1"]), "peer", true).unwrap(),
        BundleTransport { prefer_bundle: true, use_zstd: true }
    );
    assert_eq!(
        bundle_transport_for_status(&status(&["zstd_v1"]), "peer", false).unwrap(),
        BundleTransport { prefer_bundle: false, use_zstd: false }
    );
    assert_eq!(
        invalid_data(bundle_transport_for_status(&status(&[]), "Server", true).unwrap_err()),
        "Server does not support bundle_v1"
    );
    assert_eq!(
        invalid_data(bundle_transport_for_status(&status(&["bundle_v1"]), "Server", true).unwrap_err()),
        "Server does not support zstd_v1"
    );
    assert!(uses_bundle(BundleTransport { prefer_bundle: true, use_zstd: false }, 1));
    assert!(!uses_bundle(BundleTransport { prefer_bundle: true, use_zstd: false }, 0));
    assert!(is_zstd_encoding(Some("ZSTD")));
    assert!(!is_zstd_encoding(Some("gzip")));
    assert!(!is_zstd_encoding(None));
}

#[test]
fn permissions_gate_directions() {
    let ro = Permissions { read: true, write: false, mirror_delete: false };
    let rw = Permissions { read: true, write: true, mirror_delete: false };
    assert!(ensure_pull_allowed(ro, SyncMode::Incremental).is_ok());
    assert!(ensure_push_allowed(ro, SyncMode::Incremental).is_err());
    assert!(ensure_push_allowed(rw, SyncMode::Incremental).is_ok());
    assert!(ensure_push_allowed(rw, SyncMode::Mirror).is_err());
    assert!(applies_deletes(SyncMode::Mirror, 2));
    assert!(!applies_deletes(SyncMode::Incremental, 2));
    assert_eq!(push_files_deleted(SyncMode::Mirror, 3), 3);
    assert_eq!(push_files_deleted(SyncMode::Incremental, 3), 0);
}

#[test]
fn options_and_errors() {
    let mut options = ClientSyncOptions::new(SyncMode::Incremental, DatasetSelection::new(1, vec![]));
    assert!(validate_options(&options, Ok(())).is_ok());
    options.file_concurrency = 0;
    let f = validate_options(&options, Ok(())).unwrap_err();
    assert_eq!(invalid_data(f.error), "file_concurrency must be greater than 0");
    let relabeled = relabel_dataset_error(SyncError::InvalidData("TT-Sync server lacks x".into()), "Laptop");
    assert_eq!(invalid_data(relabeled), "Laptop lacks x");
    assert!(matches!(relabel_dataset_error(SyncError::Io("TT-Sync server".into()), "L"), SyncError::Io(m) if m == "TT-Sync server"));
    assert!(commit_outcome(true).is_ok());
}

#[test]
fn progress_is_reported_sparingly() {
    assert!(should_emit_progress(1, 100));
    assert!(should_emit_progress(10, 100));
    assert!(!should_emit_progress(11, 100));
    assert!(should_emit_progress(100, 100));
    assert_eq!(total_bytes(&vec![1, 2, 3]), 6);
}

#[test]
fn local_changes_are_counted() {
    let mut t = LocalChangeTracker::new();
    assert!(!t.summary().changed());
    t.record_write(10);
    t.record_write(5);
    t.record_delete();
    let s = t.summary();
    assert_eq!(s.files_written, 2);
    assert_eq!(s.bytes_written, 15);
    assert_eq!(s.files_deleted, 1);
    assert!(s.changed());
}

#[test]
fn scheduler_keeps_a_full_window() {
    let mut s = TransferScheduler::new(3, 2, false);
    assert_eq!(s.in_flight(), 2);
    let d = s.on_joined(JoinOutcome::Done(4));
    assert_eq!(d.spawn, Some(2));
    assert!(d.emit);
    let d = s.on_joined(JoinOutcome::Done(1));
    assert_eq!(d.spawn, None);
    let d = s.on_joined(JoinOutcome::Done(2));
    assert!(d.finished);
    assert_eq!(s.files_done(), 3);
    assert_eq!(s.bytes_done(), 7);

    let mut f = TransferScheduler::new(5, 2, true);
    let d = f.on_joined(JoinOutcome::Failed);
    assert!(d.record_error && d.abort);
    assert_eq!(d.spawn, None);
    let d = f.on_joined(JoinOutcome::Done(1));
    assert!(!d.emit && !d.record_error && d.finished);
    assert_eq!(f.files_done(), 0);
}

#[test]
fn scheduler_with_no_concurrency_starts_nothing() {
    let s = TransferScheduler::new(3, 0, false);
    assert_eq!(s.in_flight(), 0);
    assert_eq!(s.files_done(), 0);
}
