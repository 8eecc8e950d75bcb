use ttsync::engine::{
    failure_after_local_work, progress_event, pull_report, push_report, ClientSyncFailure,
    ClientSyncSummary, LocalChangeSummary, ProgressCounts, SyncDirection,
};
use ttsync::error::SyncError;
use ttsync::peer::Permissions;
use ttsync::sync::{SyncMode, SyncPhase};

fn io_text(e: &SyncError) -> String {
    match e {
        SyncError::Io(m) => m.clone(),
        _ => panic!("expected an io error"),
    }
}

fn rw() -> Permissions {
    Permissions { read: true, write: true, mirror_delete: false }
}

#[test]
fn failure_without_local_change_is_clean() {
    let f = ClientSyncFailure::without_local_change(SyncError::Io("disk".to_string()));
    assert_eq!(io_text(&f.error), "disk");
    assert!(!f.local_changed);
    assert_eq!(f.local_applied, LocalChangeSummary::default());
    assert!(f.granted_permissions.is_none());
}

#[test]
fn failure_records_granted_permissions() {
    let f = ClientSyncFailure::with_local_state(
        SyncError::Io("x".to_string()),
        LocalChangeSummary { files_written: 1, bytes_written: 3, files_deleted: 0 },
        true,
    )
    .with_permissions(rw());
    assert!(f.local_changed);
    assert_eq!(f.local_applied.files_written, 1);
    assert_eq!(f.granted_permissions, Some(rw()));
}

#[test]
fn failure_after_local_work_marks_change() {
    let none = LocalChangeSummary::default();
    assert!(!failure_after_local_work(SyncError::Io("a".to_string()), none, false).local_changed);
    assert!(failure_after_local_work(SyncError::Io("a".to_string()), none, true).local_changed);
    let deleted = LocalChangeSummary { files_written: 0, bytes_written: 0, files_deleted: 2 };
    assert!(failure_after_local_work(SyncError::Io("a".to_string()), deleted, false).local_changed);
}

#[test]
fn pull_report_counts_local_deletes() {
    let applied = LocalChangeSummary { files_written: 3, bytes_written: 30, files_deleted: 2 };
    let r = pull_report(3, 30, applied, rw());
    assert_eq!(r.summary, ClientSyncSummary { files_total: 3, bytes_total: 30, files_deleted: 2 });
    assert_eq!(r.local_applied, applied);
    assert_eq!(r.granted_permissions, rw());
}

#[test]
fn push_report_deletes_only_in_mirror_mode() {
    let r = push_report(4, 40, SyncMode::Mirror, 5, rw());
    assert_eq!(r.summary.files_deleted, 5);
    assert_eq!(r.local_applied, LocalChangeSummary::default());
    let r = push_report(4, 40, SyncMode::Incremental, 5, rw());
    assert_eq!(r.summary.files_deleted, 0);
}

#[test]
fn progress_event_copies_counts() {
    let p = progress_event(
        SyncDirection::Pull,
        SyncPhase::Downloading,
        ProgressCounts::new(1, 2, 10, 20),
        Some("a.json".to_string()),
    );
    assert_eq!(p.direction, SyncDirection::Pull);
    assert_eq!(p.phase, SyncPhase::Downloading);
    assert_eq!((p.files_done, p.files_total, p.bytes_done, p.bytes_total), (1, 2, 10, 20));
    assert_eq!(p.current_path.as_deref(), Some("a.json"));
}

use ttsync::engine::apply::{PullApplier, PullNext, PushApplier};

#[test]
fn pull_applier_counts_bundle_files_and_deletes() {
    let (mut a, p) = PullApplier::start(12, 120, SyncMode::Mirror, 2);
    assert_eq!((p.phase, p.files_done, p.files_total, p.bytes_total), (SyncPhase::Downloading, 0, 12, 120));
    let first = a.bundle_file_written(10, "f1".to_string()).unwrap();
    assert_eq!((first.files_done, first.bytes_done), (1, 10));
    assert_eq!(first.current_path.as_deref(), Some("f1"));
    for i in 2..10 {
        assert!(a.bundle_file_written(10, format!("f{i}")).is_none());
    }
    let tenth = a.bundle_file_written(10, "f10".to_string()).unwrap();
    assert_eq!(tenth.files_done, 10);
    assert!(a.bundle_file_written(10, "f11".to_string()).is_none());
    assert_eq!(a.bundle_file_written(10, "f12".to_string()).unwrap().bytes_done, 120);
    match a.transfers_done() {
        PullNext::Deleting(p) => assert_eq!((p.phase, p.files_done, p.files_total), (SyncPhase::Deleting, 0, 2)),
        PullNext::Finished(_) => panic!("mirror pull with deletions must delete"),
    }
    assert_eq!(a.file_deleted("old1".into()).unwrap().files_done, 1);
    assert_eq!(a.file_deleted("old2".into()).unwrap().files_done, 2);
    let s = a.summary();
    assert_eq!(s, LocalChangeSummary { files_written: 12, bytes_written: 120, files_deleted: 2 });
    let f = a.failure(SyncError::Io("late".into()), false);
    assert!(f.local_changed);
}

#[test]
fn pull_applier_finishes_without_deletes_in_incremental_mode() {
    let (mut a, _) = PullApplier::start(1, 5, SyncMode::Incremental, 3);
    a.record_write(5);
    match a.transfers_done() {
        PullNext::Finished(s) => assert_eq!(s, LocalChangeSummary { files_written: 1, bytes_written: 5, files_deleted: 0 }),
        PullNext::Deleting(_) => panic!("incremental pulls never delete"),
    }
    let (a, _) = PullApplier::start(0, 0, SyncMode::Mirror, 0);
    assert!(matches!(a.transfers_done(), PullNext::Finished(_)));
    assert!(!a.failure(SyncError::Io("x".into()), false).local_changed);
}

#[test]
fn push_applier_reports_deletions_around_commit() {
    let (mut a, p) = PushApplier::start(2, 30, SyncMode::Mirror, 4);
    assert_eq!((p.direction, p.phase, p.bytes_total), (SyncDirection::Push, SyncPhase::Uploading, 30));
    assert!(a.bundle_file_sent(10, "a".into()).is_some());
    assert_eq!(a.bundle_file_sent(20, "b".into()).unwrap().bytes_done, 30);
    assert_eq!(a.uploads_done().unwrap().files_total, 4);
    let done = a.committed(true).unwrap().unwrap();
    assert_eq!((done.files_done, done.files_total), (4, 4));
    let refused = a.committed(false).unwrap_err();
    assert!(!refused.local_changed);
    let (a, _) = PushApplier::start(1, 1, SyncMode::Incremental, 4);
    assert!(a.uploads_done().is_none());
    assert!(a.committed(true).unwrap().is_none());
}

#[test]
fn pull_writes_count_every_planned_file_and_byte() {
    let sizes = [3u64, 0, 7, 11];
    let total: u64 = sizes.iter().sum();
    let (mut a, _) = PullApplier::start(sizes.len(), total, SyncMode::Incremental, 0);
    for size in sizes {
        a.record_write(size);
    }
    let s = a.summary();
    assert_eq!(s.files_written, sizes.len());
    assert_eq!(s.bytes_written, total);
    assert_eq!(s.files_deleted, 0);
}
