use vstd::prelude::*;

use crate::engine::{
    commit_outcome, failure_after_local_work, progress_event, should_emit, should_emit_progress,
    wrapping_add_u64, wrapping_inc, ClientSyncFailure, LocalChangeSummary, LocalChangeTracker, ProgressCounts,
    SyncDirection, SyncProgress,
};
use crate::error::SyncError;
use crate::sync::{SyncMode, SyncPhase};

verus! {

/// The view of an optional text.
pub open spec fn opt_text(o: Option<String>) -> Option<Seq<char>> {
    match o {
        Some(s) => Some(s@),
        None => None,
    }
}

/// A progress event with these values.
pub open spec fn progress_is(
    p: SyncProgress,
    direction: SyncDirection,
    phase: SyncPhase,
    files_done: nat,
    files_total: nat,
    bytes_done: nat,
    bytes_total: nat,
    path: Option<Seq<char>>,
) -> bool {
    &&& p.direction == direction
    &&& p.phase == phase
    &&& p.files_done == files_done
    &&& p.files_total == files_total
    &&& p.bytes_done == bytes_done
    &&& p.bytes_total == bytes_total
    &&& opt_text(p.current_path) == path
}

/// The local changes after one more file of `size` bytes was written.
pub open spec fn written_once(s: LocalChangeSummary, size: u64) -> LocalChangeSummary {
    LocalChangeSummary {
        files_written: wrapping_inc(s.files_written),
        bytes_written: wrapping_add_u64(s.bytes_written, size),
        files_deleted: s.files_deleted,
    }
}

/// The local changes after files of these sizes were written in order,
/// starting from `s`.
pub open spec fn after_writes(s: LocalChangeSummary, sizes: Seq<u64>) -> LocalChangeSummary
    decreases sizes.len(),
{
    if sizes.len() == 0 {
        s
    } else {
        written_once(after_writes(s, sizes.drop_last()), sizes.last())
    }
}

/// The sum of these sizes.
pub open spec fn sizes_sum(sizes: Seq<u64>) -> nat
    decreases sizes.len(),
{
    if sizes.len() == 0 {
        0
    } else {
        sizes_sum(sizes.drop_last()) + sizes.last() as nat
    }
}

/// Writing each planned file once, from the start of a pull where nothing was
/// written, counts every file and every byte of the plan as written, when
/// the counts fit their integers.
pub proof fn lemma_pull_writes_counted(sizes: Seq<u64>)
    requires
        sizes.len() <= usize::MAX,
        sizes_sum(sizes) <= u64::MAX,
    ensures
        after_writes(LocalChangeSummary { files_written: 0, bytes_written: 0, files_deleted: 0 }, sizes)
            == (LocalChangeSummary {
            files_written: sizes.len() as usize,
            bytes_written: sizes_sum(sizes) as u64,
            files_deleted: 0,
        }),
    decreases sizes.len(),
{
    if sizes.len() > 0 {
        lemma_pull_writes_counted(sizes.drop_last());
    }
}

/// What follows the transfers of a pull.
#[derive(Debug, Clone)]
pub enum PullNext {
    /// The pull is over; what it changed.
    Finished(LocalChangeSummary),
    /// Deletions follow: report their start, then delete the planned paths
    /// in order.
    Deleting(SyncProgress),
}

/// Applies a pull plan step by step, as its transfers and deletions end: it
/// counts what was done, says when progress is to be reported, and what is
/// left to do. Transfers come first; deletions follow in mirror mode only.
#[derive(Debug)]
pub struct PullApplier {
    files_total: usize,
    bytes_total: u64,
    files_done: usize,
    bytes_done: u64,
    delete_total: usize,
    deleted: usize,
    mirror: bool,
    tracker: LocalChangeTracker,
}

impl PullApplier {
    pub closed spec fn files_total(&self) -> nat {
        self.files_total as nat
    }

    pub closed spec fn bytes_total(&self) -> nat {
        self.bytes_total as nat
    }

    /// The files of the bundle written so far.
    pub closed spec fn files_done(&self) -> nat {
        self.files_done as nat
    }

    pub closed spec fn bytes_done(&self) -> nat {
        self.bytes_done as nat
    }

    pub closed spec fn delete_total(&self) -> nat {
        self.delete_total as nat
    }

    /// The planned deletions done so far.
    pub closed spec fn deleted(&self) -> nat {
        self.deleted as nat
    }

    pub closed spec fn mirror(&self) -> bool {
        self.mirror
    }

    /// What changed locally so far.
    pub closed spec fn applied(&self) -> LocalChangeSummary {
        self.tracker.counts()
    }

    pub closed spec fn wf(&self) -> bool {
        &&& self.files_done <= self.files_total
        &&& self.bytes_done <= self.bytes_total
        &&& self.deleted <= self.delete_total
        &&& self.tracker.counts().files_deleted == self.deleted
    }

    /// Starts applying a plan of `files_total` transfers of `bytes_total`
    /// bytes and `delete_total` deletions; the download phase is reported at
    /// once.
    pub fn start(files_total: usize, bytes_total: u64, mode: SyncMode, delete_total: usize) -> (r: (
        Self,
        SyncProgress,
    ))
        ensures
            r.0.wf(),
            r.0.files_total() == files_total,
            r.0.bytes_total() == bytes_total,
            r.0.delete_total() == delete_total,
            r.0.mirror() == (mode == SyncMode::Mirror),
            r.0.files_done() == 0,
            r.0.bytes_done() == 0,
            r.0.deleted() == 0,
            r.0.applied() == (LocalChangeSummary { files_written: 0, bytes_written: 0, files_deleted: 0 }),
            progress_is(
                r.1,
                SyncDirection::Pull,
                SyncPhase::Downloading,
                0,
                files_total as nat,
                0,
                bytes_total as nat,
                None,
            ),
    {
        let a = PullApplier {
            files_total,
            bytes_total,
            files_done: 0,
            bytes_done: 0,
            delete_total,
            deleted: 0,
            mirror: mode == SyncMode::Mirror,
            tracker: LocalChangeTracker::new(),
        };
        let p = progress_event(
            SyncDirection::Pull,
            SyncPhase::Downloading,
            ProgressCounts::new(0, files_total, 0, bytes_total),
            None,
        );
        (a, p)
    }

    /// A file was written locally by a transfer that fetches it alone; the
    /// transfer's own progress is counted by its scheduler.
    pub fn record_write(&mut self, size_bytes: u64)
        requires
            old(self).wf(),
        ensures
            final(self).wf(),
            final(self).applied() == written_once(old(self).applied(), size_bytes),
            final(self).files_done() == old(self).files_done(),
            final(self).bytes_done() == old(self).bytes_done(),
            final(self).deleted() == old(self).deleted(),
            final(self).files_total() == old(self).files_total(),
            final(self).bytes_total() == old(self).bytes_total(),
            final(self).delete_total() == old(self).delete_total(),
            final(self).mirror() == old(self).mirror(),
    {
        self.tracker.record_write(size_bytes);
    }

    /// A file of the bundle was written: it counts as done and as a local
    /// change, and progress is reported for the first, every tenth and the
    /// last file.
    pub fn bundle_file_written(&mut self, size_bytes: u64, path: String) -> (p: Option<SyncProgress>)
        requires
            old(self).wf(),
            old(self).files_done() < old(self).files_total(),
            old(self).bytes_done() + size_bytes <= old(self).bytes_total(),
        ensures
            final(self).wf(),
            final(self).files_done() == old(self).files_done() + 1,
            final(self).bytes_done() == old(self).bytes_done() + size_bytes,
            final(self).applied() == written_once(old(self).applied(), size_bytes),
            final(self).deleted() == old(self).deleted(),
            final(self).files_total() == old(self).files_total(),
            final(self).bytes_total() == old(self).bytes_total(),
            final(self).delete_total() == old(self).delete_total(),
            final(self).mirror() == old(self).mirror(),
            match p {
                Some(q) => should_emit(final(self).files_done(), final(self).files_total()) && progress_is(
                    q,
                    SyncDirection::Pull,
                    SyncPhase::Downloading,
                    final(self).files_done(),
                    final(self).files_total(),
                    final(self).bytes_done(),
                    final(self).bytes_total(),
                    Some(path@),
                ),
                None => !should_emit(final(self).files_done(), final(self).files_total()),
            },
    {
        self.files_done = self.files_done + 1;
        self.bytes_done = self.bytes_done + size_bytes;
        self.tracker.record_write(size_bytes);
        if should_emit_progress(self.files_done, self.files_total) {
            Some(
                progress_event(
                    SyncDirection::Pull,
                    SyncPhase::Downloading,
                    ProgressCounts::new(self.files_done, self.files_total, self.bytes_done, self.bytes_total),
                    Some(path),
                ),
            )
        } else {
            None
        }
    }

    /// The failure that ends the pull when a write or a deletion failed:
    /// what changed so far goes with it.
    pub fn failure(&self, error: SyncError, target_changed: bool) -> (f: ClientSyncFailure)
        ensures
            f.error == error,
            f.local_applied == self.applied(),
            f.local_changed == (self.applied().files_written > 0 || self.applied().files_deleted > 0
                || target_changed),
            f.granted_permissions is None,
    {
        failure_after_local_work(error, self.tracker.summary(), target_changed)
    }

    /// The transfers are over: the pull ends unless it mirrors and the plan
    /// deletes something, in which case the deletion phase is reported.
    pub fn transfers_done(&self) -> (n: PullNext)
        ensures
            match n {
                PullNext::Finished(s) => !(self.mirror() && self.delete_total() > 0) && s == self.applied(),
                PullNext::Deleting(q) => self.mirror() && self.delete_total() > 0 && progress_is(
                    q,
                    SyncDirection::Pull,
                    SyncPhase::Deleting,
                    0,
                    self.delete_total(),
                    0,
                    0,
                    None,
                ),
            },
    {
        if !self.mirror || self.delete_total == 0 {
            PullNext::Finished(self.tracker.summary())
        } else {
            PullNext::Deleting(
                progress_event(
                    SyncDirection::Pull,
                    SyncPhase::Deleting,
                    ProgressCounts::new(0, self.delete_total, 0, 0),
                    None,
                ),
            )
        }
    }

    /// A planned path was deleted: it counts as a local change, and progress
    /// is reported for the first, every tenth and the last deletion.
    pub fn file_deleted(&mut self, path: String) -> (p: Option<SyncProgress>)
        requires
            old(self).wf(),
            old(self).deleted() < old(self).delete_total(),
        ensures
            final(self).wf(),
            final(self).deleted() == old(self).deleted() + 1,
            final(self).applied() == (LocalChangeSummary {
                files_deleted: (old(self).applied().files_deleted + 1) as usize,
                ..old(self).applied()
            }),
            final(self).files_done() == old(self).files_done(),
            final(self).bytes_done() == old(self).bytes_done(),
            final(self).files_total() == old(self).files_total(),
            final(self).bytes_total() == old(self).bytes_total(),
            final(self).delete_total() == old(self).delete_total(),
            final(self).mirror() == old(self).mirror(),
            match p {
                Some(q) => should_emit(final(self).deleted(), final(self).delete_total()) && progress_is(
                    q,
                    SyncDirection::Pull,
                    SyncPhase::Deleting,
                    final(self).deleted(),
                    final(self).delete_total(),
                    0,
                    0,
                    Some(path@),
                ),
                None => !should_emit(final(self).deleted(), final(self).delete_total()),
            },
    {
        self.deleted = self.deleted + 1;
        self.tracker.record_delete();
        if should_emit_progress(self.deleted, self.delete_total) {
            Some(
                progress_event(
                    SyncDirection::Pull,
                    SyncPhase::Deleting,
                    ProgressCounts::new(self.deleted, self.delete_total, 0, 0),
                    Some(path),
                ),
            )
        } else {
            None
        }
    }

    /// What changed locally so far.
    pub fn summary(&self) -> (s: LocalChangeSummary)
        ensures
            s == self.applied(),
    {
        self.tracker.summary()
    }
}

/// Once every planned deletion is done, the pull reports them all as local
/// deletions.
pub proof fn lemma_pull_deletions_counted(a: PullApplier)
    requires
        a.wf(),
        a.deleted() == a.delete_total(),
    ensures
        a.applied().files_deleted == a.delete_total(),
{
}

/// Applies a push plan step by step: the upload phase is reported first,
/// then each uploaded file of a bundle, then, in mirror mode with paths to
/// delete, the deletion phase before and after the commit that performs it.
#[derive(Debug)]
pub struct PushApplier {
    files_total: usize,
    bytes_total: u64,
    files_done: usize,
    bytes_done: u64,
    delete_total: usize,
    mirror: bool,
}

impl PushApplier {
    pub closed spec fn files_total(&self) -> nat {
        self.files_total as nat
    }

    pub closed spec fn bytes_total(&self) -> nat {
        self.bytes_total as nat
    }

    pub closed spec fn files_done(&self) -> nat {
        self.files_done as nat
    }

    pub closed spec fn bytes_done(&self) -> nat {
        self.bytes_done as nat
    }

    pub closed spec fn delete_total(&self) -> nat {
        self.delete_total as nat
    }

    pub closed spec fn mirror(&self) -> bool {
        self.mirror
    }

    pub closed spec fn wf(&self) -> bool {
        &&& self.files_done <= self.files_total
        &&& self.bytes_done <= self.bytes_total
    }

    /// Whether the push deletes anything on the peer.
    pub open spec fn deletes(&self) -> bool {
        self.mirror() && self.delete_total() > 0
    }

    /// Starts applying a plan; the upload phase is reported at once.
    pub fn start(files_total: usize, bytes_total: u64, mode: SyncMode, delete_total: usize) -> (r: (
        Self,
        SyncProgress,
    ))
        ensures
            r.0.wf(),
            r.0.files_total() == files_total,
            r.0.bytes_total() == bytes_total,
            r.0.delete_total() == delete_total,
            r.0.mirror() == (mode == SyncMode::Mirror),
            r.0.files_done() == 0,
            r.0.bytes_done() == 0,
            progress_is(
                r.1,
                SyncDirection::Push,
                SyncPhase::Uploading,
                0,
                files_total as nat,
                0,
                bytes_total as nat,
                None,
            ),
    {
        let a = PushApplier {
            files_total,
            bytes_total,
            files_done: 0,
            bytes_done: 0,
            delete_total,
            mirror: mode == SyncMode::Mirror,
        };
        let p = progress_event(
            SyncDirection::Push,
            SyncPhase::Uploading,
            ProgressCounts::new(0, files_total, 0, bytes_total),
            None,
        );
        (a, p)
    }

    /// A file of the bundle went into the upload.
    pub fn bundle_file_sent(&mut self, size_bytes: u64, path: String) -> (p: Option<SyncProgress>)
        requires
            old(self).wf(),
            old(self).files_done() < old(self).files_total(),
            old(self).bytes_done() + size_bytes <= old(self).bytes_total(),
        ensures
            final(self).wf(),
            final(self).files_done() == old(self).files_done() + 1,
            final(self).bytes_done() == old(self).bytes_done() + size_bytes,
            final(self).files_total() == old(self).files_total(),
            final(self).bytes_total() == old(self).bytes_total(),
            final(self).delete_total() == old(self).delete_total(),
            final(self).mirror() == old(self).mirror(),
            match p {
                Some(q) => should_emit(final(self).files_done(), final(self).files_total()) && progress_is(
                    q,
                    SyncDirection::Push,
                    SyncPhase::Uploading,
                    final(self).files_done(),
                    final(self).files_total(),
                    final(self).bytes_done(),
                    final(self).bytes_total(),
                    Some(path@),
                ),
                None => !should_emit(final(self).files_done(), final(self).files_total()),
            },
    {
        self.files_done = self.files_done + 1;
        self.bytes_done = self.bytes_done + size_bytes;
        if should_emit_progress(self.files_done, self.files_total) {
            Some(
                progress_event(
                    SyncDirection::Push,
                    SyncPhase::Uploading,
                    ProgressCounts::new(self.files_done, self.files_total, self.bytes_done, self.bytes_total),
                    Some(path),
                ),
            )
        } else {
            None
        }
    }

    /// The uploads are over: the deletion phase is reported before the commit
    /// when the push deletes anything.
    pub fn uploads_done(&self) -> (p: Option<SyncProgress>)
        ensures
            match p {
                Some(q) => self.deletes() && progress_is(
                    q,
                    SyncDirection::Push,
                    SyncPhase::Deleting,
                    0,
                    self.delete_total(),
                    0,
                    0,
                    None,
                ),
                None => !self.deletes(),
            },
    {
        if self.mirror && self.delete_total > 0 {
            Some(
                progress_event(
                    SyncDirection::Push,
                    SyncPhase::Deleting,
                    ProgressCounts::new(0, self.delete_total, 0, 0),
                    None,
                ),
            )
        } else {
            None
        }
    }

    /// The commit answered `ok`: a refusal fails the push with nothing
    /// changed locally; an acceptance completes the deletions, which are
    /// reported as done when there were any.
    pub fn committed(&self, ok: bool) -> (r: Result<Option<SyncProgress>, ClientSyncFailure>)
        ensures
            !ok ==> (r matches Err(f) && !f.local_changed && (f.error matches SyncError::Internal(m) && m@
                == "TT-Sync commit returned ok=false"@)),
            ok ==> (r matches Ok(p) && match p {
                Some(q) => self.deletes() && progress_is(
                    q,
                    SyncDirection::Push,
                    SyncPhase::Deleting,
                    self.delete_total(),
                    self.delete_total(),
                    0,
                    0,
                    None,
                ),
                None => !self.deletes(),
            }),
    {
        match commit_outcome(ok) {
            Err(f) => Err(f),
            Ok(()) => {
                if self.mirror && self.delete_total > 0 {
                    Ok(
                        Some(
                            progress_event(
                                SyncDirection::Push,
                                SyncPhase::Deleting,
                                ProgressCounts::new(self.delete_total, self.delete_total, 0, 0),
                                None,
                            ),
                        ),
                    )
                } else {
                    Ok(None)
                }
            },
        }
    }
}

} // verus!
