pub mod apply;

use vstd::prelude::*;

use crate::dataset::DatasetSelection;
use crate::error::SyncError;
use crate::peer::{DeviceId, Permissions};
use crate::status::StatusResponse;
use crate::sync::{SyncMode, SyncPhase};
use crate::text::{chars_eq, chars_of, replace_all, replace_str};

verus! {

/// The feature a peer lists when it serves transfer bundles.
pub const FEATURE_BUNDLE_V1: &'static str = "bundle_v1";

/// The feature a peer lists when it compresses bundles with zstd.
pub const FEATURE_ZSTD_V1: &'static str = "zstd_v1";

#[derive(Debug, Clone)]
pub struct ClientSyncTarget {
    pub device_id: DeviceId,
    pub ed25519_seed_b64url: String,
}

#[derive(Debug, Clone)]
pub struct ClientSyncOptions {
    pub mode: SyncMode,
    pub selection: DatasetSelection,
    pub require_bundle_zstd: bool,
    pub file_concurrency: usize,
}

impl ClientSyncOptions {
    pub fn new(mode: SyncMode, selection: DatasetSelection) -> (o: Self)
        ensures
            o.mode == mode,
            o.selection == selection,
            !o.require_bundle_zstd,
            o.file_concurrency == 4,
    {
        Self { mode, selection, require_bundle_zstd: false, file_concurrency: 4 }
    }
}

#[derive(Debug, Clone, Copy, PartialEq, Eq, Structural)]
pub enum SyncDirection {
    Pull,
    Push,
}

#[derive(Debug, Clone)]
pub struct SyncProgress {
    pub direction: SyncDirection,
    pub phase: SyncPhase,
    pub files_done: usize,
    pub files_total: usize,
    pub bytes_done: u64,
    pub bytes_total: u64,
    pub current_path: Option<String>,
}

/// Receives progress reports while a sync runs.
pub trait SyncObserver {
    fn on_progress(&self, progress: SyncProgress);
}

/// An observer that ignores every report.
pub struct NoopSyncObserver;

impl SyncObserver for NoopSyncObserver {
    fn on_progress(&self, _progress: SyncProgress) {
    }
}

#[derive(Debug, Clone, Copy, PartialEq, Eq, Structural)]
pub struct LocalChangeSummary {
    pub files_written: usize,
    pub bytes_written: u64,
    pub files_deleted: usize,
}

impl Default for LocalChangeSummary {
    fn default() -> (s: Self)
        ensures
            s == (LocalChangeSummary { files_written: 0, bytes_written: 0, files_deleted: 0 }),
    {
        LocalChangeSummary { files_written: 0, bytes_written: 0, files_deleted: 0 }
    }
}

impl LocalChangeSummary {
    /// Something was written or deleted locally.
    pub fn changed(&self) -> (b: bool)
        ensures
            b == (self.files_written > 0 || self.files_deleted > 0),
    {
        self.files_written > 0 || self.files_deleted > 0
    }
}

#[derive(Debug, Clone, Copy, PartialEq, Eq, Structural)]
pub struct ClientSyncSummary {
    pub files_total: usize,
    pub bytes_total: u64,
    pub files_deleted: usize,
}

#[derive(Debug, Clone)]
pub struct ClientSyncReport {
    pub summary: ClientSyncSummary,
    pub local_applied: LocalChangeSummary,
    pub granted_permissions: Permissions,
}

#[derive(Debug)]
pub struct ClientSyncFailure {
    pub error: SyncError,
    pub local_applied: LocalChangeSummary,
    pub local_changed: bool,
    pub granted_permissions: Option<Permissions>,
}

impl ClientSyncFailure {
    /// A failure that left the local workspace as it was.
    pub fn without_local_change(error: SyncError) -> (f: Self)
        ensures
            f.error == error,
            f.local_applied == (LocalChangeSummary { files_written: 0, bytes_written: 0, files_deleted: 0 }),
            !f.local_changed,
            f.granted_permissions is None,
    {
        Self {
            error,
            local_applied: LocalChangeSummary::default(),
            local_changed: false,
            granted_permissions: None,
        }
    }

    /// A failure after some local changes.
    pub fn with_local_state(
        error: SyncError,
        local_applied: LocalChangeSummary,
        local_changed: bool,
    ) -> (f: Self)
        ensures
            f.error == error,
            f.local_applied == local_applied,
            f.local_changed == local_changed,
            f.granted_permissions is None,
    {
        Self { error, local_applied, local_changed, granted_permissions: None }
    }

    /// The same failure, recording the permissions that the peer granted.
    pub fn with_permissions(self, permissions: Permissions) -> (f: Self)
        ensures
            f.error == self.error,
            f.local_applied == self.local_applied,
            f.local_changed == self.local_changed,
            f.granted_permissions == Some(permissions),
    {
        let mut s = self;
        s.granted_permissions = Some(permissions);
        s
    }
}

/// How files travel: in one bundle stream, and compressed with zstd or not.
#[derive(Debug, Clone, Copy, PartialEq, Eq, Structural)]
pub struct BundleTransport {
    pub prefer_bundle: bool,
    pub use_zstd: bool,
}

/// A file that went across.
#[derive(Debug)]
pub struct TransferResult {
    pub path: String,
    pub size_bytes: u64,
}

#[derive(Debug, Clone, Copy, PartialEq, Eq, Structural)]
pub struct ProgressCounts {
    pub files_done: usize,
    pub files_total: usize,
    pub bytes_done: u64,
    pub bytes_total: u64,
}

impl Default for ProgressCounts {
    fn default() -> (c: Self)
        ensures
            c == (ProgressCounts { files_done: 0, files_total: 0, bytes_done: 0, bytes_total: 0 }),
    {
        ProgressCounts { files_done: 0, files_total: 0, bytes_done: 0, bytes_total: 0 }
    }
}

impl ProgressCounts {
    pub fn new(files_done: usize, files_total: usize, bytes_done: u64, bytes_total: u64) -> (c: Self)
        ensures
            c == (ProgressCounts { files_done, files_total, bytes_done, bytes_total }),
    {
        Self { files_done, files_total, bytes_done, bytes_total }
    }
}

/// Checks the options before a sync starts: at least one file at a time, and
/// a dataset selection that resolves (`policy` is the outcome of resolving it).
pub fn validate_options(options: &ClientSyncOptions, policy: Result<(), SyncError>) -> (r: Result<(), ClientSyncFailure>)
    ensures
        options.file_concurrency == 0 ==> (r matches Err(f) && !f.local_changed && (
        f.error matches SyncError::InvalidData(m) && m@ == "file_concurrency must be greater than 0"@)),
        options.file_concurrency > 0 ==> match policy {
            Ok(()) => r is Ok,
            Err(e) => r matches Err(f) && f.error == e && !f.local_changed,
        },
{
    if options.file_concurrency == 0 {
        return Err(ClientSyncFailure::without_local_change(
            SyncError::InvalidData("file_concurrency must be greater than 0".to_string()),
        ));
    }
    match policy {
        Ok(()) => Ok(()),
        Err(e) => Err(ClientSyncFailure::without_local_change(e)),
    }
}

/// A pull needs read access, and mirror-delete access in mirror mode.
pub fn ensure_pull_allowed(permissions: Permissions, mode: SyncMode) -> (r: Result<(), SyncError>)
    ensures
        r is Ok <==> (permissions.read && (mode == SyncMode::Mirror ==> permissions.mirror_delete)),
        !permissions.read ==> (r matches Err(SyncError::Unauthorized(m)) && m@ == "read not granted"@),
        permissions.read && mode == SyncMode::Mirror && !permissions.mirror_delete ==> (r matches Err(
            SyncError::Unauthorized(m),
        ) && m@ == "mirror_delete not granted"@),
{
    if !permissions.read {
        return Err(SyncError::Unauthorized("read not granted".to_string()));
    }
    if mode == SyncMode::Mirror && !permissions.mirror_delete {
        return Err(SyncError::Unauthorized("mirror_delete not granted".to_string()));
    }
    Ok(())
}

/// A push needs write access, and mirror-delete access in mirror mode.
pub fn ensure_push_allowed(permissions: Permissions, mode: SyncMode) -> (r: Result<(), SyncError>)
    ensures
        r is Ok <==> (permissions.write && (mode == SyncMode::Mirror ==> permissions.mirror_delete)),
        !permissions.write ==> (r matches Err(SyncError::Unauthorized(m)) && m@ == "write not granted"@),
        permissions.write && mode == SyncMode::Mirror && !permissions.mirror_delete ==> (r matches Err(
            SyncError::Unauthorized(m),
        ) && m@ == "mirror_delete not granted"@),
{
    if !permissions.write {
        return Err(SyncError::Unauthorized("write not granted".to_string()));
    }
    if mode == SyncMode::Mirror && !permissions.mirror_delete {
        return Err(SyncError::Unauthorized("mirror_delete not granted".to_string()));
    }
    Ok(())
}

/// The texts of a list of strings.
pub open spec fn texts(v: Seq<String>) -> Seq<Seq<char>> {
    v.map_values(|s: String| s@)
}

fn has_feature(features: &Vec<String>, name: &str) -> (b: bool)
    ensures
        b == texts(features@).contains(name@),
{
    let want = chars_of(name);
    let mut i: usize = 0;
    while i < features.len()
        invariant
            i <= features@.len(),
            want@ == name@,
            forall|j: int| 0 <= j < i ==> features@[j]@ != name@,
        decreases features@.len() - i,
    {
        let f = chars_of(features[i].as_str());
        if chars_eq(f.as_slice(), want.as_slice()) {
            assert(texts(features@)[i as int] == name@);
            return true;
        }
        i = i + 1;
    }
    proof {
        if texts(features@).contains(name@) {
            let k = choose|k: int| 0 <= k < texts(features@).len() && texts(features@)[k] == name@;
            assert(features@[k]@ == name@);
        }
    }
    false
}

/// Picks the transport from the features a peer lists: a bundle when it serves
/// bundles, zstd only with a bundle; when `require_bundle_zstd`, both must be
/// there.
pub fn bundle_transport_for_status(
    status: &StatusResponse,
    peer_label: &str,
    require_bundle_zstd: bool,
) -> (r: Result<BundleTransport, SyncError>)
    ensures
        ({
            let has_bundle = texts(status.features@).contains(FEATURE_BUNDLE_V1@);
            let has_zstd = texts(status.features@).contains(FEATURE_ZSTD_V1@);
            &&& require_bundle_zstd && !has_bundle ==> (r matches Err(SyncError::InvalidData(m))
                && m@ == peer_label@ + " does not support bundle_v1"@)
            &&& require_bundle_zstd && has_bundle && !has_zstd ==> (r matches Err(
                SyncError::InvalidData(m),
            ) && m@ == peer_label@ + " does not support zstd_v1"@)
            &&& (!require_bundle_zstd || (has_bundle && has_zstd)) ==> r == Ok::<
                BundleTransport,
                SyncError,
            >(BundleTransport { prefer_bundle: has_bundle, use_zstd: has_bundle && has_zstd })
        }),
{
    let has_bundle = has_feature(&status.features, FEATURE_BUNDLE_V1);
    let has_zstd = has_feature(&status.features, FEATURE_ZSTD_V1);
    if require_bundle_zstd && !has_bundle {
        let mut m = peer_label.to_string();
        m.append(" does not support bundle_v1");
        return Err(SyncError::InvalidData(m));
    }
    if require_bundle_zstd && !has_zstd {
        let mut m = peer_label.to_string();
        m.append(" does not support zstd_v1");
        return Err(SyncError::InvalidData(m));
    }
    Ok(BundleTransport { prefer_bundle: has_bundle, use_zstd: has_bundle && has_zstd })
}

/// Names the peer in a dataset error: in an invalid-data message, every
/// "TT-Sync server" becomes `peer_label`; other errors pass unchanged.
pub fn relabel_dataset_error(error: SyncError, peer_label: &str) -> (r: SyncError)
    ensures
        match error {
            SyncError::InvalidData(m) => r matches SyncError::InvalidData(n) && n@ == replace_all(
                m@,
                "TT-Sync server"@,
                peer_label@,
            ),
            _ => r == error,
        },
{
    match error {
        SyncError::InvalidData(message) => {
            proof {
                reveal_strlit("TT-Sync server");
            }
            SyncError::InvalidData(replace_str(message.as_str(), "TT-Sync server", peer_label))
        },
        other => other,
    }
}

/// The report that an observer receives.
pub fn progress_event(
    direction: SyncDirection,
    phase: SyncPhase,
    counts: ProgressCounts,
    current_path: Option<String>,
) -> (p: SyncProgress)
    ensures
        p.direction == direction,
        p.phase == phase,
        p.files_done == counts.files_done,
        p.files_total == counts.files_total,
        p.bytes_done == counts.bytes_done,
        p.bytes_total == counts.bytes_total,
        p.current_path == current_path,
{
    SyncProgress {
        direction,
        phase,
        files_done: counts.files_done,
        files_total: counts.files_total,
        bytes_done: counts.bytes_done,
        bytes_total: counts.bytes_total,
        current_path,
    }
}

/// Hands a progress report to the observer.
pub fn emit<O: SyncObserver>(
    observer: &O,
    direction: SyncDirection,
    phase: SyncPhase,
    counts: ProgressCounts,
    current_path: Option<String>,
) {
    observer.on_progress(progress_event(direction, phase, counts, current_path));
}

/// Progress is reported for the first file, every tenth file and the last one.
pub open spec fn should_emit(files_done: nat, files_total: nat) -> bool {
    files_done == files_total || files_done == 1 || files_done % 10 == 0
}

pub fn should_emit_progress(files_done: usize, files_total: usize) -> (b: bool)
    ensures
        b == should_emit(files_done as nat, files_total as nat),
{
    files_done == files_total || files_done == 1 || files_done % 10 == 0
}

/// `a + b` in 64 bits, wrapping round at the top as an atomic counter does.
pub open spec fn wrapping_add_u64(a: u64, b: u64) -> u64 {
    if a + b <= u64::MAX {
        (a + b) as u64
    } else {
        (a + b - u64::MAX - 1) as u64
    }
}

/// `a + 1` in a `usize`, wrapping round at the top as an atomic counter does.
pub open spec fn wrapping_inc(a: usize) -> usize {
    if a < usize::MAX {
        (a + 1) as usize
    } else {
        0
    }
}

fn wrapping_add_u64_exec(a: u64, b: u64) -> (r: u64)
    ensures
        r == wrapping_add_u64(a, b),
{
    if a <= u64::MAX - b {
        a + b
    } else {
        b - (u64::MAX - a) - 1
    }
}

fn wrapping_inc_exec(a: usize) -> (r: usize)
    ensures
        r == wrapping_inc(a),
{
    if a < usize::MAX {
        a + 1
    } else {
        0
    }
}

/// Counts what a pull has changed locally.
#[derive(Debug)]
pub struct LocalChangeTracker {
    files_written: usize,
    bytes_written: u64,
    files_deleted: usize,
}

impl LocalChangeTracker {
    /// The counts so far.
    pub closed spec fn counts(&self) -> LocalChangeSummary {
        LocalChangeSummary {
            files_written: self.files_written,
            bytes_written: self.bytes_written,
            files_deleted: self.files_deleted,
        }
    }

    pub fn new() -> (t: Self)
        ensures
            t.counts() == (LocalChangeSummary { files_written: 0, bytes_written: 0, files_deleted: 0 }),
    {
        LocalChangeTracker { files_written: 0, bytes_written: 0, files_deleted: 0 }
    }

    pub fn record_write(&mut self, size_bytes: u64)
        ensures
            final(self).counts() == (LocalChangeSummary {
                files_written: wrapping_inc(old(self).counts().files_written),
                bytes_written: wrapping_add_u64(old(self).counts().bytes_written, size_bytes),
                files_deleted: old(self).counts().files_deleted,
            }),
    {
        self.files_written = wrapping_inc_exec(self.files_written);
        self.bytes_written = wrapping_add_u64_exec(self.bytes_written, size_bytes);
    }

    pub fn record_delete(&mut self)
        ensures
            final(self).counts() == (LocalChangeSummary {
                files_deleted: wrapping_inc(old(self).counts().files_deleted),
                ..old(self).counts()
            }),
    {
        self.files_deleted = wrapping_inc_exec(self.files_deleted);
    }

    pub fn summary(&self) -> (s: LocalChangeSummary)
        ensures
            s == self.counts(),
    {
        LocalChangeSummary {
            files_written: self.files_written,
            bytes_written: self.bytes_written,
            files_deleted: self.files_deleted,
        }
    }
}

} // verus!

verus! {

/// A pull streams its transfers in one bundle when the peer serves bundles and
/// there is something to transfer; otherwise it fetches file by file.
pub fn uses_bundle(transport: BundleTransport, transfer_count: usize) -> (b: bool)
    ensures
        b == (transport.prefer_bundle && transfer_count > 0),
{
    transport.prefer_bundle && transfer_count > 0
}

/// Deletions follow the transfers only in mirror mode, and only when the plan
/// lists any.
pub fn applies_deletes(mode: SyncMode, delete_count: usize) -> (b: bool)
    ensures
        b == (mode == SyncMode::Mirror && delete_count > 0),
{
    mode == SyncMode::Mirror && delete_count > 0
}

/// The number of deletions a push reports: those of the plan in mirror mode,
/// none otherwise.
pub fn push_files_deleted(mode: SyncMode, delete_count: usize) -> (n: usize)
    ensures
        n == (if mode == SyncMode::Mirror { delete_count } else { 0 }),
{
    if mode == SyncMode::Mirror {
        delete_count
    } else {
        0
    }
}

/// A failure after local work: the local side changed when anything was
/// applied or when the failing write itself touched the target.
pub fn failure_after_local_work(
    error: SyncError,
    local_applied: LocalChangeSummary,
    target_changed: bool,
) -> (f: ClientSyncFailure)
    ensures
        f.error == error,
        f.local_applied == local_applied,
        f.local_changed == (local_applied.files_written > 0 || local_applied.files_deleted > 0
            || target_changed),
        f.granted_permissions is None,
{
    let changed = local_applied.changed() || target_changed;
    ClientSyncFailure::with_local_state(error, local_applied, changed)
}

/// The outcome of the commit that ends a push.
pub fn commit_outcome(ok: bool) -> (r: Result<(), ClientSyncFailure>)
    ensures
        ok ==> r is Ok,
        !ok ==> (r matches Err(f) && !f.local_changed && (f.error matches SyncError::Internal(m)
            && m@ == "TT-Sync commit returned ok=false"@)),
{
    if ok {
        Ok(())
    } else {
        Err(ClientSyncFailure::without_local_change(
            SyncError::Internal("TT-Sync commit returned ok=false".to_string()),
        ))
    }
}

/// The report of a finished pull.
pub fn pull_report(
    files_total: usize,
    bytes_total: u64,
    local_applied: LocalChangeSummary,
    granted_permissions: Permissions,
) -> (r: ClientSyncReport)
    ensures
        r.summary == (ClientSyncSummary {
            files_total,
            bytes_total,
            files_deleted: local_applied.files_deleted,
        }),
        r.local_applied == local_applied,
        r.granted_permissions == granted_permissions,
{
    ClientSyncReport {
        summary: ClientSyncSummary { files_total, bytes_total, files_deleted: local_applied.files_deleted },
        local_applied,
        granted_permissions,
    }
}

/// The report of a finished push: nothing changed locally.
pub fn push_report(
    files_total: usize,
    bytes_total: u64,
    mode: SyncMode,
    delete_count: usize,
    granted_permissions: Permissions,
) -> (r: ClientSyncReport)
    ensures
        r.summary == (ClientSyncSummary {
            files_total,
            bytes_total,
            files_deleted: if mode == SyncMode::Mirror { delete_count } else { 0 },
        }),
        r.local_applied == (LocalChangeSummary { files_written: 0, bytes_written: 0, files_deleted: 0 }),
        r.granted_permissions == granted_permissions,
{
    ClientSyncReport {
        summary: ClientSyncSummary {
            files_total,
            bytes_total,
            files_deleted: push_files_deleted(mode, delete_count),
        },
        local_applied: LocalChangeSummary::default(),
        granted_permissions,
    }
}

/// The sum of a list of sizes.
pub open spec fn sum_sizes(sizes: Seq<u64>) -> nat
    decreases sizes.len(),
{
    if sizes.len() == 0 {
        0
    } else {
        sum_sizes(sizes.drop_last()) + sizes.last() as nat
    }
}

/// The total size of the files to transfer.
pub fn total_bytes(sizes: &Vec<u64>) -> (t: u64)
    requires
        sum_sizes(sizes@) <= u64::MAX,
    ensures
        t == sum_sizes(sizes@),
{
    let mut t: u64 = 0;
    let mut i: usize = 0;
    while i < sizes.len()
        invariant
            i <= sizes@.len(),
            t == sum_sizes(sizes@.take(i as int)),
            sum_sizes(sizes@) <= u64::MAX,
        decreases sizes@.len() - i,
    {
        proof {
            lemma_sum_prefix(sizes@, i + 1);
            assert(sizes@.take(i + 1).drop_last() =~= sizes@.take(i as int));
        }
        t = t + sizes[i];
        i = i + 1;
    }
    assert(sizes@.take(sizes@.len() as int) =~= sizes@);
    t
}

proof fn lemma_sum_prefix(s: Seq<u64>, i: int)
    requires
        0 <= i <= s.len(),
    ensures
        sum_sizes(s.take(i)) <= sum_sizes(s),
    decreases s.len() - i,
{
    if i < s.len() {
        lemma_sum_prefix(s, i + 1);
        assert(s.take(i + 1).drop_last() =~= s.take(i));
    } else {
        assert(s.take(i) =~= s);
    }
}

/// How a transfer task ended.
#[derive(Debug, Clone, Copy, PartialEq, Eq, Structural)]
pub enum JoinOutcome {
    /// The file went across; its size.
    Done(u64),
    /// The task failed.
    Failed,
}

/// What to do after a transfer task ended.
#[derive(Debug, Clone, Copy, PartialEq, Eq, Structural)]
pub struct JoinDecision {
    /// Report progress with the current counts.
    pub emit: bool,
    /// Start the transfer of the entry at this position.
    pub spawn: Option<usize>,
    /// Keep this failure as the one the transfer reports.
    pub record_error: bool,
    /// Stop at once and report this failure.
    pub abort: bool,
    /// No task is left running.
    pub finished: bool,
}

/// Runs a list of file transfers with at most `concurrency` of them at a time,
/// in list order. A downloading scheduler lets running tasks finish after the
/// first failure and starts no new ones; an uploading one stops at the first
/// failure.
#[derive(Debug)]
pub struct TransferScheduler {
    total: usize,
    concurrency: usize,
    launched: usize,
    in_flight: usize,
    files_done: usize,
    bytes_done: u64,
    failed: bool,
    fail_fast: bool,
}

impl TransferScheduler {
    pub closed spec fn total(&self) -> nat {
        self.total as nat
    }

    pub closed spec fn concurrency(&self) -> nat {
        self.concurrency as nat
    }

    /// How many transfers have been started.
    pub closed spec fn launched(&self) -> nat {
        self.launched as nat
    }

    /// How many transfers are running.
    pub closed spec fn running(&self) -> nat {
        self.in_flight as nat
    }

    pub closed spec fn done_count(&self) -> nat {
        self.files_done as nat
    }

    pub closed spec fn done_bytes(&self) -> u64 {
        self.bytes_done
    }

    pub closed spec fn failed(&self) -> bool {
        self.failed
    }

    pub closed spec fn fail_fast(&self) -> bool {
        self.fail_fast
    }

    /// The scheduler's invariant: no more running than allowed, none started
    /// twice, and while nothing failed every ended task counts as done and a
    /// full window is kept running until the list runs out.
    pub closed spec fn wf(&self) -> bool {
        &&& self.launched <= self.total
        &&& self.in_flight <= self.launched
        &&& self.in_flight <= self.concurrency
        &&& !self.failed ==> self.files_done == self.launched - self.in_flight
        &&& !self.failed && self.launched < self.total ==> self.in_flight == self.concurrency
    }

    /// A scheduler for `total` transfers that starts the first window at once:
    /// the transfers at positions `0 .. r.running()` are to be started; with a
    /// concurrency of 0 none is.
    pub fn new(total: usize, concurrency: usize, fail_fast: bool) -> (r: Self)
        ensures
            r.wf(),
            r.total() == total,
            r.concurrency() == concurrency,
            r.fail_fast() == fail_fast,
            r.launched() == (if concurrency < total { concurrency } else { total }),
            r.running() == r.launched(),
            r.done_count() == 0,
            r.done_bytes() == 0,
            !r.failed(),
    {
        let first = if concurrency < total { concurrency } else { total };
        TransferScheduler {
            total,
            concurrency,
            launched: first,
            in_flight: first,
            files_done: 0,
            bytes_done: 0,
            failed: false,
            fail_fast,
        }
    }

    pub fn files_done(&self) -> (n: usize)
        ensures
            n == self.done_count(),
    {
        self.files_done
    }

    pub fn bytes_done(&self) -> (n: u64)
        ensures
            n == self.done_bytes(),
    {
        self.bytes_done
    }

    pub fn in_flight(&self) -> (n: usize)
        ensures
            n == self.running(),
    {
        self.in_flight
    }

    /// One running transfer ended with `outcome`.
    pub fn on_joined(&mut self, outcome: JoinOutcome) -> (d: JoinDecision)
        requires
            old(self).wf(),
            old(self).running() > 0,
            outcome matches JoinOutcome::Done(size) ==> old(self).done_bytes() + size <= u64::MAX,
        ensures
            final(self).wf(),
            final(self).total() == old(self).total(),
            final(self).concurrency() == old(self).concurrency(),
            final(self).fail_fast() == old(self).fail_fast(),
            final(self).failed() == (old(self).failed() || outcome is Failed),
            d.record_error == (outcome is Failed && !old(self).failed()),
            d.abort == (outcome is Failed && old(self).fail_fast()),
            match outcome {
                JoinOutcome::Done(size) => if old(self).failed() {
                    final(self).done_count() == old(self).done_count() && final(self).done_bytes()
                        == old(self).done_bytes() && !d.emit
                } else {
                    &&& final(self).done_count() == old(self).done_count() + 1
                    &&& final(self).done_bytes() == old(self).done_bytes() + size
                    &&& d.emit == should_emit(final(self).done_count(), old(self).total())
                },
                JoinOutcome::Failed => final(self).done_count() == old(self).done_count()
                    && final(self).done_bytes() == old(self).done_bytes() && !d.emit,
            },
            d.spawn == (if !final(self).failed() && old(self).launched() < old(self).total() {
                Some(old(self).launched() as usize)
            } else {
                None::<usize>
            }),
            final(self).launched() == old(self).launched() + (if d.spawn is Some { 1int } else { 0 }),
            final(self).running() == old(self).running() - 1 + (if d.spawn is Some {
                1int
            } else {
                0
            }),
            d.finished == (final(self).running() == 0),
    {
        self.in_flight = self.in_flight - 1;
        let mut emit = false;
        let mut record_error = false;
        let mut abort = false;
        match outcome {
            JoinOutcome::Done(size) => {
                if !self.failed {
                    self.files_done = self.files_done + 1;
                    self.bytes_done = self.bytes_done + size;
                    emit = should_emit_progress(self.files_done, self.total);
                }
            },
            JoinOutcome::Failed => {
                record_error = !self.failed;
                abort = self.fail_fast;
                self.failed = true;
            },
        }
        let mut spawn: Option<usize> = None;
        if !self.failed && self.launched < self.total {
            spawn = Some(self.launched);
            self.launched = self.launched + 1;
            self.in_flight = self.in_flight + 1;
        }
        JoinDecision { emit, spawn, record_error, abort, finished: self.in_flight == 0 }
    }
}

/// When the last transfer ended and nothing failed, every transfer of the list
/// was started and counts as done, provided transfers may run at all.
pub proof fn lemma_scheduler_completes(s: TransferScheduler)
    requires
        s.wf(),
        s.concurrency() > 0,
        s.running() == 0,
        !s.failed(),
    ensures
        s.launched() == s.total(),
        s.done_count() == s.total(),
{
}

/// A bundle response is zstd-compressed when its `Content-Encoding` is
/// `zstd`, in any case of ASCII letters; a missing header counts as empty.
pub fn is_zstd_encoding(content_encoding: Option<&str>) -> (b: bool)
    ensures
        b == crate::commands::eq_ignore_ascii_case(
            match content_encoding {
                Some(s) => s@,
                None => Seq::<char>::empty(),
            },
            "zstd"@,
        ),
{
    let text = match content_encoding {
        Some(s) => crate::text::chars_of(s),
        None => Vec::new(),
    };
    let want = crate::text::chars_of("zstd");
    crate::commands::eq_ignore_ascii_case_exec(text.as_slice(), want.as_slice())
}

} // verus!
