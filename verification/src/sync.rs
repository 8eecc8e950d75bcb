use vstd::prelude::*;

verus! {

pub const OVERWRITE_POLICY_FEATURE_V1: &'static str = "overwrite_policy_v1";

/// Synchronization mode.
#[derive(Debug, Clone, Copy, PartialEq, Eq, Structural)]
pub enum SyncMode {
    /// Only transfer changed or new files; never delete.
    Incremental,
    /// Transfer changed or new files, then delete files absent on the source side.
    Mirror,
}

impl Default for SyncMode {
    fn default() -> (m: Self)
        ensures
            m == SyncMode::Incremental,
    {
        SyncMode::Incremental
    }
}

/// Whether a plan may replicate over a target copy whose `modified_ms` is
/// strictly newer than the source's.
#[derive(Debug, Clone, Copy, PartialEq, Eq, Structural)]
pub enum OverwritePolicy {
    /// Transfer every `(size_bytes, modified_ms)` mismatch: the target becomes an
    /// exact copy of the source.
    Exact,
    /// Keep target copies whose `modified_ms` is strictly newer than the source's.
    PreferNewer,
}

impl Default for OverwritePolicy {
    fn default() -> (p: Self)
        ensures
            p == OverwritePolicy::Exact,
    {
        OverwritePolicy::Exact
    }
}

/// Current phase of a sync operation, used for progress reporting.
#[derive(Debug, Clone, Copy, PartialEq, Eq, Structural)]
pub enum SyncPhase {
    Scanning,
    Diffing,
    Downloading,
    Uploading,
    Deleting,
}

} // verus!
