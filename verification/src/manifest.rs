use vstd::prelude::*;

use crate::path::SyncPath;

verus! {

/// A single entry in a v2 manifest.
#[derive(Debug, Clone)]
pub struct ManifestEntryV2 {
    pub path: SyncPath,
    pub size_bytes: u64,
    pub modified_ms: u64,
    /// Optional content hash (BLAKE3, base64url), present when verify mode is enabled.
    pub content_hash: Option<String>,
}

/// A complete file manifest for the v2 dataset.
#[derive(Debug, Clone)]
pub struct ManifestV2 {
    pub entries: Vec<ManifestEntryV2>,
}

} // verus!
