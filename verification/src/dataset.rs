use vstd::prelude::*;

verus! {

pub const DATASET_SCOPE_FEATURE_V1: &'static str = "dataset_scope_v1";

pub const DATASET_POLICY_VERSION: u32 = 1;

#[derive(Debug, Clone, PartialEq, Eq)]
pub struct DatasetSelection {
    pub policy_version: u32,
    pub dataset_ids: Vec<String>,
}

impl DatasetSelection {
    pub fn new(policy_version: u32, dataset_ids: Vec<String>) -> (s: Self)
        ensures
            s.policy_version == policy_version,
            s.dataset_ids == dataset_ids,
    {
        Self { policy_version, dataset_ids }
    }
}

} // verus!
