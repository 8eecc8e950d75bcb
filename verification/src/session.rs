use vstd::prelude::*;

use crate::peer::{DeviceId, Permissions};

verus! {

pub const HEADER_DEVICE_ID: &'static str = "TT-Device-Id";

pub const HEADER_TIMESTAMP_MS: &'static str = "TT-Timestamp-Ms";

pub const HEADER_NONCE: &'static str = "TT-Nonce";

pub const HEADER_SIGNATURE: &'static str = "TT-Signature";

/// Short-lived bearer token for authenticated requests after session open.
#[derive(Debug, Clone, PartialEq, Eq, Hash)]
pub struct SessionToken(pub String);

impl SessionToken {
    pub fn as_str(&self) -> (s: &str)
        ensures
            s@ == self.0@,
    {
        self.0.as_str()
    }
}

/// Request to open a new session.
#[derive(Debug, Clone)]
pub struct SessionOpenRequest {
    pub device_id: DeviceId,
}

/// Response to a successful session open.
#[derive(Debug, Clone)]
pub struct SessionOpenResponse {
    pub session_token: SessionToken,
    pub expires_at_ms: u64,
    pub granted_permissions: Permissions,
}

} // verus!
