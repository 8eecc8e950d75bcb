use vstd::prelude::*;

use crate::peer::DeviceId;

verus! {

/// Response body for `GET /v2/status`.
///
/// The core fields are shared by remote hubs and peer-to-peer transports; the
/// identity fields are optional so that LAN peers can advertise their device
/// identity without changing the base protocol.
#[derive(Debug, Clone)]
pub struct StatusResponse {
    pub ok: bool,
    pub protocol: String,
    pub server: String,
    pub features: Vec<String>,
    pub dataset_policy_version: Option<u32>,
    pub supported_dataset_ids: Vec<String>,
    pub supported_profile_ids: Vec<String>,
    pub default_dataset_ids: Vec<String>,
    pub device_id: Option<DeviceId>,
    pub device_name: Option<String>,
    pub spki_sha256: Option<String>,
}

} // verus!
