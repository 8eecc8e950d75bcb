use vstd::prelude::*;

use crate::text::chars_of;

verus! {

/// An ASCII hexadecimal digit.
pub open spec fn is_hex_digit(c: char) -> bool {
    ('0' <= c <= '9') || ('a' <= c <= 'f') || ('A' <= c <= 'F')
}

/// The positions of the hyphens in the 8-4-4-4-12 form of a UUID.
pub open spec fn is_uuid_hyphen_position(i: int) -> bool {
    i == 8 || i == 13 || i == 18 || i == 23
}

/// Text in the 8-4-4-4-12 hexadecimal form of a UUID.
pub open spec fn valid_uuid(s: Seq<char>) -> bool {
    &&& s.len() == 36
    &&& forall|i: int|
        0 <= i < 36 ==> if is_uuid_hyphen_position(i) {
            s[i] == '-'
        } else {
            is_hex_digit(#[trigger] s[i])
        }
}

/// Unique identifier for a device.
#[derive(Debug, PartialEq, Eq, Hash)]
pub struct DeviceId(String);

impl View for DeviceId {
    type V = Seq<char>;

    closed spec fn view(&self) -> Seq<char> {
        self.0@
    }
}

impl Clone for DeviceId {
    fn clone(&self) -> (r: Self)
        ensures
            r@ == self@,
    {
        proof {
            use_type_invariant(self);
        }
        DeviceId(self.0.clone())
    }
}

impl DeviceId {
    #[verifier::type_invariant]
    closed spec fn inv(self) -> bool {
        valid_uuid(self.0@)
    }

    pub fn new(raw: String) -> (r: Result<DeviceId, DeviceIdError>)
        ensures
            r is Ok <==> valid_uuid(raw@),
            r matches Ok(id) ==> id@ == raw@,
    {
        match validate_uuid(raw.as_str()) {
            Ok(()) => Ok(DeviceId(raw)),
            Err(e) => Err(e),
        }
    }

    pub fn as_str(&self) -> (s: &str)
        ensures
            s@ == self@,
            valid_uuid(s@),
    {
        proof {
            use_type_invariant(self);
        }
        self.0.as_str()
    }

    /// The identifier as an owned string.
    pub fn to_string(&self) -> (s: String)
        ensures
            s@ == self@,
    {
        self.0.clone()
    }

    /// Gives up the identifier, keeping its text.
    pub fn into_string(self) -> (s: String)
        ensures
            s@ == self@,
    {
        self.0
    }
}

#[derive(Debug)]
pub enum DeviceIdError {
    NotUuid,
}

impl DeviceIdError {
    /// The message that the error shows.
    pub open spec fn text(&self) -> Seq<char> {
        "device id must be a UUID"@
    }

    pub fn message(&self) -> (s: String)
        ensures
            s@ == self.text(),
    {
        proof {
            reveal_strlit("device id must be a UUID");
        }
        "device id must be a UUID".to_string()
    }
}

pub fn is_hex_digit_exec(c: char) -> (b: bool)
    ensures
        b == is_hex_digit(c),
{
    ('0' <= c && c <= '9') || ('a' <= c && c <= 'f') || ('A' <= c && c <= 'F')
}

fn validate_uuid(value: &str) -> (r: Result<(), DeviceIdError>)
    ensures
        r is Ok <==> valid_uuid(value@),
{
    let cs = chars_of(value);
    if cs.len() != 36 {
        return Err(DeviceIdError::NotUuid);
    }
    let mut idx: usize = 0;
    while idx < 36
        invariant
            idx <= 36,
            cs@ == value@,
            cs@.len() == 36,
            forall|i: int|
                0 <= i < idx ==> if is_uuid_hyphen_position(i) {
                    cs@[i] == '-'
                } else {
                    is_hex_digit(#[trigger] cs@[i])
                },
        decreases 36 - idx,
    {
        let ch = cs[idx];
        if idx == 8 || idx == 13 || idx == 18 || idx == 23 {
            if ch != '-' {
                return Err(DeviceIdError::NotUuid);
            }
        } else {
            if !is_hex_digit_exec(ch) {
                return Err(DeviceIdError::NotUuid);
            }
        }
        idx = idx + 1;
    }
    Ok(())
}

/// Permissions granted to a paired peer.
#[derive(Debug, Clone, Copy, PartialEq, Eq, Structural)]
pub struct Permissions {
    pub read: bool,
    pub write: bool,
    pub mirror_delete: bool,
}

impl Default for Permissions {
    fn default() -> (p: Self)
        ensures
            p == (Permissions { read: true, write: false, mirror_delete: false }),
    {
        Self { read: true, write: false, mirror_delete: false }
    }
}

/// A registered peer device with its granted capabilities.
#[derive(Debug, Clone)]
pub struct PeerGrant {
    pub device_id: DeviceId,
    pub device_name: String,
    /// Ed25519 public key bytes.
    pub public_key: Vec<u8>,
    pub permissions: Permissions,
    pub paired_at_ms: u64,
    pub last_sync_ms: Option<u64>,
}

impl PeerGrant {
    /// The grant's fields, each by its view.
    pub open spec fn fields(&self) -> (Seq<char>, Seq<char>, Seq<u8>, Permissions, u64, Option<u64>) {
        (
            self.device_id@,
            self.device_name@,
            self.public_key@,
            self.permissions,
            self.paired_at_ms,
            self.last_sync_ms,
        )
    }

    /// A copy of the grant.
    pub fn clone_grant(&self) -> (g: PeerGrant)
        ensures
            g.fields() == self.fields(),
    {
        PeerGrant {
            device_id: self.device_id.clone(),
            device_name: self.device_name.clone(),
            public_key: self.public_key.clone(),
            permissions: self.permissions,
            paired_at_ms: self.paired_at_ms,
            last_sync_ms: self.last_sync_ms,
        }
    }
}

} // verus!
