use vstd::prelude::*;

verus! {

/// Why a sync operation failed.
#[derive(Debug, Clone)]
pub enum SyncError {
    InvalidData(String),
    Io(String),
    NotFound(String),
    Internal(String),
    Unauthorized(String),
}

impl SyncError {
    /// The message the error carries.
    pub open spec fn text(&self) -> Seq<char> {
        match self {
            SyncError::InvalidData(m) => m@,
            SyncError::Io(m) => m@,
            SyncError::NotFound(m) => m@,
            SyncError::Internal(m) => m@,
            SyncError::Unauthorized(m) => m@,
        }
    }

    /// The message the error shows.
    pub fn message(&self) -> (s: String)
        ensures
            s@ == self.text(),
    {
        match self {
            SyncError::InvalidData(m) => m.clone(),
            SyncError::Io(m) => m.clone(),
            SyncError::NotFound(m) => m.clone(),
            SyncError::Internal(m) => m.clone(),
            SyncError::Unauthorized(m) => m.clone(),
        }
    }
}

} // verus!
