//! The closed set of failures a run can end with.

use vstd::prelude::*;

verus! {

/// Why a run stopped. Each variant carries a human-readable message.
#[derive(Clone, Debug, PartialEq, Eq)]
pub enum SyncError {
    /// The HTTPS transport could not be constructed.
    ClientInit(String),
    /// A remote endpoint could not be reached or its body could not be read.
    Network(String),
    /// A response body was malformed or lacked the expected shape.
    Parse(String),
    /// A well-formed response did not hold the expected datum.
    NotFound(String),
    /// The provider answered an update without confirming success; the
    /// message ends with the provider's raw response body.
    UpdateRejected(String),
}

/// The category of a [`SyncError`], without its message.
#[derive(Clone, Copy, Debug, PartialEq, Eq, Structural)]
pub enum ErrorKind {
    ClientInit,
    Network,
    Parse,
    NotFound,
    UpdateRejected,
}

impl SyncError {
    /// The category of this error.
    pub open spec fn spec_kind(&self) -> ErrorKind {
        match self {
            SyncError::ClientInit(_) => ErrorKind::ClientInit,
            SyncError::Network(_) => ErrorKind::Network,
            SyncError::Parse(_) => ErrorKind::Parse,
            SyncError::NotFound(_) => ErrorKind::NotFound,
            SyncError::UpdateRejected(_) => ErrorKind::UpdateRejected,
        }
    }

    /// The message carried by this error.
    pub open spec fn spec_message(&self) -> Seq<char> {
        match self {
            SyncError::ClientInit(m) => m@,
            SyncError::Network(m) => m@,
            SyncError::Parse(m) => m@,
            SyncError::NotFound(m) => m@,
            SyncError::UpdateRejected(m) => m@,
        }
    }

    /// The category of this error.
    #[verifier::when_used_as_spec(spec_kind)]
    pub fn kind(&self) -> (k: ErrorKind)
        ensures
            k == self.spec_kind(),
    {
        match self {
            SyncError::ClientInit(_) => ErrorKind::ClientInit,
            SyncError::Network(_) => ErrorKind::Network,
            SyncError::Parse(_) => ErrorKind::Parse,
            SyncError::NotFound(_) => ErrorKind::NotFound,
            SyncError::UpdateRejected(_) => ErrorKind::UpdateRejected,
        }
    }

    /// The message carried by this error.
    pub fn message(&self) -> (m: String)
        ensures
            m@ == self.spec_message(),
    {
        match self {
            SyncError::ClientInit(m) => m.clone(),
            SyncError::Network(m) => m.clone(),
            SyncError::Parse(m) => m.clone(),
            SyncError::NotFound(m) => m.clone(),
            SyncError::UpdateRejected(m) => m.clone(),
        }
    }
}

/// Whether `r` is the error of the given kind with the given message.
pub open spec fn fails_with<T>(r: Result<T, SyncError>, kind: ErrorKind, message: Seq<char>) -> bool {
    match r {
        Ok(_) => false,
        Err(e) => e.spec_kind() == kind && e.spec_message() == message,
    }
}

/// Whether `r` is the error of the given kind with a message that starts
/// with `prefix`.
pub open spec fn fails_with_prefix<T>(
    r: Result<T, SyncError>,
    kind: ErrorKind,
    prefix: Seq<char>,
) -> bool {
    match r {
        Ok(_) => false,
        Err(e) => e.spec_kind() == kind && prefix.is_prefix_of(e.spec_message()),
    }
}

} // verus!
