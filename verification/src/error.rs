//! The kinds of failure that a request can end in.

use vstd::prelude::*;

verus! {

/// Why a request failed.
#[derive(Clone, Copy, Debug, PartialEq, Eq, Structural)]
pub enum ErrorKind {
    /// The client's input is malformed: the address, the message, the
    /// identifier or the token.
    InvalidInput,
    /// No pending record answers to the identifier and token.
    NotFound,
    /// A record is there and cannot be read back as a submission.
    CorruptRecord,
    /// The medium could not be reached, or a write or delete on it failed.
    StorageFailure,
    /// A setting that the step needs is absent.
    ConfigurationMissing,
    /// The mail could not be handed over.
    NotifierFailure,
}

/// The status that answers a request which ended well.
pub const STATUS_OK: u16 = 200;

impl ErrorKind {
    /// The status that a client is answered with: 400 for its own faults,
    /// 404 where nothing was found, 500 for everything on this side.
    pub open spec fn status(self) -> u16 {
        match self {
            ErrorKind::InvalidInput => 400,
            ErrorKind::NotFound => 404,
            ErrorKind::CorruptRecord => 500,
            ErrorKind::StorageFailure => 500,
            ErrorKind::ConfigurationMissing => 500,
            ErrorKind::NotifierFailure => 500,
        }
    }

    /// The status that a client is answered with.
    pub fn status_code(&self) -> (code: u16)
        ensures
            code == self.status(),
    {
        match self {
            ErrorKind::InvalidInput => 400,
            ErrorKind::NotFound => 404,
            ErrorKind::CorruptRecord => 500,
            ErrorKind::StorageFailure => 500,
            ErrorKind::ConfigurationMissing => 500,
            ErrorKind::NotifierFailure => 500,
        }
    }
}

} // verus!
