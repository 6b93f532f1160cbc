//! The error taxonomy of a run. Any error at any stage aborts the whole
//! run: there is no retry, no backoff, and no skipping of a bad page or a
//! bad record.

use vstd::prelude::*;

verus! {

/// What can go wrong while archiving: a transport failure, a malformed or
/// structurally incomplete response, a well-formed response that reports
/// failure (or an unrecognized status), or a storage failure.
#[derive(Debug)]
pub enum ArchiveError {
    Network(String),
    Parse(String),
    Api(String),
    Storage(String),
}

/// The human-readable message that an error carries.
pub open spec fn spec_message(e: ArchiveError) -> Seq<char> {
    match e {
        ArchiveError::Network(m) => m@,
        ArchiveError::Parse(m) => m@,
        ArchiveError::Api(m) => m@,
        ArchiveError::Storage(m) => m@,
    }
}

impl ArchiveError {
    /// The message carried by the error, whichever stage produced it.
    pub fn message(&self) -> (m: &String)
        ensures
            m@ == spec_message(*self),
    {
        match self {
            ArchiveError::Network(m) => m,
            ArchiveError::Parse(m) => m,
            ArchiveError::Api(m) => m,
            ArchiveError::Storage(m) => m,
        }
    }
}

} // verus!
