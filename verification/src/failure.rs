//! The ways in which a request for a revocation list can fail.

use vstd::prelude::*;

verus! {

/// Why a request is not answered with a revocation list.
#[derive(Clone, Copy, Debug, PartialEq, Eq, Structural)]
pub enum Failure {
    /// The store has no record under the name.
    NotFound,
    /// A record could not be encoded, compressed or hashed.
    BuildFailure,
    /// The store could not be read.
    StoreFailure,
    /// The request's headers are too large.
    AdmissionRejected,
    /// The request was not handled in time.
    Timeout,
}

impl Failure {
    /// The HTTP status that reports the failure.
    pub open spec fn spec_status(self) -> u16 {
        match self {
            Failure::NotFound => 404,
            Failure::BuildFailure => 500,
            Failure::StoreFailure => 500,
            Failure::AdmissionRejected => 431,
            Failure::Timeout => 408,
        }
    }

    /// The HTTP status that reports the failure.
    pub fn status(&self) -> (code: u16)
        ensures
            code == self.spec_status(),
    {
        match self {
            Failure::NotFound => 404,
            Failure::BuildFailure => 500,
            Failure::StoreFailure => 500,
            Failure::AdmissionRejected => 431,
            Failure::Timeout => 408,
        }
    }
}

} // verus!
