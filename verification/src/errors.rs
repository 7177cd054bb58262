//! The error kinds with which an operation of this store is rejected.

use vstd::prelude::*;

verus! {

/// Why an operation was rejected. Every failure aborts the whole in-flight
/// operation; the record store is left untouched.
#[derive(Debug)]
pub enum DetailsError {
    /// An input was empty or over its length bound; rejected before any
    /// remote call is issued.
    ValidationError,
    /// The allow-list service answered `false` for the pool.
    PoolNotWhitelisted,
    /// The pool's resolved owner is not the identity that requested the
    /// write. Both identities are carried for diagnostics.
    NotPoolOwner { owner_id: String, requester_id: String },
    /// An awaited remote call failed or timed out; treated as a denial
    /// (fail closed), never as success.
    RemoteCallFailure,
    /// A read or export was requested for a pool with no stored record.
    RecordNotFound,
    /// The migration source had no record to import.
    MissingPoolDetails,
}

impl DetailsError {
    /// An authorization denial: the whitelist or ownership check failed,
    /// or a remote call needed for the check did not resolve.
    pub open spec fn spec_is_authorization_denied(&self) -> bool {
        match *self {
            DetailsError::PoolNotWhitelisted => true,
            DetailsError::NotPoolOwner { .. } => true,
            DetailsError::RemoteCallFailure => true,
            _ => false,
        }
    }

    /// Whether this error denies authorization for a write.
    pub fn is_authorization_denied(&self) -> (r: bool)
        ensures
            r == self.spec_is_authorization_denied(),
    {
        match self {
            DetailsError::PoolNotWhitelisted => true,
            DetailsError::NotPoolOwner { .. } => true,
            DetailsError::RemoteCallFailure => true,
            _ => false,
        }
    }
}

} // verus!
