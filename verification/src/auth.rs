//! The authorization pipeline: validation of a write request, the pending
//! state captured across the host's suspension point, and the write gate
//! that joins the two remote results and performs the only store mutation.
//!
//! The host platform issues the two remote calls (allow-list check, owner
//! lookup) and invokes the write gate exactly once when both settle, handing each
//! result in as a [`RemoteValue`]: either the resolved value or a failure
//! marker. A failure marker is treated as a denial, never retried here.

use crate::errors::DetailsError;
use crate::store::{store_write, PoolDetails};
use vstd::prelude::*;

verus! {

/// A field name may hold at most this many characters.
pub const MAX_NAME_LEN: usize = 100;

/// A field value may hold at most this many characters.
pub const MAX_VALUE_LEN: usize = 4000;

/// The outcome slot of one awaited remote call: the resolved value, or an
/// explicit failure marker (unreachable service or remote-side abort).
pub enum RemoteValue<T> {
    Resolved(T),
    Failed,
}

/// A write request whose two remote authorization calls are in flight: the
/// request parameters and the requester identity, captured at the moment
/// the write was requested.
pub struct PendingWrite {
    /// The pool whose record is to be written; also the address of the
    /// owner lookup.
    pub pool_id: String,
    /// The field name to upsert.
    pub name: String,
    /// The field value to store.
    pub value: String,
    /// The identity that requested the write, captured at issuance.
    pub requester_account_id: String,
}

/// The inputs on which a write request is accepted for authorization:
/// non-empty pool id, name and value, with name and value within bounds.
pub open spec fn valid_write_request(pool_id: Seq<char>, name: Seq<char>, value: Seq<char>) -> bool {
    &&& pool_id.len() > 0
    &&& name.len() > 0
    &&& value.len() > 0
    &&& name.len() <= MAX_NAME_LEN
    &&& value.len() <= MAX_VALUE_LEN
}

/// Both authorization results resolved, the pool is whitelisted, and the
/// resolved owner is the requester.
pub open spec fn authorized(
    is_whitelisted: RemoteValue<bool>,
    owner_id: RemoteValue<String>,
    requester: Seq<char>,
) -> bool {
    &&& is_whitelisted == RemoteValue::Resolved(true)
    &&& match owner_id {
        RemoteValue::Resolved(o) => o@ == requester,
        RemoteValue::Failed => false,
    }
}

/// The error with which the write gate denies: a failure marker of either call
/// denies first, then a negative whitelist answer, then a foreign owner.
pub open spec fn gate_denial(
    is_whitelisted: RemoteValue<bool>,
    owner_id: RemoteValue<String>,
    requester: String,
) -> DetailsError {
    if is_whitelisted is Failed || owner_id is Failed {
        DetailsError::RemoteCallFailure
    } else if is_whitelisted == RemoteValue::Resolved(false) {
        DetailsError::PoolNotWhitelisted
    } else {
        DetailsError::NotPoolOwner {
            owner_id: owner_id->Resolved_0,
            requester_id: requester,
        }
    }
}

impl PoolDetails {
    /// The privilege check for the store's own methods: whether the caller
    /// the host reports is the store's own account. The host must refuse a
    /// privileged call for which this is `false`.
    pub fn assert_self(predecessor_account_id: &String, current_account_id: &String) -> (r: bool)
        ensures
            r == (predecessor_account_id@ == current_account_id@),
    {
        *predecessor_account_id == *current_account_id
    }

    /// Accept or reject a write request before any remote call is issued.
    ///
    /// On valid input the returned [`PendingWrite`] captures the request
    /// and the requester identity; the host then issues the two remote
    /// calls and later invokes [`PoolDetails::on_get_owner_id`] with their
    /// joined results. Invalid input is rejected immediately with
    /// [`DetailsError::ValidationError`]; no remote call is spent on it.
    pub fn update_field(
        &self,
        pool_id: String,
        name: String,
        value: String,
        requester_account_id: String,
    ) -> (r: Result<PendingWrite, DetailsError>)
        ensures
            r is Ok <==> valid_write_request(pool_id@, name@, value@),
            r matches Ok(p) ==> p.pool_id == pool_id && p.name == name && p.value == value
                && p.requester_account_id == requester_account_id,
            r matches Err(e) ==> e == DetailsError::ValidationError,
    {
        if pool_id.as_str().unicode_len() == 0 {
            return Err(DetailsError::ValidationError);
        }
        let name_len = name.as_str().unicode_len();
        if name_len == 0 || name_len > MAX_NAME_LEN {
            return Err(DetailsError::ValidationError);
        }
        let value_len = value.as_str().unicode_len();
        if value_len == 0 || value_len > MAX_VALUE_LEN {
            return Err(DetailsError::ValidationError);
        }
        Ok(PendingWrite { pool_id, name, value, requester_account_id })
    }

    /// The write gate: the continuation invoked exactly once when both
    /// remote authorization calls have settled.
    ///
    /// It re-validates the joined snapshot — the pool must be whitelisted
    /// and the resolved owner must be the requester captured at issuance —
    /// and only then upserts `name -> value` into the pool's record. On
    /// any denial the store is untouched and the error says which check
    /// failed; a failure marker in either slot denies as
    /// [`DetailsError::RemoteCallFailure`] (fail closed).
    pub fn on_get_owner_id(
        &mut self,
        is_whitelisted: RemoteValue<bool>,
        owner_id: RemoteValue<String>,
        current_user_account_id: String,
        pool_id: String,
        name: String,
        value: String,
    ) -> (r: Result<(), DetailsError>)
        requires
            old(self).wf(),
        ensures
            final(self).wf(),
            r is Ok <==> authorized(is_whitelisted, owner_id, current_user_account_id@),
            r is Ok ==> final(self)@ == store_write(old(self)@, pool_id@, name@, value@),
            r matches Err(e) ==> final(self)@ == old(self)@ && e == gate_denial(
                is_whitelisted,
                owner_id,
                current_user_account_id,
            ),
    {
        let whitelisted = match is_whitelisted {
            RemoteValue::Resolved(w) => w,
            RemoteValue::Failed => {
                return Err(DetailsError::RemoteCallFailure);
            },
        };
        let owner = match owner_id {
            RemoteValue::Resolved(o) => o,
            RemoteValue::Failed => {
                return Err(DetailsError::RemoteCallFailure);
            },
        };
        if !whitelisted {
            return Err(DetailsError::PoolNotWhitelisted);
        }
        if !(owner == current_user_account_id) {
            return Err(DetailsError::NotPoolOwner {
                owner_id: owner,
                requester_id: current_user_account_id,
            });
        }
        self.apply_write(pool_id, name, value);
        Ok(())
    }
}

} // verus!
