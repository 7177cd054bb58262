//! The migration adapter: a one-shot privileged import of a pool's record
//! from a predecessor store, which bypasses the whitelist check, seeds the
//! record store, and immediately republishes the imported record to the
//! social service.

use crate::errors::DetailsError;
use crate::social::{profile_matches, ProfilePost};
use crate::store::{store_put, FieldMap, PoolDetails};
use crate::auth::RemoteValue;
use vstd::prelude::*;

verus! {

/// A migration whose record fetch and owner lookup are in flight.
pub struct PendingMigration {
    pub pool_id: String,
    /// The attached payment, handed through to the eventual publication.
    pub deposit: u128,
}

/// The read-only legacy interface of the predecessor store, as the host
/// sees it.
pub trait ExtOriginalContact {
    fn get_fields_by_pool(&self, pool_id: String) -> Option<FieldMap>;
}

impl PoolDetails {
    /// Accept a migration request; restricted to the store's own
    /// privileged caller, which the host checks with
    /// [`PoolDetails::assert_self`]. The host then fetches the record from
    /// the predecessor store, resolves the pool's owner, and invokes
    /// [`PoolDetails::on_get_fields_by_pool`] with the joined results.
    pub fn migrate_pool_details(&self, pool_id: String, attached_deposit: u128) -> (r:
        PendingMigration)
        ensures
            r.pool_id == pool_id,
            r.deposit == attached_deposit,
    {
        PendingMigration { pool_id, deposit: attached_deposit }
    }

    /// The migration continuation: on a successful fetch, replace the
    /// pool's record with the imported map (no whitelist check — trust is
    /// placed in the privileged caller) and build the profile publication
    /// from the imported data and the resolved owner. An empty fetch fails
    /// with [`DetailsError::MissingPoolDetails`] and imports nothing; a
    /// failure marker in either slot fails with
    /// [`DetailsError::RemoteCallFailure`].
    pub fn on_get_fields_by_pool(
        &mut self,
        fields_by_pool: RemoteValue<Option<FieldMap>>,
        owner_id: RemoteValue<String>,
        deposit: u128,
        pool_id: String,
        current_account_id: String,
    ) -> (r: Result<ProfilePost, DetailsError>)
        requires
            old(self).wf(),
            fields_by_pool matches RemoteValue::Resolved(Some(m)) ==> m.wf(),
        ensures
            final(self).wf(),
            r is Ok <==> (fields_by_pool matches RemoteValue::Resolved(Some(_))
                && owner_id is Resolved),
            fields_by_pool matches RemoteValue::Resolved(Some(m)) ==> (owner_id matches
                RemoteValue::Resolved(o) ==> (r matches Ok(p) && final(self)@ == store_put(
                old(self)@,
                pool_id@,
                m@,
            ) && p.deposit == deposit && p.pool_id == pool_id && p.publisher_account_id
                == current_account_id && profile_matches(m@, o@, p.profile))),
            r is Err ==> final(self)@ == old(self)@,
            r matches Err(e) ==> e == (if fields_by_pool is Failed || owner_id is Failed {
                DetailsError::RemoteCallFailure
            } else {
                DetailsError::MissingPoolDetails
            }),
    {
        let fields = match fields_by_pool {
            RemoteValue::Resolved(f) => f,
            RemoteValue::Failed => {
                return Err(DetailsError::RemoteCallFailure);
            },
        };
        let owner = match owner_id {
            RemoteValue::Resolved(o) => o,
            RemoteValue::Failed => {
                return Err(DetailsError::RemoteCallFailure);
            },
        };
        match fields {
            Some(data) => {
                let imported = data.duplicate();
                self.put(pool_id.clone(), data);
                Ok(
                    self.internal_social_set_profile_data(
                        pool_id,
                        imported,
                        owner,
                        deposit,
                        current_account_id,
                    ),
                )
            },
            None => Err(DetailsError::MissingPoolDetails),
        }
    }
}

} // verus!
