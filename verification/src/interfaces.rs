//! The remote collaborator interfaces the core consumes, as the host sees
//! them, and the legacy field row shape. Fixed collaborator addresses are
//! injected configuration of the host, not constants of this crate.

use crate::auth::RemoteValue;
use crate::errors::DetailsError;
use crate::social::{BadgePost, ProfilePost};
use crate::store::FieldMap;
use vstd::prelude::*;

verus! {

/// A single field row of the legacy schema.
#[derive(Debug, Clone, Default)]
pub struct Field {
    pub field_id: u64,
    pub pool_id: String,
    pub name: String,
    pub value: String,
}

/// Owner lookup on a staking pool; the pool id itself is the callable
/// target's address.
pub trait ExtStakingPool {
    fn get_owner_id(&self) -> String;
}

/// Owner lookup on a staking pool, legacy shape.
pub trait StakingPool {
    fn get_owner_id(&self) -> String;
}

/// The allow-list service, addressed by a fixed well-known identity.
pub trait ExtWhitelist {
    fn is_whitelisted(&self, staking_pool_account_id: String) -> bool;
}

/// The continuations of this store that the host schedules once the
/// remote calls of an operation settle, each slot carrying the resolved
/// value or a failure marker.
pub trait ExtPoolDetails {
    fn on_get_owner_id(
        &mut self,
        is_whitelisted: RemoteValue<bool>,
        owner_id: RemoteValue<String>,
        current_user_account_id: String,
        pool_id: String,
        name: String,
        value: String,
    ) -> Result<(), DetailsError>;

    fn on_get_owner_id_for_social_badge(
        &self,
        is_whitelisted: RemoteValue<bool>,
        owner_id: RemoteValue<String>,
        pool_id: String,
        current_account_id: String,
    ) -> Result<BadgePost, DetailsError>;

    fn on_get_owner_id_for_export_to_near_social(
        &self,
        owner_id: RemoteValue<String>,
        deposit: u128,
        pool_id: String,
        current_account_id: String,
    ) -> Result<ProfilePost, DetailsError>;

    fn on_get_fields_by_pool(
        &mut self,
        fields_by_pool: RemoteValue<Option<FieldMap>>,
        owner_id: RemoteValue<String>,
        deposit: u128,
        pool_id: String,
        current_account_id: String,
    ) -> Result<ProfilePost, DetailsError>;
}

} // verus!
