//! An authorization-gated key/value metadata store keyed by staking-pool
//! identifiers. Every write is validated against two external authorities
//! (an allow-list service and the pool's own owner lookup) before it is
//! committed; reads are direct, ordered, and paginated.
//!
//! The host platform performs the actual cross-service calls; this crate
//! holds the decisions: input validation, the write gate that joins the
//! remote results, the record store, and the reshaping of stored fields
//! into profile and badge documents for the social service.

pub mod auth;
pub mod errors;
pub mod interfaces;
pub mod laws;
pub mod migrate;
pub mod social;
pub mod store;

pub use auth::{PendingWrite, RemoteValue};
pub use errors::DetailsError;
pub use interfaces::{ExtPoolDetails, ExtStakingPool, ExtWhitelist, Field, StakingPool};
pub use migrate::{ExtOriginalContact, PendingMigration};
pub use social::{BadgePost, ExtSocial, PendingBadge, PendingExport, ProfileDocument, ProfilePost};
pub use store::{FieldEntry, FieldMap, PoolDetails, StoreEntry};
