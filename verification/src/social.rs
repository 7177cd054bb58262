//! The export adapter: reshapes a pool's stored flat field map into the
//! nested profile document of the external social schema, and builds the
//! fixed ownership-badge document. The host publishes the returned post
//! with the stated payment; nothing here performs the call.

use crate::auth::RemoteValue;
use crate::errors::DetailsError;
use crate::store::{store_get, store_has, FieldMap, FieldsView, PoolDetails};
use vstd::prelude::*;

verus! {

/// The payment the social service requires with a badge publication.
pub const DEPOSIT_FOR_SOCIAL_SET: u128 = 50_000_000_000_000_000_000_000;

/// The reshaped profile of one pool. Recognized source fields collect into
/// the link tree and the location; `name` and `description` pass through;
/// `logo` becomes the image url; everything else is silently dropped.
#[derive(Debug)]
pub struct ProfileDocument {
    /// `twitter, github, telegram, website, email, discord`, with `url`
    /// overriding `website`.
    pub linktree: FieldMap,
    /// `country_code, country, city`.
    pub location: FieldMap,
    pub name: Option<String>,
    pub description: Option<String>,
    /// The `logo` field, republished as an image-with-url object.
    pub image_url: Option<String>,
    /// The owner identity resolved for the pool, attached under a fixed key.
    pub pool_owner: String,
}

/// A profile publication for the host to send to the social service,
/// carrying the caller-supplied payment verbatim.
#[derive(Debug)]
pub struct ProfilePost {
    /// The account under whose key the document is published.
    pub publisher_account_id: String,
    pub pool_id: String,
    pub profile: ProfileDocument,
    pub deposit: u128,
}

/// An ownership-badge publication for the host to send to the social
/// service.
#[derive(Debug)]
pub struct BadgePost {
    /// The account under whose key the document is published.
    pub publisher_account_id: String,
    pub badge: String,
    pub holder_account_id: String,
    pub pool_id: String,
    pub deposit: u128,
}

/// A badge publication whose owner lookup and whitelist check are in
/// flight.
pub struct PendingBadge {
    pub pool_id: String,
}

/// An export whose owner lookup is in flight, carrying the attached
/// payment for the eventual publication.
pub struct PendingExport {
    pub pool_id: String,
    pub deposit: u128,
}

/// The interface of the external social service, as the host sees it.
pub trait ExtSocial {
    /// Publish a reshaped document under the publisher's key.
    fn set(&mut self, data: ProfilePost);
}

/// The source fields that collect into the link tree.
pub open spec fn is_linktree_field(k: Seq<char>) -> bool {
    ||| k == "twitter"@
    ||| k == "github"@
    ||| k == "telegram"@
    ||| k == "website"@
    ||| k == "email"@
    ||| k == "discord"@
}

/// Whether the exported link tree holds key `k`: `website` is present when
/// either `website` or its synonym `url` is stored.
pub open spec fn linktree_has(data: FieldsView, k: Seq<char>) -> bool {
    is_linktree_field(k) && if k == "website"@ {
        data.contains_key("website"@) || data.contains_key("url"@)
    } else {
        data.contains_key(k)
    }
}

/// The exported value under link-tree key `k`: `url` overrides `website`.
pub open spec fn linktree_value(data: FieldsView, k: Seq<char>) -> Seq<char> {
    if k == "website"@ && data.contains_key("url"@) {
        data["url"@]
    } else {
        data[k]
    }
}

/// The source fields that collect into the location.
pub open spec fn is_location_field(k: Seq<char>) -> bool {
    ||| k == "country_code"@
    ||| k == "country"@
    ||| k == "city"@
}

/// The document `doc` is exactly the reshaping of the stored fields `data`
/// with resolved owner `owner`.
pub open spec fn profile_matches(data: FieldsView, owner: Seq<char>, doc: ProfileDocument) -> bool {
    &&& doc.linktree.wf()
    &&& doc.location.wf()
    &&& forall|k: Seq<char>| #[trigger] doc.linktree@.contains_key(k) ==> linktree_has(data, k)
    &&& forall|k: Seq<char>| #[trigger]
        linktree_has(data, k) ==> doc.linktree@.contains_key(k) && doc.linktree@[k]
            == linktree_value(data, k)
    &&& forall|k: Seq<char>| #[trigger]
        doc.location@.contains_key(k) ==> is_location_field(k) && data.contains_key(k)
    &&& forall|k: Seq<char>|
        is_location_field(k) && #[trigger] data.contains_key(k) ==> doc.location@.contains_key(k)
            && doc.location@[k] == data[k]
    &&& (doc.name matches Some(v) ==> data.contains_key("name"@) && v@ == data["name"@])
    &&& (doc.name is None ==> !data.contains_key("name"@))
    &&& (doc.description matches Some(v) ==> data.contains_key("description"@) && v@
        == data["description"@])
    &&& (doc.description is None ==> !data.contains_key("description"@))
    &&& (doc.image_url matches Some(v) ==> data.contains_key("logo"@) && v@ == data["logo"@])
    &&& (doc.image_url is None ==> !data.contains_key("logo"@))
    &&& doc.pool_owner@ == owner
}

impl PoolDetails {
    /// Reshape one pool's stored fields into the profile document and wrap
    /// it as a publication with the supplied payment.
    pub fn internal_social_set_profile_data(
        &self,
        pool_id: String,
        data: FieldMap,
        pool_owner_id: String,
        deposit: u128,
        current_account_id: String,
    ) -> (r: ProfilePost)
        requires
            data.wf(),
        ensures
            r.publisher_account_id == current_account_id,
            r.pool_id == pool_id,
            r.deposit == deposit,
            profile_matches(data@, pool_owner_id@, r.profile),
    {
        let mut linktree = FieldMap::new();
        let tw = "twitter".to_owned();
        if let Some(v) = data.get(&tw) {
            let val = v.clone();
            linktree.insert_field(tw, val);
        }
        let gh = "github".to_owned();
        if let Some(v) = data.get(&gh) {
            let val = v.clone();
            linktree.insert_field(gh, val);
        }
        let tg = "telegram".to_owned();
        if let Some(v) = data.get(&tg) {
            let val = v.clone();
            linktree.insert_field(tg, val);
        }
        let em = "email".to_owned();
        if let Some(v) = data.get(&em) {
            let val = v.clone();
            linktree.insert_field(em, val);
        }
        let dc = "discord".to_owned();
        if let Some(v) = data.get(&dc) {
            let val = v.clone();
            linktree.insert_field(dc, val);
        }
        let url_key = "url".to_owned();
        let website_key = "website".to_owned();
        let website_val: Option<String> = match data.get(&url_key) {
            Some(u) => Some(u.clone()),
            None => match data.get(&website_key) {
                Some(w) => Some(w.clone()),
                None => None,
            },
        };
        if let Some(v) = website_val {
            linktree.insert_field(website_key, v);
        }

        let mut location = FieldMap::new();
        let cc = "country_code".to_owned();
        if let Some(v) = data.get(&cc) {
            let val = v.clone();
            location.insert_field(cc, val);
        }
        let co = "country".to_owned();
        if let Some(v) = data.get(&co) {
            let val = v.clone();
            location.insert_field(co, val);
        }
        let ci = "city".to_owned();
        if let Some(v) = data.get(&ci) {
            let val = v.clone();
            location.insert_field(ci, val);
        }

        let name = match data.get(&"name".to_owned()) {
            Some(v) => Some(v.clone()),
            None => None,
        };
        let description = match data.get(&"description".to_owned()) {
            Some(v) => Some(v.clone()),
            None => None,
        };
        let image_url = match data.get(&"logo".to_owned()) {
            Some(v) => Some(v.clone()),
            None => None,
        };

        let profile = ProfileDocument {
            linktree,
            location,
            name,
            description,
            image_url,
            pool_owner: pool_owner_id,
        };
        proof {
            reveal_strlit("twitter");
            reveal_strlit("github");
            reveal_strlit("telegram");
            reveal_strlit("website");
            reveal_strlit("email");
            reveal_strlit("discord");
            reveal_strlit("url");
            reveal_strlit("country_code");
            reveal_strlit("country");
            reveal_strlit("city");
            reveal_strlit("name");
            reveal_strlit("description");
            reveal_strlit("logo");
        }
        ProfilePost { publisher_account_id: current_account_id, pool_id, profile, deposit }
    }

    /// Wrap the fixed ownership-badge document as a publication; the badge
    /// publication always carries the service's required payment.
    pub fn internal_social_set_badge(
        &self,
        badge: String,
        account_id: String,
        pool_id: String,
        current_account_id: String,
    ) -> (r: BadgePost)
        ensures
            r.publisher_account_id == current_account_id,
            r.badge == badge,
            r.holder_account_id == account_id,
            r.pool_id == pool_id,
            r.deposit == DEPOSIT_FOR_SOCIAL_SET,
    {
        BadgePost {
            publisher_account_id: current_account_id,
            badge,
            holder_account_id: account_id,
            pool_id,
            deposit: DEPOSIT_FOR_SOCIAL_SET,
        }
    }

    /// Accept a badge publication request. The host must attach at least
    /// the service's required payment; it then issues the whitelist check
    /// and the owner lookup and later invokes
    /// [`PoolDetails::on_get_owner_id_for_social_badge`].
    pub fn set_near_social_badge(&self, pool_id: String, attached_deposit: u128) -> (r:
        PendingBadge)
        requires
            attached_deposit >= DEPOSIT_FOR_SOCIAL_SET,
        ensures
            r.pool_id == pool_id,
    {
        PendingBadge { pool_id }
    }

    /// The badge continuation: joined whitelist and owner results. The
    /// whitelist must answer `true`; ownership is not checked — the badge
    /// names whichever owner the pool service resolved. A failure marker
    /// in either slot denies as [`DetailsError::RemoteCallFailure`].
    pub fn on_get_owner_id_for_social_badge(
        &self,
        is_whitelisted: RemoteValue<bool>,
        owner_id: RemoteValue<String>,
        pool_id: String,
        current_account_id: String,
    ) -> (r: Result<BadgePost, DetailsError>)
        ensures
            r is Ok <==> (is_whitelisted == RemoteValue::Resolved(true) && owner_id is Resolved),
            r matches Ok(b) ==> b.badge@ == "staking-pool-owner"@ && b.holder_account_id
                == owner_id->Resolved_0 && b.pool_id == pool_id && b.publisher_account_id
                == current_account_id && b.deposit == DEPOSIT_FOR_SOCIAL_SET,
            r matches Err(e) ==> e == (if is_whitelisted is Failed || owner_id is Failed {
                DetailsError::RemoteCallFailure
            } else {
                DetailsError::PoolNotWhitelisted
            }),
    {
        let whitelisted = match is_whitelisted {
            RemoteValue::Resolved(w) => w,
            RemoteValue::Failed => {
                return Err(DetailsError::RemoteCallFailure);
            },
        };
        let owner = match owner_id {
            RemoteValue::Resolved(o) => o,
            RemoteValue::Failed => {
                return Err(DetailsError::RemoteCallFailure);
            },
        };
        if !whitelisted {
            return Err(DetailsError::PoolNotWhitelisted);
        }
        Ok(self.internal_social_set_badge(
            "staking-pool-owner".to_owned(),
            owner,
            pool_id,
            current_account_id,
        ))
    }

    /// Accept an export request: no whitelist check and no validation —
    /// export is read-only-adjacent. The host issues the owner lookup and
    /// later invokes
    /// [`PoolDetails::on_get_owner_id_for_export_to_near_social`], handing
    /// the attached payment through.
    pub fn export_to_near_social(&self, pool_id: String, attached_deposit: u128) -> (r:
        PendingExport)
        ensures
            r.pool_id == pool_id,
            r.deposit == attached_deposit,
    {
        PendingExport { pool_id, deposit: attached_deposit }
    }

    /// The export continuation: with the owner resolved and a record
    /// present, reshape the record into the profile publication carrying
    /// the attached payment verbatim. An absent record fails with
    /// [`DetailsError::RecordNotFound`]; a failed owner lookup with
    /// [`DetailsError::RemoteCallFailure`].
    pub fn on_get_owner_id_for_export_to_near_social(
        &self,
        owner_id: RemoteValue<String>,
        deposit: u128,
        pool_id: String,
        current_account_id: String,
    ) -> (r: Result<ProfilePost, DetailsError>)
        requires
            self.wf(),
        ensures
            r is Ok <==> (owner_id is Resolved && store_has(self@, pool_id@)),
            r matches Ok(p) ==> p.deposit == deposit && p.pool_id == pool_id
                && p.publisher_account_id == current_account_id && profile_matches(
                store_get(self@, pool_id@),
                owner_id->Resolved_0@,
                p.profile,
            ),
            r matches Err(e) ==> e == (if owner_id is Failed {
                DetailsError::RemoteCallFailure
            } else {
                DetailsError::RecordNotFound
            }),
    {
        let owner = match owner_id {
            RemoteValue::Resolved(o) => o,
            RemoteValue::Failed => {
                return Err(DetailsError::RemoteCallFailure);
            },
        };
        match self.get_fields_by_pool(pool_id.clone()) {
            Some(data) => Ok(
                self.internal_social_set_profile_data(
                    pool_id,
                    data,
                    owner,
                    deposit,
                    current_account_id,
                ),
            ),
            None => Err(DetailsError::RecordNotFound),
        }
    }
}

} // verus!
