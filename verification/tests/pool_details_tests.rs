use pool_details::{DetailsError, FieldMap, PoolDetails, RemoteValue};

fn s(x: &str) -> String {
    x.to_string()
}

fn authorized_write(store: &mut PoolDetails, pool: &str, name: &str, value: &str, owner: &str) {
    let pending = store
        .update_field(s(pool), s(name), s(value), s(owner))
        .expect("valid request");
    let r = store.on_get_owner_id(
        RemoteValue::Resolved(true),
        RemoteValue::Resolved(s(owner)),
        pending.requester_account_id,
        pending.pool_id,
        pending.name,
        pending.value,
    );
    assert!(r.is_ok());
}

#[test]
fn authorized_write_commits_field() {
    let mut store = PoolDetails::new();
    authorized_write(&mut store, "alpha.pool", "twitter", "@alice", "alice");
    let fields = store.get_fields_by_pool(s("alpha.pool")).expect("record exists");
    assert_eq!(fields.len(), 1);
    assert_eq!(fields.get(&s("twitter")).unwrap().as_str(), "@alice");
}

#[test]
fn authorized_write_merges_with_prior_fields() {
    let mut store = PoolDetails::new();
    authorized_write(&mut store, "alpha.pool", "twitter", "@alice", "alice");
    authorized_write(&mut store, "alpha.pool", "country", "US", "alice");
    let fields = store.get_fields_by_pool(s("alpha.pool")).unwrap();
    assert_eq!(fields.len(), 2);
    assert_eq!(fields.get(&s("twitter")).unwrap().as_str(), "@alice");
    assert_eq!(fields.get(&s("country")).unwrap().as_str(), "US");
}

#[test]
fn foreign_owner_is_denied_and_store_unchanged() {
    let mut store = PoolDetails::new();
    authorized_write(&mut store, "alpha.pool", "twitter", "@alice", "alice");
    let r = store.on_get_owner_id(
        RemoteValue::Resolved(true),
        RemoteValue::Resolved(s("alice")),
        s("bob"),
        s("alpha.pool"),
        s("twitter"),
        s("@bob"),
    );
    let e = r.unwrap_err();
    assert!(matches!(
        e,
        DetailsError::NotPoolOwner { ref owner_id, ref requester_id }
            if owner_id == "alice" && requester_id == "bob"
    ));
    assert!(e.is_authorization_denied());
    let fields = store.get_fields_by_pool(s("alpha.pool")).unwrap();
    assert_eq!(fields.len(), 1);
    assert_eq!(fields.get(&s("twitter")).unwrap().as_str(), "@alice");
}

#[test]
fn unwhitelisted_pool_is_denied_and_store_unchanged() {
    let mut store = PoolDetails::new();
    let r = store.on_get_owner_id(
        RemoteValue::Resolved(false),
        RemoteValue::Resolved(s("alice")),
        s("alice"),
        s("alpha.pool"),
        s("twitter"),
        s("@alice"),
    );
    assert!(matches!(r.unwrap_err(), DetailsError::PoolNotWhitelisted));
    assert!(store.get_fields_by_pool(s("alpha.pool")).is_none());
    assert_eq!(store.get_num_pools(), 0);
}

#[test]
fn failed_remote_call_denies_closed() {
    let mut store = PoolDetails::new();
    let r = store.on_get_owner_id(
        RemoteValue::Failed,
        RemoteValue::Resolved(s("alice")),
        s("alice"),
        s("alpha.pool"),
        s("twitter"),
        s("@alice"),
    );
    assert!(matches!(r.unwrap_err(), DetailsError::RemoteCallFailure));
    let r = store.on_get_owner_id(
        RemoteValue::Resolved(true),
        RemoteValue::Failed,
        s("alice"),
        s("alpha.pool"),
        s("twitter"),
        s("@alice"),
    );
    assert!(matches!(r.unwrap_err(), DetailsError::RemoteCallFailure));
    assert_eq!(store.get_num_pools(), 0);
}

#[test]
fn repeated_write_is_idempotent() {
    let mut store = PoolDetails::new();
    authorized_write(&mut store, "alpha.pool", "twitter", "@alice", "alice");
    authorized_write(&mut store, "alpha.pool", "twitter", "@alice", "alice");
    assert_eq!(store.get_num_pools(), 1);
    let fields = store.get_fields_by_pool(s("alpha.pool")).unwrap();
    assert_eq!(fields.len(), 1);
    assert_eq!(fields.get(&s("twitter")).unwrap().as_str(), "@alice");
}

#[test]
fn overwrite_keeps_one_entry_with_latest_value() {
    let mut store = PoolDetails::new();
    authorized_write(&mut store, "alpha.pool", "twitter", "@old", "alice");
    authorized_write(&mut store, "alpha.pool", "twitter", "@new", "alice");
    let fields = store.get_fields_by_pool(s("alpha.pool")).unwrap();
    assert_eq!(fields.len(), 1);
    assert_eq!(fields.get(&s("twitter")).unwrap().as_str(), "@new");
}

#[test]
fn validation_bounds_are_exact() {
    let store = PoolDetails::new();
    let name_100 = "n".repeat(100);
    let name_101 = "n".repeat(101);
    let value_4000 = "v".repeat(4000);
    let value_4001 = "v".repeat(4001);
    assert!(store
        .update_field(s("alpha.pool"), name_100.clone(), value_4000.clone(), s("alice"))
        .is_ok());
    assert!(matches!(
        store.update_field(s("alpha.pool"), name_101, value_4000, s("alice")),
        Err(DetailsError::ValidationError)
    ));
    assert!(matches!(
        store.update_field(s("alpha.pool"), name_100, value_4001, s("alice")),
        Err(DetailsError::ValidationError)
    ));
}

#[test]
fn empty_inputs_are_rejected() {
    let store = PoolDetails::new();
    assert!(matches!(
        store.update_field(s(""), s("twitter"), s("@a"), s("alice")),
        Err(DetailsError::ValidationError)
    ));
    assert!(matches!(
        store.update_field(s("alpha.pool"), s(""), s("@a"), s("alice")),
        Err(DetailsError::ValidationError)
    ));
    assert!(matches!(
        store.update_field(s("alpha.pool"), s("twitter"), s(""), s("alice")),
        Err(DetailsError::ValidationError)
    ));
}

#[test]
fn update_field_captures_the_request() {
    let store = PoolDetails::new();
    let p = store
        .update_field(s("alpha.pool"), s("twitter"), s("@alice"), s("alice"))
        .unwrap();
    assert_eq!(p.pool_id, "alpha.pool");
    assert_eq!(p.name, "twitter");
    assert_eq!(p.value, "@alice");
    assert_eq!(p.requester_account_id, "alice");
}

#[test]
fn pagination_is_a_partition() {
    let mut store = PoolDetails::new();
    for (pool, value) in [("a.pool", "1"), ("b.pool", "2"), ("c.pool", "3"), ("d.pool", "4")] {
        authorized_write(&mut store, pool, "name", value, "alice");
    }
    assert_eq!(store.get_num_pools(), 4);
    let first = store.get_all_fields(0, 2);
    let second = store.get_all_fields(2, 2);
    let whole = store.get_all_fields(0, 4);
    assert_eq!(first.len(), 2);
    assert_eq!(second.len(), 2);
    assert_eq!(whole.len(), 4);
    let rejoined: Vec<&String> = first.iter().chain(second.iter()).map(|e| &e.0).collect();
    let whole_ids: Vec<&String> = whole.iter().map(|e| &e.0).collect();
    assert_eq!(rejoined, whole_ids);
    assert_eq!(whole_ids, vec!["a.pool", "b.pool", "c.pool", "d.pool"]);
}

#[test]
fn pagination_beyond_the_end_is_empty() {
    let mut store = PoolDetails::new();
    authorized_write(&mut store, "a.pool", "name", "1", "alice");
    assert!(store.get_all_fields(5, 10).is_empty());
    assert!(store.get_all_fields(1, 0).is_empty());
    assert_eq!(store.get_all_fields(0, u64::MAX).len(), 1);
}

#[test]
fn lookup_of_many_pools_keeps_order_and_absence() {
    let mut store = PoolDetails::new();
    authorized_write(&mut store, "a.pool", "name", "1", "alice");
    let r = store.get_fields_by_pools(vec![s("missing.pool"), s("a.pool")]);
    assert_eq!(r.len(), 2);
    assert_eq!(r[0].0, "missing.pool");
    assert!(r[0].1.is_none());
    assert_eq!(r[1].0, "a.pool");
    assert_eq!(r[1].1.as_ref().unwrap().get(&s("name")).unwrap().as_str(), "1");
}

#[test]
fn export_reshapes_the_stored_fields() {
    let mut store = PoolDetails::new();
    authorized_write(&mut store, "alpha.pool", "name", "Alice Pool", "alice");
    authorized_write(&mut store, "alpha.pool", "twitter", "@a", "alice");
    authorized_write(&mut store, "alpha.pool", "country", "US", "alice");
    let post = store
        .on_get_owner_id_for_export_to_near_social(
            RemoteValue::Resolved(s("alice")),
            7,
            s("alpha.pool"),
            s("details.near"),
        )
        .unwrap();
    assert_eq!(post.pool_id, "alpha.pool");
    assert_eq!(post.publisher_account_id, "details.near");
    assert_eq!(post.deposit, 7);
    let profile = post.profile;
    assert_eq!(profile.linktree.get(&s("twitter")).unwrap().as_str(), "@a");
    assert_eq!(profile.linktree.len(), 1);
    assert_eq!(profile.location.get(&s("country")).unwrap().as_str(), "US");
    assert_eq!(profile.location.len(), 1);
    assert_eq!(profile.name.as_deref(), Some("Alice Pool"));
    assert!(profile.description.is_none());
    assert!(profile.image_url.is_none());
    assert_eq!(profile.pool_owner, "alice");
}

#[test]
fn url_overrides_website_in_the_link_tree() {
    let mut store = PoolDetails::new();
    authorized_write(&mut store, "alpha.pool", "website", "https://w.example", "alice");
    authorized_write(&mut store, "alpha.pool", "url", "https://u.example", "alice");
    authorized_write(&mut store, "alpha.pool", "unrecognized", "dropped", "alice");
    let post = store
        .on_get_owner_id_for_export_to_near_social(
            RemoteValue::Resolved(s("alice")),
            0,
            s("alpha.pool"),
            s("details.near"),
        )
        .unwrap();
    let profile = post.profile;
    assert_eq!(profile.linktree.len(), 1);
    assert_eq!(
        profile.linktree.get(&s("website")).unwrap().as_str(),
        "https://u.example"
    );
    assert!(profile.linktree.get(&s("unrecognized")).is_none());
}

#[test]
fn export_of_absent_pool_fails() {
    let store = PoolDetails::new();
    let r = store.on_get_owner_id_for_export_to_near_social(
        RemoteValue::Resolved(s("alice")),
        0,
        s("ghost.pool"),
        s("details.near"),
    );
    assert!(matches!(r.unwrap_err(), DetailsError::RecordNotFound));
    let r = store.on_get_owner_id_for_export_to_near_social(
        RemoteValue::Failed,
        0,
        s("ghost.pool"),
        s("details.near"),
    );
    assert!(matches!(r.unwrap_err(), DetailsError::RemoteCallFailure));
}

#[test]
fn badge_names_the_resolved_owner() {
    let store = PoolDetails::new();
    let pending = store.set_near_social_badge(s("alpha.pool"), pool_details::social::DEPOSIT_FOR_SOCIAL_SET);
    let badge = store
        .on_get_owner_id_for_social_badge(
            RemoteValue::Resolved(true),
            RemoteValue::Resolved(s("alice")),
            pending.pool_id,
            s("details.near"),
        )
        .unwrap();
    assert_eq!(badge.badge, "staking-pool-owner");
    assert_eq!(badge.holder_account_id, "alice");
    assert_eq!(badge.pool_id, "alpha.pool");
    assert_eq!(badge.publisher_account_id, "details.near");
    assert_eq!(badge.deposit, pool_details::social::DEPOSIT_FOR_SOCIAL_SET);
}

#[test]
fn badge_is_refused_without_whitelisting() {
    let store = PoolDetails::new();
    let r = store.on_get_owner_id_for_social_badge(
        RemoteValue::Resolved(false),
        RemoteValue::Resolved(s("alice")),
        s("alpha.pool"),
        s("details.near"),
    );
    assert!(matches!(r.unwrap_err(), DetailsError::PoolNotWhitelisted));
    let r = store.on_get_owner_id_for_social_badge(
        RemoteValue::Failed,
        RemoteValue::Resolved(s("alice")),
        s("alpha.pool"),
        s("details.near"),
    );
    assert!(matches!(r.unwrap_err(), DetailsError::RemoteCallFailure));
}

#[test]
fn migration_seeds_the_store_and_republishes() {
    let mut store = PoolDetails::new();
    let mut imported = FieldMap::new();
    imported.insert_field(s("name"), s("Legacy Pool"));
    imported.insert_field(s("twitter"), s("@legacy"));
    let post = store
        .on_get_fields_by_pool(
            RemoteValue::Resolved(Some(imported)),
            RemoteValue::Resolved(s("alice")),
            3,
            s("legacy.pool"),
            s("details.near"),
        )
        .unwrap();
    assert_eq!(post.deposit, 3);
    assert_eq!(post.profile.name.as_deref(), Some("Legacy Pool"));
    assert_eq!(post.profile.linktree.get(&s("twitter")).unwrap().as_str(), "@legacy");
    let fields = store.get_fields_by_pool(s("legacy.pool")).unwrap();
    assert_eq!(fields.len(), 2);
    assert_eq!(fields.get(&s("name")).unwrap().as_str(), "Legacy Pool");
}

#[test]
fn migration_with_nothing_to_import_fails_fatally() {
    let mut store = PoolDetails::new();
    let r = store.on_get_fields_by_pool(
        RemoteValue::Resolved(None),
        RemoteValue::Resolved(s("alice")),
        0,
        s("legacy.pool"),
        s("details.near"),
    );
    assert!(matches!(r.unwrap_err(), DetailsError::MissingPoolDetails));
    assert_eq!(store.get_num_pools(), 0);
    let r = store.on_get_fields_by_pool(
        RemoteValue::Failed,
        RemoteValue::Resolved(s("alice")),
        0,
        s("legacy.pool"),
        s("details.near"),
    );
    assert!(matches!(r.unwrap_err(), DetailsError::RemoteCallFailure));
}

#[test]
fn privilege_check_compares_the_caller_to_the_store() {
    assert!(PoolDetails::assert_self(&s("details.near"), &s("details.near")));
    assert!(!PoolDetails::assert_self(&s("mallory.near"), &s("details.near")));
}

#[test]
fn middle_page_matches_the_whole() {
    let mut store = PoolDetails::new();
    for (pool, value) in [("a.pool", "1"), ("b.pool", "2"), ("c.pool", "3"), ("d.pool", "4")] {
        authorized_write(&mut store, pool, "name", value, "alice");
    }
    let middle = store.get_all_fields(1, 2);
    assert_eq!(middle.len(), 2);
    assert_eq!(middle[0].0, "b.pool");
    assert_eq!(middle[1].0, "c.pool");
    assert_eq!(middle[1].1.get(&s("name")).unwrap().as_str(), "3");
}

#[test]
fn field_pairs_enumerate_every_field_once() {
    let mut fields = FieldMap::new();
    fields.insert_field(s("twitter"), s("@old"));
    fields.insert_field(s("country"), s("US"));
    fields.insert_field(s("twitter"), s("@new"));
    let mut pairs = fields.to_pairs();
    pairs.sort();
    assert_eq!(
        pairs,
        vec![(s("country"), s("US")), (s("twitter"), s("@new"))]
    );
}

#[test]
fn migration_request_captures_pool_and_payment() {
    let store = PoolDetails::new();
    let p = store.migrate_pool_details(s("legacy.pool"), 9);
    assert_eq!(p.pool_id, "legacy.pool");
    assert_eq!(p.deposit, 9);
    let e = store.export_to_near_social(s("legacy.pool"), 11);
    assert_eq!(e.pool_id, "legacy.pool");
    assert_eq!(e.deposit, 11);
}
