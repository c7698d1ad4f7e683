use role_authz::enums::{EntityType, PermissionGroup, UserRoleVersion, UserStatus};
use role_authz::memory_store::{InMemoryPermissionCache, InMemoryRoleStore};
use role_authz::permissions::ApiPermission;
use role_authz::roles::{CustomRole, RoleScope};
use role_authz::store::UserRole;
use role_authz::user_role::{
    set_role_permissions_in_cache_by_role_id_merchant_id_org_id,
    set_role_permissions_in_cache_by_user_role, set_role_permissions_in_cache_if_required,
};
use role_authz::JWT_TOKEN_TIME_IN_SECS;

fn custom_role(role_id: &str, groups: Vec<PermissionGroup>) -> CustomRole {
    CustomRole {
        role_id: role_id.to_string(),
        role_name: format!("{}_name", role_id),
        merchant_id: "m1".to_string(),
        org_id: "o1".to_string(),
        groups,
        scope: RoleScope::Merchant,
    }
}

fn user_role(role_id: &str, merchant_id: Option<&str>, org_id: Option<&str>) -> UserRole {
    UserRole {
        user_id: "u1".to_string(),
        role_id: role_id.to_string(),
        merchant_id: merchant_id.map(|s| s.to_string()),
        org_id: org_id.map(|s| s.to_string()),
        profile_id: None,
        entity_type: Some(EntityType::Merchant),
        status: UserStatus::Active,
        last_modified_by: "u1".to_string(),
        version: UserRoleVersion::V1,
    }
}

#[test]
fn predefined_role_skips_store_and_cache() {
    let mut store = InMemoryRoleStore::new(Vec::new(), Vec::new(), Vec::new());
    let mut cache = InMemoryPermissionCache::new();
    let r = set_role_permissions_in_cache_if_required(
        &mut store,
        &mut cache,
        "org_admin",
        &"m1".to_string(),
        &"o1".to_string(),
    );
    assert_eq!(r, Ok(()));
    assert_eq!(store.calls_made, 0);
    assert_eq!(cache.attempts_made, 0);
    assert!(cache.entries.is_empty());
}

#[test]
fn predefined_role_reports_success_as_bool() {
    let mut store = InMemoryRoleStore::new(Vec::new(), Vec::new(), Vec::new());
    let mut cache = InMemoryPermissionCache::new();
    let ok = set_role_permissions_in_cache_by_role_id_merchant_id_org_id(
        &mut store,
        &mut cache,
        "view_only",
        &"m1".to_string(),
        &"o1".to_string(),
    );
    assert!(ok);
    assert_eq!(store.calls_made, 0);
    assert_eq!(cache.attempts_made, 0);
}

#[test]
fn custom_role_is_resolved_and_cached_with_token_ttl() {
    let mut store = InMemoryRoleStore::new(
        vec![custom_role(
            "cr_reporting",
            vec![PermissionGroup::AnalyticsView, PermissionGroup::UsersView],
        )],
        Vec::new(),
        Vec::new(),
    );
    let mut cache = InMemoryPermissionCache::new();
    let r = set_role_permissions_in_cache_if_required(
        &mut store,
        &mut cache,
        "cr_reporting",
        &"m1".to_string(),
        &"o1".to_string(),
    );
    assert_eq!(r, Ok(()));
    assert_eq!(store.calls_made, 1);
    assert_eq!(cache.entries.len(), 1);
    let entry = &cache.entries[0];
    assert_eq!(entry.key.as_str(), "cr_reporting");
    assert_eq!(entry.ttl_seconds, JWT_TOKEN_TIME_IN_SECS as i64);
    let mut cached = entry.permissions.clone();
    cached.sort();
    let mut expected = vec![
        ApiPermission::Analytics,
        ApiPermission::GenerateReport,
        ApiPermission::UsersRead,
    ];
    expected.sort();
    assert_eq!(cached, expected);
}

#[test]
fn unknown_role_fails_without_cache_write() {
    let mut store = InMemoryRoleStore::new(Vec::new(), Vec::new(), Vec::new());
    let mut cache = InMemoryPermissionCache::new();
    let ok = set_role_permissions_in_cache_by_role_id_merchant_id_org_id(
        &mut store,
        &mut cache,
        "cr_missing",
        &"m1".to_string(),
        &"o1".to_string(),
    );
    assert!(!ok);
    assert_eq!(cache.attempts_made, 0);
    assert!(cache.entries.is_empty());
}

#[test]
fn cache_write_failure_is_reported_as_false() {
    let mut store = InMemoryRoleStore::new(
        vec![custom_role("cr_ops", vec![PermissionGroup::OperationsView])],
        Vec::new(),
        Vec::new(),
    );
    let mut cache = InMemoryPermissionCache::new();
    cache.fail_writes = true;
    let ok = set_role_permissions_in_cache_by_role_id_merchant_id_org_id(
        &mut store,
        &mut cache,
        "cr_ops",
        &"m1".to_string(),
        &"o1".to_string(),
    );
    assert!(!ok);
    assert_eq!(cache.attempts_made, 1);
    assert!(cache.entries.is_empty());
}

#[test]
fn user_role_without_merchant_id_is_not_cached() {
    let mut store = InMemoryRoleStore::new(Vec::new(), Vec::new(), Vec::new());
    let mut cache = InMemoryPermissionCache::new();
    let row = user_role("cr_ops", None, Some("o1"));
    let ok = set_role_permissions_in_cache_by_user_role(&mut store, &mut cache, &row);
    assert!(!ok);
    assert_eq!(store.calls_made, 0);
    assert_eq!(cache.attempts_made, 0);
}

#[test]
fn user_role_without_org_id_is_not_cached() {
    let mut store = InMemoryRoleStore::new(Vec::new(), Vec::new(), Vec::new());
    let mut cache = InMemoryPermissionCache::new();
    let row = user_role("cr_ops", Some("m1"), None);
    let ok = set_role_permissions_in_cache_by_user_role(&mut store, &mut cache, &row);
    assert!(!ok);
    assert_eq!(store.calls_made, 0);
    assert_eq!(cache.attempts_made, 0);
}

#[test]
fn user_role_with_full_scope_is_cached() {
    let mut store = InMemoryRoleStore::new(
        vec![custom_role("cr_ops", vec![PermissionGroup::OperationsView])],
        Vec::new(),
        Vec::new(),
    );
    let mut cache = InMemoryPermissionCache::new();
    let row = user_role("cr_ops", Some("m1"), Some("o1"));
    let ok = set_role_permissions_in_cache_by_user_role(&mut store, &mut cache, &row);
    assert!(ok);
    assert_eq!(cache.entries.len(), 1);
    assert_eq!(cache.entries[0].key.as_str(), "cr_ops");
}
