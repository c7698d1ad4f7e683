use role_authz::enums::PermissionGroup;
use role_authz::errors::UserErrors;
use role_authz::memory_store::InMemoryRoleStore;
use role_authz::roles::{CustomRole, RoleName, RoleScope};
use role_authz::user_role::{role_name_in_listing, validate_role_name};

fn custom_role(role_id: &str, role_name: &str, merchant_id: &str, org_id: &str) -> CustomRole {
    CustomRole {
        role_id: role_id.to_string(),
        role_name: role_name.to_string(),
        merchant_id: merchant_id.to_string(),
        org_id: org_id.to_string(),
        groups: vec![PermissionGroup::OperationsView],
        scope: RoleScope::Merchant,
    }
}

fn store_with(roles: Vec<CustomRole>) -> InMemoryRoleStore {
    InMemoryRoleStore::new(roles, Vec::new(), Vec::new())
}

#[test]
fn rejects_predefined_role_name_in_any_scope() {
    let mut store = store_with(Vec::new());
    let name = RoleName::new("organization_admin".to_string()).unwrap();
    let r = validate_role_name(
        &mut store,
        &name,
        &"m_any".to_string(),
        &"o_any".to_string(),
    );
    assert_eq!(r, Err(UserErrors::RoleNameAlreadyExists));
}

#[test]
fn rejects_predefined_admin_name() {
    let mut store = store_with(Vec::new());
    let name = RoleName::new("admin".to_string()).unwrap();
    let r = validate_role_name(&mut store, &name, &"m1".to_string(), &"o1".to_string());
    assert_eq!(r, Err(UserErrors::RoleNameAlreadyExists));
}

#[test]
fn rejects_custom_name_in_same_scope() {
    let mut store = store_with(vec![custom_role("cr_1", "night_shift", "m1", "o1")]);
    let name = RoleName::new("night_shift".to_string()).unwrap();
    let r = validate_role_name(&mut store, &name, &"m1".to_string(), &"o1".to_string());
    assert_eq!(r, Err(UserErrors::RoleNameAlreadyExists));
}

#[test]
fn accepts_same_name_in_other_scope() {
    let mut store = store_with(vec![custom_role("cr_1", "night_shift", "m2", "o1")]);
    let name = RoleName::new("night_shift".to_string()).unwrap();
    let r = validate_role_name(&mut store, &name, &"m1".to_string(), &"o1".to_string());
    assert_eq!(r, Ok(()));
}

#[test]
fn name_matching_is_case_sensitive() {
    let mut store = store_with(vec![custom_role("cr_1", "Night_Shift", "m1", "o1")]);
    let name = RoleName::new("night_shift".to_string()).unwrap();
    let r = validate_role_name(&mut store, &name, &"m1".to_string(), &"o1".to_string());
    assert_eq!(r, Ok(()));
}

#[test]
fn listing_failure_becomes_internal_server_error() {
    let mut store = store_with(Vec::new());
    store.fail_listing = true;
    let name = RoleName::new("fresh_name".to_string()).unwrap();
    let r = validate_role_name(&mut store, &name, &"m1".to_string(), &"o1".to_string());
    assert_eq!(r, Err(UserErrors::InternalServerError));
}

#[test]
fn listing_membership_is_exact() {
    let listing = vec![
        custom_role("cr_1", "night_shift", "m1", "o1"),
        custom_role("cr_2", "day_shift", "m1", "o1"),
    ];
    assert!(role_name_in_listing(&listing, &"day_shift".to_string()));
    assert!(!role_name_in_listing(&listing, &"weekend_shift".to_string()));
    assert!(!role_name_in_listing(&Vec::new(), &"day_shift".to_string()));
}

#[test]
fn always_consults_the_store_listing() {
    let mut store = store_with(Vec::new());
    let name = RoleName::new("fresh_name".to_string()).unwrap();
    let r = validate_role_name(&mut store, &name, &"m1".to_string(), &"o1".to_string());
    assert_eq!(r, Ok(()));
    assert_eq!(store.calls_made, 1);
}
