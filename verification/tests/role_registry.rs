use role_authz::enums::PermissionGroup;
use role_authz::errors::StorageError;
use role_authz::memory_store::InMemoryRoleStore;
use role_authz::permissions::{get_permissions_of_group, Permission};
use role_authz::roles::{
    get_predefined_role_info, CustomRole, RoleInfo, RoleScope,
};

fn custom_role(role_id: &str, merchant_id: &str, org_id: &str) -> CustomRole {
    CustomRole {
        role_id: role_id.to_string(),
        role_name: format!("{}_name", role_id),
        merchant_id: merchant_id.to_string(),
        org_id: org_id.to_string(),
        groups: vec![
            PermissionGroup::OperationsManage,
            PermissionGroup::AnalyticsView,
        ],
        scope: RoleScope::Merchant,
    }
}

#[test]
fn predefined_table_resolves_known_identifiers() {
    let info = get_predefined_role_info("org_admin").unwrap();
    assert_eq!(info.role_name.as_str(), "organization_admin");
    assert_eq!(info.scope, RoleScope::Organization);
    assert!(info
        .permission_groups
        .contains(&PermissionGroup::OrganizationManage));

    let info = get_predefined_role_info("view_only").unwrap();
    assert_eq!(info.role_name.as_str(), "view_only");
    assert_eq!(info.scope, RoleScope::Merchant);
    assert!(!info
        .permission_groups
        .contains(&PermissionGroup::OrganizationManage));
}

#[test]
fn predefined_table_rejects_unknown_identifiers() {
    assert!(get_predefined_role_info("cr_custom").is_none());
    assert!(get_predefined_role_info("").is_none());
}

#[test]
fn resolution_prefers_the_predefined_table() {
    let mut store = InMemoryRoleStore::new(
        vec![custom_role("cr_1", "m1", "o1")],
        Vec::new(),
        Vec::new(),
    );
    let info =
        RoleInfo::from_role_id(&mut store, "admin", &"m1".to_string(), &"o1".to_string()).unwrap();
    assert_eq!(info.role_name.as_str(), "admin");
    assert_eq!(store.calls_made, 0);
}

#[test]
fn resolution_finds_custom_roles_in_scope() {
    let mut store = InMemoryRoleStore::new(
        vec![
            custom_role("cr_1", "m_other", "o1"),
            custom_role("cr_1", "m1", "o1"),
        ],
        Vec::new(),
        Vec::new(),
    );
    let info =
        RoleInfo::from_role_id(&mut store, "cr_1", &"m1".to_string(), &"o1".to_string()).unwrap();
    assert_eq!(info.role_name.as_str(), "cr_1_name");
    assert_eq!(info.role_id.as_str(), "cr_1");
    assert_eq!(store.calls_made, 1);
}

#[test]
fn resolution_fails_for_absent_custom_role() {
    let mut store = InMemoryRoleStore::new(
        vec![custom_role("cr_1", "m_other", "o1")],
        Vec::new(),
        Vec::new(),
    );
    let r = RoleInfo::from_role_id(&mut store, "cr_1", &"m1".to_string(), &"o1".to_string());
    assert_eq!(r, Err(StorageError::ValueNotFound));
}

#[test]
fn permission_set_expands_groups_without_duplicates() {
    let info = RoleInfo {
        role_id: "cr_1".to_string(),
        role_name: "ops".to_string(),
        permission_groups: vec![
            PermissionGroup::OperationsView,
            PermissionGroup::AnalyticsView,
            PermissionGroup::AnalyticsView,
        ],
        scope: RoleScope::Merchant,
    };
    let mut set = info.get_permissions_set();
    set.sort();
    let mut expected = vec![
        Permission::PaymentRead,
        Permission::RefundRead,
        Permission::MandateRead,
        Permission::DisputeRead,
        Permission::CustomerRead,
        Permission::PayoutRead,
        Permission::Analytics,
        Permission::GenerateReport,
    ];
    expected.sort();
    assert_eq!(set, expected);
}

#[test]
fn group_expansion_is_fixed_data() {
    assert_eq!(
        get_permissions_of_group(&PermissionGroup::UsersManage),
        vec![Permission::UsersWrite]
    );
    assert_eq!(
        get_permissions_of_group(&PermissionGroup::AnalyticsView),
        vec![Permission::Analytics, Permission::GenerateReport]
    );
}
