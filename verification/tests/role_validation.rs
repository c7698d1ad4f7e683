use role_authz::enums::PermissionGroup;
use role_authz::errors::UserErrors;
use role_authz::roles::RoleName;
use role_authz::user_role::validate_role_groups;

#[test]
fn accepts_non_empty_duplicate_free_groups() {
    let groups = vec![
        PermissionGroup::OperationsView,
        PermissionGroup::AnalyticsView,
        PermissionGroup::UsersView,
    ];
    assert_eq!(validate_role_groups(&groups), Ok(()));
}

#[test]
fn accepts_single_group() {
    let groups = vec![PermissionGroup::ConnectorsManage];
    assert_eq!(validate_role_groups(&groups), Ok(()));
}

#[test]
fn rejects_empty_groups() {
    let groups: Vec<PermissionGroup> = Vec::new();
    assert_eq!(
        validate_role_groups(&groups),
        Err(UserErrors::InvalidRoleOperation)
    );
}

#[test]
fn rejects_reserved_group() {
    let groups = vec![
        PermissionGroup::OperationsView,
        PermissionGroup::OrganizationManage,
    ];
    assert_eq!(
        validate_role_groups(&groups),
        Err(UserErrors::InvalidRoleOperation)
    );
}

#[test]
fn rejects_duplicate_groups() {
    let groups = vec![
        PermissionGroup::OperationsView,
        PermissionGroup::AnalyticsView,
        PermissionGroup::OperationsView,
    ];
    assert_eq!(
        validate_role_groups(&groups),
        Err(UserErrors::InvalidRoleOperation)
    );
}

#[test]
fn role_name_accepts_ordinary_name() {
    let name = RoleName::new("support_readonly".to_string());
    assert!(name.is_ok());
    assert_eq!(name.unwrap().get_role_name().as_str(), "support_readonly");
}

#[test]
fn role_name_rejects_empty_name() {
    assert!(RoleName::new(String::new()).is_err());
}

#[test]
fn role_name_rejects_overlong_name() {
    let long = "x".repeat(65);
    assert!(RoleName::new(long).is_err());
    let just_fits = "x".repeat(64);
    assert!(RoleName::new(just_fits).is_ok());
}
