//! The role operations: validation of role definitions, permission
//! caching, the dual-version role update, and merchant resolution.

use vstd::prelude::*;

use crate::enums::{EntityType, PermissionGroup, UserRoleVersion};
use crate::errors::UserErrors;
use crate::permissions::{api_permissions_of_seq, to_api_permissions, Permission};
use crate::roles::{
    find_custom_role, is_permission_set_of, is_predefined_role, is_predefined_role_id,
    is_predefined_role_name, matches_predefined_role_name, RoleInfo, RoleName,
};
use crate::store::{
    accounts_in_org, first_matching_row, opt_string_view, roles_in_scope, update_matching_rows,
    CacheWriteV, LineageKeyV, PermissionCache, RoleStore, UserRole, UserRoleUpdate,
};
use crate::JWT_TOKEN_TIME_IN_SECS;

verus! {

/// An API-layer permission list that is the projection of some
/// expansion of `groups`.
pub open spec fn is_cached_permission_seq(
    api_perms: Seq<crate::permissions::ApiPermission>,
    groups: Seq<PermissionGroup>,
) -> bool {
    exists|perms: Seq<Permission>|
        is_permission_set_of(perms, groups) && api_perms == #[trigger] api_permissions_of_seq(
            perms,
        )
}

/// Accepts a permission-group list exactly when it is non-empty,
/// duplicate-free, and free of the reserved `OrganizationManage`
/// group.
pub fn validate_role_groups(groups: &[PermissionGroup]) -> (r: Result<(), UserErrors>)
    ensures
        r is Ok <==> (groups@.len() > 0 && !groups@.contains(PermissionGroup::OrganizationManage)
            && groups@.no_duplicates()),
        r matches Err(e) ==> e == UserErrors::InvalidRoleOperation,
{
    if groups.len() == 0 {
        return Err(UserErrors::InvalidRoleOperation);
    }
    let mut i: usize = 0;
    while i < groups.len()
        invariant
            i <= groups@.len(),
            forall|j: int| 0 <= j < i ==> groups@[j] != PermissionGroup::OrganizationManage,
        decreases groups@.len() - i,
    {
        if groups[i] == PermissionGroup::OrganizationManage {
            proof {
                assert(groups@[i as int] == PermissionGroup::OrganizationManage);
                assert(groups@.contains(PermissionGroup::OrganizationManage));
            }
            return Err(UserErrors::InvalidRoleOperation);
        }
        i += 1;
    }
    let mut a: usize = 0;
    while a < groups.len()
        invariant
            a <= groups@.len(),
            forall|x: int, y: int| 0 <= x < a && x < y < groups@.len() ==> groups@[x] != groups@[y],
        decreases groups@.len() - a,
    {
        let mut b: usize = a + 1;
        while b < groups.len()
            invariant
                a < b,
                b <= groups@.len(),
                a < groups@.len(),
                forall|x: int, y: int| 0 <= x < a && x < y < groups@.len() ==> groups@[x]
                    != groups@[y],
                forall|y: int| a < y < b ==> groups@[a as int] != groups@[y],
            decreases groups@.len() - b,
        {
            if groups[a] == groups[b] {
                proof {
                    assert(groups@[a as int] == groups@[b as int]);
                    assert(!groups@.no_duplicates());
                }
                return Err(UserErrors::InvalidRoleOperation);
            }
            b += 1;
        }
        a += 1;
    }
    proof {
        assert forall|x: int, y: int|
            0 <= x < groups@.len() && 0 <= y < groups@.len() && x != y implies groups@[x]
            != groups@[y] by {
            if x < y {
            } else {
                assert(0 <= y < groups@.len() && y < x < groups@.len());
            }
        };
    }
    Ok(())
}

/// Whether a custom role named `name` already exists in the
/// `(merchant_id, org_id)` scope.
pub open spec fn name_in_custom_roles(
    roles: Seq<crate::roles::CustomRoleV>,
    name: Seq<char>,
    merchant_id: Seq<char>,
    org_id: Seq<char>,
) -> bool {
    exists|i: int|
        0 <= i < roles_in_scope(roles, merchant_id, org_id).len() && #[trigger] roles_in_scope(
            roles,
            merchant_id,
            org_id,
        )[i].role_name == name
}

/// Accepts a candidate role name exactly when it collides with no
/// predefined role name and no custom role already stored for the
/// `(merchant_id, org_id)` scope. The store listing itself may fail;
/// that failure surfaces as `InternalServerError`.
pub fn validate_role_name<S: RoleStore>(
    store: &mut S,
    role_name: &RoleName,
    merchant_id: &String,
    org_id: &String,
) -> (r: Result<(), UserErrors>)
    ensures
        final(store).roles() == old(store).roles(),
        final(store).user_roles() == old(store).user_roles(),
        final(store).merchant_accounts() == old(store).merchant_accounts(),
        final(store).store_calls() == old(store).store_calls() + 1,
        r is Ok ==> !is_predefined_role_name(role_name@) && !name_in_custom_roles(
            old(store).roles(),
            role_name@,
            merchant_id@,
            org_id@,
        ),
        is_predefined_role_name(role_name@) ==> r is Err,
        name_in_custom_roles(old(store).roles(), role_name@, merchant_id@, org_id@) ==> r is Err,
        r matches Err(e) ==> e == UserErrors::RoleNameAlreadyExists || e
            == UserErrors::InternalServerError,
        r matches Err(e) && e == UserErrors::RoleNameAlreadyExists ==> (is_predefined_role_name(
            role_name@,
        ) || name_in_custom_roles(old(store).roles(), role_name@, merchant_id@, org_id@)),
{
    let name = role_name.get_role_name();
    let is_present_in_predefined_roles = matches_predefined_role_name(name.as_str());

    let listed = store.list_all_roles(merchant_id, org_id);
    let ghost scoped = roles_in_scope(old(store).roles(), merchant_id@, org_id@);
    match listed {
        Err(_) => Err(UserErrors::InternalServerError),
        Ok(v) => {
            let is_present_in_custom_roles = role_name_in_listing(&v, name);
            proof {
                if is_present_in_custom_roles {
                    let i = choose|i: int|
                        0 <= i < v@.len() && (#[trigger] v@[i])@.role_name == name@;
                    assert(scoped[i] == v@[i]@);
                    assert(scoped[i].role_name == name@);
                } else {
                    if name_in_custom_roles(old(store).roles(), role_name@, merchant_id@, org_id@) {
                        let j = choose|j: int|
                            0 <= j < roles_in_scope(
                                old(store).roles(),
                                merchant_id@,
                                org_id@,
                            ).len() && #[trigger] roles_in_scope(
                                old(store).roles(),
                                merchant_id@,
                                org_id@,
                            )[j].role_name == role_name@;
                        assert(v@[j]@.role_name == name@);
                    }
                }
            }
            if is_present_in_predefined_roles || is_present_in_custom_roles {
                return Err(UserErrors::RoleNameAlreadyExists);
            }
            Ok(())
        },
    }
}

/// Whether some role of the listing bears `name`, character for
/// character.
pub fn role_name_in_listing(v: &Vec<crate::roles::CustomRole>, name: &String) -> (r: bool)
    ensures
        r == exists|i: int| 0 <= i < v@.len() && (#[trigger] v@[i])@.role_name == name@,
{
    let mut i: usize = 0;
    while i < v.len()
        invariant
            i <= v.len(),
            forall|j: int| 0 <= j < i ==> (#[trigger] v@[j])@.role_name != name@,
        decreases v.len() - i,
    {
        if crate::text::string_eq(v[i].role_name.as_str(), name.as_str()) {
            proof {
                assert(v@[i as int]@.role_name == name@);
            }
            return true;
        }
        i += 1;
    }
    false
}

/// Resolves a custom role and writes its permission set to the cache
/// with the token lifetime as time-to-live. For a predefined role this
/// is a no-op: its permissions need no caching.
pub fn set_role_permissions_in_cache_if_required<S: RoleStore, C: PermissionCache>(
    store: &mut S,
    cache: &mut C,
    role_id: &str,
    merchant_id: &String,
    org_id: &String,
) -> (r: Result<(), UserErrors>)
    ensures
        final(store).roles() == old(store).roles(),
        final(store).user_roles() == old(store).user_roles(),
        final(store).merchant_accounts() == old(store).merchant_accounts(),
        is_predefined_role_id(role_id@) ==> {
            &&& r is Ok
            &&& final(store).store_calls() == old(store).store_calls()
            &&& final(cache).writes() == old(cache).writes()
            &&& final(cache).write_attempts() == old(cache).write_attempts()
        },
        !is_predefined_role_id(role_id@) ==> {
            &&& final(store).store_calls() == old(store).store_calls() + 1
            &&& (r is Ok ==> ({
                let found = find_custom_role(old(store).roles(), role_id@, merchant_id@, org_id@);
                let w = final(cache).writes().last();
                &&& found matches Some(c) && is_cached_permission_seq(w.permissions, c.groups)
                &&& final(cache).writes() == old(cache).writes().push(w)
                &&& w.key == role_id@
                &&& w.ttl_seconds == JWT_TOKEN_TIME_IN_SECS as int
            }))
            &&& (r is Err ==> final(cache).writes() == old(cache).writes())
            &&& (find_custom_role(old(store).roles(), role_id@, merchant_id@, org_id@) is None
                ==> r is Err)
            &&& (r matches Err(e) ==> e == UserErrors::InternalServerError)
        },
{
    if is_predefined_role(role_id) {
        return Ok(());
    }

    let resolved = RoleInfo::from_role_id(store, role_id, merchant_id, org_id);
    let role_info = match resolved {
        Ok(info) => info,
        Err(_) => {
            return Err(UserErrors::InternalServerError);
        },
    };

    let perms = role_info.get_permissions_set();
    let api_perms = to_api_permissions(&perms);
    let ghost ap = api_perms@;
    let written = cache.set_with_ttl(role_id, api_perms, crate::jwt_ttl_seconds());
    match written {
        Ok(()) => {
            proof {
                let c = find_custom_role(
                    old(store).roles(),
                    role_id@,
                    merchant_id@,
                    org_id@,
                ).unwrap();
                assert(is_permission_set_of(perms@, c.groups));
                assert(ap == api_permissions_of_seq(perms@));
                assert(is_cached_permission_seq(ap, c.groups));
            }
            Ok(())
        },
        Err(_) => Err(UserErrors::InternalServerError),
    }
}

/// Caches a role's permissions, reporting success as a boolean; any
/// failure is swallowed, since caching is a best-effort optimization.
pub fn set_role_permissions_in_cache_by_role_id_merchant_id_org_id<
    S: RoleStore,
    C: PermissionCache,
>(
    store: &mut S,
    cache: &mut C,
    role_id: &str,
    merchant_id: &String,
    org_id: &String,
) -> (r: bool)
    ensures
        final(store).roles() == old(store).roles(),
        final(store).user_roles() == old(store).user_roles(),
        final(store).merchant_accounts() == old(store).merchant_accounts(),
        is_predefined_role_id(role_id@) ==> {
            &&& r
            &&& final(store).store_calls() == old(store).store_calls()
            &&& final(cache).writes() == old(cache).writes()
            &&& final(cache).write_attempts() == old(cache).write_attempts()
        },
        !is_predefined_role_id(role_id@) ==> {
            &&& final(store).store_calls() == old(store).store_calls() + 1
            &&& (r ==> ({
                let found = find_custom_role(old(store).roles(), role_id@, merchant_id@, org_id@);
                let w = final(cache).writes().last();
                &&& found matches Some(c) && is_cached_permission_seq(w.permissions, c.groups)
                &&& final(cache).writes() == old(cache).writes().push(w)
                &&& w.key == role_id@
                &&& w.ttl_seconds == JWT_TOKEN_TIME_IN_SECS as int
            }))
            &&& (!r ==> final(cache).writes() == old(cache).writes())
            &&& (find_custom_role(old(store).roles(), role_id@, merchant_id@, org_id@) is None
                ==> !r)
        },
{
    let outcome = set_role_permissions_in_cache_if_required(
        store,
        cache,
        role_id,
        merchant_id,
        org_id,
    );
    outcome.is_ok()
}

/// Caches the permissions of the role a user-role row names. A row
/// without both a merchant and an organization scope cannot be cached
/// meaningfully: the call is a no-op reporting failure.
pub fn set_role_permissions_in_cache_by_user_role<S: RoleStore, C: PermissionCache>(
    store: &mut S,
    cache: &mut C,
    user_role: &UserRole,
) -> (r: bool)
    ensures
        final(store).roles() == old(store).roles(),
        final(store).user_roles() == old(store).user_roles(),
        final(store).merchant_accounts() == old(store).merchant_accounts(),
        user_role.merchant_id is None || user_role.org_id is None ==> {
            &&& !r
            &&& final(store).store_calls() == old(store).store_calls()
            &&& final(cache).writes() == old(cache).writes()
            &&& final(cache).write_attempts() == old(cache).write_attempts()
        },
        user_role.merchant_id matches Some(m) ==> user_role.org_id matches Some(o) ==> {
            &&& (is_predefined_role_id(user_role.role_id@) ==> {
                &&& r
                &&& final(store).store_calls() == old(store).store_calls()
                &&& final(cache).writes() == old(cache).writes()
                &&& final(cache).write_attempts() == old(cache).write_attempts()
            })
            &&& (!is_predefined_role_id(user_role.role_id@) ==> {
                &&& final(store).store_calls() == old(store).store_calls() + 1
                &&& (r ==> ({
                    let found = find_custom_role(old(store).roles(), user_role.role_id@, m@, o@);
                    let w = final(cache).writes().last();
                    &&& found matches Some(c) && is_cached_permission_seq(w.permissions, c.groups)
                    &&& final(cache).writes() == old(cache).writes().push(w)
                    &&& w.key == user_role.role_id@
                    &&& w.ttl_seconds == JWT_TOKEN_TIME_IN_SECS as int
                }))
                &&& (!r ==> final(cache).writes() == old(cache).writes())
                &&& (find_custom_role(old(store).roles(), user_role.role_id@, m@, o@) is None
                    ==> !r)
            })
        },
{
    let merchant_id = match &user_role.merchant_id {
        Some(m) => m,
        None => {
            return false;
        },
    };
    let org_id = match &user_role.org_id {
        Some(o) => o,
        None => {
            return false;
        },
    };
    set_role_permissions_in_cache_by_role_id_merchant_id_org_id(
        store,
        cache,
        user_role.role_id.as_str(),
        merchant_id,
        org_id,
    )
}

/// Applies one logical update to a user's role assignment under both
/// schema versions, sequentially. Both attempts always execute; the
/// pair reports each outcome independently, and reconciling a partial
/// failure is the caller's decision.
pub fn update_v1_and_v2_user_roles_in_db<S: RoleStore>(
    store: &mut S,
    user_id: &str,
    org_id: &String,
    merchant_id: &String,
    profile_id: Option<&String>,
    update: &UserRoleUpdate,
) -> (r: (
    Result<UserRole, crate::errors::StorageError>,
    Result<UserRole, crate::errors::StorageError>,
))
    ensures
        final(store).roles() == old(store).roles(),
        final(store).merchant_accounts() == old(store).merchant_accounts(),
        final(store).store_calls() == old(store).store_calls() + 2,
        ({
            let key1 = LineageKeyV {
                user_id: user_id@,
                org_id: org_id@,
                merchant_id: merchant_id@,
                profile_id: opt_string_view(profile_id),
                version: UserRoleVersion::V1,
            };
            let key2 = LineageKeyV {
                user_id: user_id@,
                org_id: org_id@,
                merchant_id: merchant_id@,
                profile_id: opt_string_view(profile_id),
                version: UserRoleVersion::V2,
            };
            let rows0 = old(store).user_roles();
            let rows1 = if r.0 is Ok {
                update_matching_rows(rows0, key1, update@)
            } else {
                rows0
            };
            &&& (r.0 matches Ok(row) ==> first_matching_row(rows0, key1) matches Some(m) && row@
                == crate::store::apply_user_role_update(m, update@))
            &&& (first_matching_row(rows0, key1) is None ==> r.0 is Err)
            &&& (r.1 matches Ok(row) ==> first_matching_row(rows1, key2) matches Some(m) && row@
                == crate::store::apply_user_role_update(m, update@) && final(store).user_roles()
                == update_matching_rows(rows1, key2, update@))
            &&& (r.1 is Err ==> final(store).user_roles() == rows1)
            &&& (first_matching_row(rows1, key2) is None ==> r.1 is Err)
        }),
{
    let updated_v1_role = store.update_user_role_by_user_id_and_lineage(
        user_id,
        org_id,
        merchant_id,
        profile_id,
        update,
        UserRoleVersion::V1,
    );

    let updated_v2_role = store.update_user_role_by_user_id_and_lineage(
        user_id,
        org_id,
        merchant_id,
        profile_id,
        update,
        UserRoleVersion::V2,
    );

    (updated_v1_role, updated_v2_role)
}

/// Resolves a user-role row to one concrete merchant identifier: the
/// first merchant account of the organization for an
/// organization-scoped role, the row's own merchant otherwise.
pub fn get_single_merchant_id<S: RoleStore>(store: &mut S, user_role: &UserRole) -> (r: Result<
    String,
    UserErrors,
>)
    ensures
        final(store).roles() == old(store).roles(),
        final(store).user_roles() == old(store).user_roles(),
        final(store).merchant_accounts() == old(store).merchant_accounts(),
        user_role.entity_type == Some(EntityType::Organization) ==> {
            &&& (user_role.org_id is None ==> (r matches Err(e) && e
                == UserErrors::InternalServerError) && final(store).store_calls() == old(
                store,
            ).store_calls())
            &&& (user_role.org_id matches Some(o) ==> {
                let accounts = accounts_in_org(old(store).merchant_accounts(), o@);
                &&& final(store).store_calls() == old(store).store_calls() + 1
                &&& (r matches Ok(m) ==> accounts.len() > 0 && m@ == accounts[0].merchant_id)
                &&& (accounts.len() == 0 ==> r is Err)
                &&& (r matches Err(e) ==> e == UserErrors::InternalServerError)
            })
        },
        user_role.entity_type != Some(EntityType::Organization) ==> {
            &&& final(store).store_calls() == old(store).store_calls()
            &&& (user_role.merchant_id matches Some(m) ==> r matches Ok(mm) && mm@ == m@)
            &&& (user_role.merchant_id is None ==> (r matches Err(e) && e
                == UserErrors::InternalServerError))
        },
{
    match user_role.entity_type {
        Some(EntityType::Organization) => {
            let org_id = match &user_role.org_id {
                Some(o) => o,
                None => {
                    return Err(UserErrors::InternalServerError);
                },
            };
            let listed = store.list_merchant_accounts_by_organization_id(org_id);
            match listed {
                Err(_) => Err(UserErrors::InternalServerError),
                Ok(accounts) => {
                    if accounts.len() == 0 {
                        Err(UserErrors::InternalServerError)
                    } else {
                        proof {
                            assert(crate::store::merchant_accounts_view(accounts@)[0]
                                == accounts@[0]@);
                        }
                        Ok(accounts[0].get_id().clone())
                    }
                },
            }
        },
        _ => {
            match &user_role.merchant_id {
                Some(m) => Ok(m.clone()),
                None => Err(UserErrors::InternalServerError),
            }
        },
    }
}

} // verus!
