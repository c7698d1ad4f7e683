//! The role registry: predefined roles, custom roles read from the
//! store, and the resolved [`RoleInfo`] projection used for
//! authorization decisions.

use vstd::prelude::*;
use vstd::string::StringSliceAdditionalSpecFns;

use crate::enums::PermissionGroup;
use crate::errors::{StorageError, UserErrors};
use crate::permissions::{permission_in_groups, Permission};
use crate::store::{custom_roles_view, roles_in_scope, RoleStore};

verus! {

/// Whether a role is shared organization-wide or belongs to one
/// merchant.
#[derive(Clone, Copy, Debug, PartialEq, Eq, Structural)]
pub enum RoleScope {
    Organization,
    Merchant,
}

/// A custom role row, as persisted by the store.
#[derive(Clone, Debug, PartialEq, Eq)]
pub struct CustomRole {
    pub role_id: String,
    pub role_name: String,
    pub merchant_id: String,
    pub org_id: String,
    pub groups: Vec<PermissionGroup>,
    pub scope: RoleScope,
}

/// Mathematical image of a [`CustomRole`].
#[verifier::ext_equal]
pub struct CustomRoleV {
    pub role_id: Seq<char>,
    pub role_name: Seq<char>,
    pub merchant_id: Seq<char>,
    pub org_id: Seq<char>,
    pub groups: Seq<PermissionGroup>,
    pub scope: RoleScope,
}

impl View for CustomRole {
    type V = CustomRoleV;

    open spec fn view(&self) -> CustomRoleV {
        CustomRoleV {
            role_id: self.role_id@,
            role_name: self.role_name@,
            merchant_id: self.merchant_id@,
            org_id: self.org_id@,
            groups: self.groups@,
            scope: self.scope,
        }
    }
}

/// A validated, human-readable role name: non-empty and at most 64
/// bytes.
pub struct RoleName {
    name: String,
}

/// The validity a [`RoleName`] guarantees.
pub open spec fn valid_role_name(name: Seq<char>) -> bool {
    &&& name.len() != 0
    &&& vstd::utf8::encode_utf8(name).len() <= 64
}

impl View for RoleName {
    type V = Seq<char>;

    closed spec fn view(&self) -> Seq<char> {
        self.name@
    }
}

impl RoleName {
    #[verifier::type_invariant]
    closed spec fn wf(&self) -> bool {
        valid_role_name(self.name@)
    }

    /// Accepts a candidate name exactly when it is non-empty and at
    /// most 64 bytes long.
    pub fn new(name: String) -> (r: Result<RoleName, UserErrors>)
        ensures
            r matches Ok(rn) ==> rn@ == name@ && valid_role_name(name@),
            r matches Err(e) ==> e == UserErrors::InvalidRoleOperation && !valid_role_name(name@),
    {
        if name.as_str().is_empty() || name.as_str().as_bytes().len() > 64 {
            Err(UserErrors::InvalidRoleOperation)
        } else {
            Ok(RoleName { name })
        }
    }

    /// The underlying name, known valid.
    pub fn get_role_name(&self) -> (r: &String)
        ensures
            r@ == self@,
            valid_role_name(self@),
    {
        proof {
            use_type_invariant(self);
        }
        &self.name
    }
}

/// The resolved, read-only projection of a role: its name and the
/// groups that carry its permission set.
#[derive(Clone, Debug, PartialEq, Eq)]
pub struct RoleInfo {
    pub role_id: String,
    pub role_name: String,
    pub permission_groups: Vec<PermissionGroup>,
    pub scope: RoleScope,
}

/// Mathematical image of a [`RoleInfo`].
#[verifier::ext_equal]
pub struct RoleInfoV {
    pub role_id: Seq<char>,
    pub role_name: Seq<char>,
    pub permission_groups: Seq<PermissionGroup>,
    pub scope: RoleScope,
}

impl View for RoleInfo {
    type V = RoleInfoV;

    open spec fn view(&self) -> RoleInfoV {
        RoleInfoV {
            role_id: self.role_id@,
            role_name: self.role_name@,
            permission_groups: self.permission_groups@,
            scope: self.scope,
        }
    }
}

/// The projection of a custom role row.
pub open spec fn role_info_of_custom(c: CustomRoleV) -> RoleInfoV {
    RoleInfoV {
        role_id: c.role_id,
        role_name: c.role_name,
        permission_groups: c.groups,
        scope: c.scope,
    }
}

/// A permission list that is exactly the expansion of `groups`:
/// duplicate-free, and holding a permission iff some group bundles it.
pub open spec fn is_permission_set_of(
    perms: Seq<Permission>,
    groups: Seq<PermissionGroup>,
) -> bool {
    &&& perms.no_duplicates()
    &&& forall|p: Permission| #[trigger] perms.contains(p) <==> permission_in_groups(p, groups)
}

/// Whether `id` names a predefined role.
pub open spec fn is_predefined_role_id(id: Seq<char>) -> bool {
    ||| id == "org_admin"@
    ||| id == "admin"@
    ||| id == "view_only"@
    ||| id == "ops_manager"@
    ||| id == "customer_support"@
}

/// Whether `name` is the name of a predefined role.
pub open spec fn is_predefined_role_name(name: Seq<char>) -> bool {
    ||| name == "organization_admin"@
    ||| name == "admin"@
    ||| name == "view_only"@
    ||| name == "operations_manager"@
    ||| name == "customer_support"@
}

/// The compiled-in definition of the predefined role `id` names.
pub open spec fn predefined_role_info_spec(id: Seq<char>) -> RoleInfoV
    recommends
        is_predefined_role_id(id),
{
    if id == "org_admin"@ {
        RoleInfoV {
            role_id: "org_admin"@,
            role_name: "organization_admin"@,
            permission_groups: seq![
                PermissionGroup::OperationsManage,
                PermissionGroup::ConnectorsManage,
                PermissionGroup::WorkflowsManage,
                PermissionGroup::AnalyticsView,
                PermissionGroup::UsersManage,
                PermissionGroup::MerchantDetailsManage,
                PermissionGroup::OrganizationManage,
            ],
            scope: RoleScope::Organization,
        }
    } else if id == "admin"@ {
        RoleInfoV {
            role_id: "admin"@,
            role_name: "admin"@,
            permission_groups: seq![
                PermissionGroup::OperationsManage,
                PermissionGroup::ConnectorsManage,
                PermissionGroup::WorkflowsManage,
                PermissionGroup::AnalyticsView,
                PermissionGroup::UsersManage,
                PermissionGroup::MerchantDetailsView,
            ],
            scope: RoleScope::Merchant,
        }
    } else if id == "view_only"@ {
        RoleInfoV {
            role_id: "view_only"@,
            role_name: "view_only"@,
            permission_groups: seq![
                PermissionGroup::OperationsView,
                PermissionGroup::ConnectorsView,
                PermissionGroup::WorkflowsView,
                PermissionGroup::AnalyticsView,
                PermissionGroup::UsersView,
                PermissionGroup::MerchantDetailsView,
            ],
            scope: RoleScope::Merchant,
        }
    } else if id == "ops_manager"@ {
        RoleInfoV {
            role_id: "ops_manager"@,
            role_name: "operations_manager"@,
            permission_groups: seq![
                PermissionGroup::OperationsManage,
                PermissionGroup::AnalyticsView,
            ],
            scope: RoleScope::Merchant,
        }
    } else {
        RoleInfoV {
            role_id: "customer_support"@,
            role_name: "customer_support"@,
            permission_groups: seq![
                PermissionGroup::OperationsView,
                PermissionGroup::AnalyticsView,
            ],
            scope: RoleScope::Merchant,
        }
    }
}

/// Looks `role_id` up in the predefined-role table.
pub fn get_predefined_role_info(role_id: &str) -> (r: Option<RoleInfo>)
    ensures
        r is Some <==> is_predefined_role_id(role_id@),
        r matches Some(info) ==> info@ == predefined_role_info_spec(role_id@),
{
    if crate::text::string_eq(role_id, "org_admin") {
        let mut g: Vec<PermissionGroup> = Vec::new();
        g.push(PermissionGroup::OperationsManage);
        g.push(PermissionGroup::ConnectorsManage);
        g.push(PermissionGroup::WorkflowsManage);
        g.push(PermissionGroup::AnalyticsView);
        g.push(PermissionGroup::UsersManage);
        g.push(PermissionGroup::MerchantDetailsManage);
        g.push(PermissionGroup::OrganizationManage);
        let info = RoleInfo {
            role_id: "org_admin".to_owned(),
            role_name: "organization_admin".to_owned(),
            permission_groups: g,
            scope: RoleScope::Organization,
        };
        proof {
            assert(info@ =~= predefined_role_info_spec(role_id@));
        }
        Some(info)
    } else if crate::text::string_eq(role_id, "admin") {
        let mut g: Vec<PermissionGroup> = Vec::new();
        g.push(PermissionGroup::OperationsManage);
        g.push(PermissionGroup::ConnectorsManage);
        g.push(PermissionGroup::WorkflowsManage);
        g.push(PermissionGroup::AnalyticsView);
        g.push(PermissionGroup::UsersManage);
        g.push(PermissionGroup::MerchantDetailsView);
        let info = RoleInfo {
            role_id: "admin".to_owned(),
            role_name: "admin".to_owned(),
            permission_groups: g,
            scope: RoleScope::Merchant,
        };
        proof {
            assert(info@ =~= predefined_role_info_spec(role_id@));
        }
        Some(info)
    } else if crate::text::string_eq(role_id, "view_only") {
        let mut g: Vec<PermissionGroup> = Vec::new();
        g.push(PermissionGroup::OperationsView);
        g.push(PermissionGroup::ConnectorsView);
        g.push(PermissionGroup::WorkflowsView);
        g.push(PermissionGroup::AnalyticsView);
        g.push(PermissionGroup::UsersView);
        g.push(PermissionGroup::MerchantDetailsView);
        let info = RoleInfo {
            role_id: "view_only".to_owned(),
            role_name: "view_only".to_owned(),
            permission_groups: g,
            scope: RoleScope::Merchant,
        };
        proof {
            assert(info@ =~= predefined_role_info_spec(role_id@));
        }
        Some(info)
    } else if crate::text::string_eq(role_id, "ops_manager") {
        let mut g: Vec<PermissionGroup> = Vec::new();
        g.push(PermissionGroup::OperationsManage);
        g.push(PermissionGroup::AnalyticsView);
        let info = RoleInfo {
            role_id: "ops_manager".to_owned(),
            role_name: "operations_manager".to_owned(),
            permission_groups: g,
            scope: RoleScope::Merchant,
        };
        proof {
            assert(info@ =~= predefined_role_info_spec(role_id@));
        }
        Some(info)
    } else if crate::text::string_eq(role_id, "customer_support") {
        let mut g: Vec<PermissionGroup> = Vec::new();
        g.push(PermissionGroup::OperationsView);
        g.push(PermissionGroup::AnalyticsView);
        let info = RoleInfo {
            role_id: "customer_support".to_owned(),
            role_name: "customer_support".to_owned(),
            permission_groups: g,
            scope: RoleScope::Merchant,
        };
        proof {
            assert(info@ =~= predefined_role_info_spec(role_id@));
        }
        Some(info)
    } else {
        None
    }
}

/// Whether `role_id` names a predefined role.
pub fn is_predefined_role(role_id: &str) -> (r: bool)
    ensures
        r == is_predefined_role_id(role_id@),
{
    let looked_up = get_predefined_role_info(role_id);
    looked_up.is_some()
}

/// Whether `name` is the name of some predefined role.
pub fn matches_predefined_role_name(name: &str) -> (r: bool)
    ensures
        r == is_predefined_role_name(name@),
{
    crate::text::string_eq(name, "organization_admin") || crate::text::string_eq(name, "admin")
        || crate::text::string_eq(name, "view_only") || crate::text::string_eq(
        name,
        "operations_manager",
    ) || crate::text::string_eq(name, "customer_support")
}

/// The first custom role of the `(merchant_id, org_id)` scope whose
/// identifier is `role_id`, in store order.
pub open spec fn find_custom_role(
    roles: Seq<CustomRoleV>,
    role_id: Seq<char>,
    merchant_id: Seq<char>,
    org_id: Seq<char>,
) -> Option<CustomRoleV> {
    first_role_with_id(roles_in_scope(roles, merchant_id, org_id), role_id)
}

/// The first role of `roles` whose identifier is `role_id`.
pub open spec fn first_role_with_id(roles: Seq<CustomRoleV>, role_id: Seq<char>) -> Option<
    CustomRoleV,
>
    decreases roles.len(),
{
    if roles.len() == 0 {
        None
    } else if roles[0].role_id == role_id {
        Some(roles[0])
    } else {
        first_role_with_id(roles.skip(1), role_id)
    }
}

/// Adds `p` to `out` unless it is already there.
fn insert_unique(out: &mut Vec<Permission>, p: Permission)
    requires
        old(out)@.no_duplicates(),
    ensures
        final(out)@.no_duplicates(),
        forall|q: Permission| #[trigger] final(out)@.contains(q) <==> (old(out)@.contains(q) || q
            == p),
{
    broadcast use vstd::seq_lib::lemma_seq_contains_after_push;

    if !crate::permissions::vec_contains_permission(out, &p) {
        let ghost pre = out@;
        out.push(p);
        proof {
            assert forall|i: int, j: int|
                0 <= i < out@.len() && 0 <= j < out@.len() && i != j implies out@[i]
                != out@[j] by {
                if i < pre.len() && j < pre.len() {
                    assert(out@[i] == pre[i] && out@[j] == pre[j]);
                } else if i == pre.len() && j < pre.len() {
                    assert(out@[i] == p && out@[j] == pre[j]);
                    assert(pre[j] != p) by {
                        if pre[j] == p {
                            assert(pre.contains(p));
                        }
                    };
                } else if j == pre.len() && i < pre.len() {
                    assert(out@[j] == p && out@[i] == pre[i]);
                    assert(pre[i] != p) by {
                        if pre[i] == p {
                            assert(pre.contains(p));
                        }
                    };
                }
            };
        }
    }
}

/// Adding a group to a role extends its permission set by exactly that
/// group's bundle.
proof fn lemma_groups_push(groups: Seq<PermissionGroup>, g: PermissionGroup)
    ensures
        forall|p: Permission|
            permission_in_groups(p, groups.push(g)) <==> (#[trigger] permission_in_groups(p, groups)
                || crate::permissions::group_permissions_spec(g).contains(p)),
{
    let pushed = groups.push(g);
    assert forall|p: Permission|
        permission_in_groups(p, pushed) implies (#[trigger] permission_in_groups(p, groups)
        || crate::permissions::group_permissions_spec(g).contains(p)) by {
        let i = choose|i: int|
            0 <= i < pushed.len() && crate::permissions::group_permissions_spec(pushed[i]).contains(
                p,
            );
        if i < groups.len() {
            assert(pushed[i] == groups[i]);
            assert(crate::permissions::group_permissions_spec(groups[i]).contains(p));
        } else {
            assert(pushed[i] == g);
        }
    };
    assert forall|p: Permission|
        (#[trigger] permission_in_groups(p, groups)
            || crate::permissions::group_permissions_spec(g).contains(p)) implies
        permission_in_groups(p, pushed) by {
        if permission_in_groups(p, groups) {
            let i = choose|i: int|
                0 <= i < groups.len() && crate::permissions::group_permissions_spec(
                    groups[i],
                ).contains(p);
            assert(pushed[i] == groups[i]);
            assert(crate::permissions::group_permissions_spec(pushed[i]).contains(p));
        } else {
            assert(pushed[groups.len() as int] == g);
            assert(crate::permissions::group_permissions_spec(
                pushed[groups.len() as int],
            ).contains(p));
        }
    };
}

impl RoleInfo {
    /// The role's human-readable name.
    pub fn get_role_name(&self) -> (r: &String)
        ensures
            r@ == self@.role_name,
    {
        &self.role_name
    }

    /// The role's identifier.
    pub fn get_role_id(&self) -> (r: &String)
        ensures
            r@ == self@.role_id,
    {
        &self.role_id
    }

    /// The level the role is shared at.
    pub fn get_scope(&self) -> (r: RoleScope)
        ensures
            r == self@.scope,
    {
        self.scope
    }

    /// The groups that carry the role's permissions.
    pub fn get_permission_groups(&self) -> (r: &Vec<PermissionGroup>)
        ensures
            r@ == self@.permission_groups,
    {
        &self.permission_groups
    }

    /// The role's fully expanded permission set: duplicate-free, and
    /// holding a permission exactly when one of the role's groups
    /// bundles it.
    pub fn get_permissions_set(&self) -> (r: Vec<Permission>)
        ensures
            is_permission_set_of(r@, self@.permission_groups),
    {
        broadcast use vstd::seq_lib::lemma_seq_contains_after_push;

        let groups = &self.permission_groups;
        let mut out: Vec<Permission> = Vec::new();
        let mut gi: usize = 0;
        proof {
            assert(groups@.take(0) =~= Seq::<PermissionGroup>::empty());
        }
        while gi < groups.len()
            invariant
                gi <= groups.len(),
                out@.no_duplicates(),
                forall|p: Permission| #[trigger] out@.contains(p) <==> permission_in_groups(
                    p,
                    groups@.take(gi as int),
                ),
            decreases groups.len() - gi,
        {
            broadcast use vstd::seq_lib::lemma_seq_contains_after_push;

            let g = groups[gi];
            let gperms = crate::permissions::get_permissions_of_group(&g);
            let ghost prior = groups@.take(gi as int);
            let mut pi: usize = 0;
            proof {
                assert(gperms@.take(0) =~= Seq::<Permission>::empty());
            }
            while pi < gperms.len()
                invariant
                    pi <= gperms.len(),
                    gperms@ == crate::permissions::group_permissions_spec(g),
                    out@.no_duplicates(),
                    forall|p: Permission| #[trigger] out@.contains(p) <==> (permission_in_groups(
                        p,
                        prior,
                    ) || gperms@.take(pi as int).contains(p)),
                decreases gperms.len() - pi,
            {
                broadcast use vstd::seq_lib::lemma_seq_contains_after_push;

                insert_unique(&mut out, gperms[pi]);
                proof {
                    assert(gperms@.take(pi as int + 1) =~= gperms@.take(pi as int).push(
                        gperms@[pi as int],
                    ));
                }
                pi += 1;
            }
            proof {
                assert(gperms@.take(gperms@.len() as int) =~= gperms@);
                assert(groups@.take(gi as int + 1) =~= prior.push(g));
                lemma_groups_push(prior, g);
                assert forall|p: Permission| #[trigger] out@.contains(p) <==> permission_in_groups(
                    p,
                    groups@.take(gi as int + 1),
                ) by {
                    assert(out@.contains(p) <==> (permission_in_groups(p, prior)
                        || gperms@.contains(p)));
                    assert(permission_in_groups(p, prior.push(g)) <==> (permission_in_groups(
                        p,
                        prior,
                    ) || crate::permissions::group_permissions_spec(g).contains(p)));
                };
            }
            gi += 1;
        }
        proof {
            assert(groups@.take(groups@.len() as int) =~= groups@);
        }
        out
    }

    /// The projection of a custom role row.
    pub fn from_custom_role(role: &CustomRole) -> (r: RoleInfo)
        ensures
            r@ == role_info_of_custom(role@),
    {
        RoleInfo {
            role_id: role.role_id.clone(),
            role_name: role.role_name.clone(),
            permission_groups: crate::text::clone_copy_vec(&role.groups),
            scope: role.scope,
        }
    }

    /// Resolves `role_id` to its [`RoleInfo`]: the predefined table
    /// first, the store's custom roles for the scope otherwise.
    pub fn from_role_id<S: RoleStore>(
        store: &mut S,
        role_id: &str,
        merchant_id: &String,
        org_id: &String,
    ) -> (r: Result<RoleInfo, StorageError>)
        ensures
            final(store).roles() == old(store).roles(),
            final(store).user_roles() == old(store).user_roles(),
            final(store).merchant_accounts() == old(store).merchant_accounts(),
            is_predefined_role_id(role_id@) ==> {
                &&& final(store).store_calls() == old(store).store_calls()
                &&& r matches Ok(info) && info@ == predefined_role_info_spec(role_id@)
            },
            !is_predefined_role_id(role_id@) ==> {
                &&& final(store).store_calls() == old(store).store_calls() + 1
                &&& (r matches Ok(info) ==> find_custom_role(
                    old(store).roles(),
                    role_id@,
                    merchant_id@,
                    org_id@,
                ) matches Some(c) && info@ == role_info_of_custom(c))
                &&& (find_custom_role(old(store).roles(), role_id@, merchant_id@, org_id@)
                    is None ==> r is Err)
            },
    {
        if let Some(info) = get_predefined_role_info(role_id) {
            return Ok(info);
        }
        let listed = store.list_all_roles(merchant_id, org_id);
        match listed {
            Err(e) => Err(e),
            Ok(v) => {
                match find_role_in_listing(&v, role_id) {
                    Some(info) => Ok(info),
                    None => Err(StorageError::ValueNotFound),
                }
            },
        }
    }
}

/// The first role of the listing whose identifier is `role_id`,
/// projected to a [`RoleInfo`].
fn find_role_in_listing(v: &Vec<CustomRole>, role_id: &str) -> (r: Option<RoleInfo>)
    ensures
        r matches Some(info) ==> first_role_with_id(custom_roles_view(v@), role_id@) matches Some(
            c,
        ) && info@ == role_info_of_custom(c),
        r is None <==> first_role_with_id(custom_roles_view(v@), role_id@) is None,
{
    let ghost scoped = custom_roles_view(v@);
    proof {
        assert(scoped.skip(0) =~= scoped);
    }
    let mut i: usize = 0;
    while i < v.len()
        invariant
            i <= v.len(),
            scoped == custom_roles_view(v@),
            first_role_with_id(scoped, role_id@) == first_role_with_id(
                scoped.skip(i as int),
                role_id@,
            ),
        decreases v.len() - i,
    {
        proof {
            assert(scoped[i as int] == v@[i as int]@);
            assert(scoped.skip(i as int)[0] == scoped[i as int]);
        }
        if crate::text::string_eq(v[i].role_id.as_str(), role_id) {
            let info = RoleInfo::from_custom_role(&v[i]);
            proof {
                assert(first_role_with_id(scoped.skip(i as int), role_id@) == Some(
                    scoped[i as int],
                ));
            }
            return Some(info);
        }
        proof {
            assert(scoped.skip(i as int).skip(1) =~= scoped.skip(i as int + 1));
        }
        i += 1;
    }
    proof {
        assert(scoped.skip(v@.len() as int) =~= Seq::<CustomRoleV>::empty());
    }
    None
}

} // verus!
