//! The persistent-store and cache boundaries: row types, the abstract
//! state each collaborator exposes, and the narrow capability traits
//! the role operations are written against.

use vstd::prelude::*;

use crate::enums::{EntityType, UserRoleVersion, UserStatus};
use crate::errors::StorageError;
use crate::permissions::ApiPermission;
use crate::roles::{CustomRole, CustomRoleV};

verus! {

/// Spec-level image of an optional identifier.
pub open spec fn opt_string_view(o: Option<&String>) -> Option<Seq<char>> {
    match o {
        Some(s) => Some(s@),
        None => None,
    }
}

/// Spec-level image of an owned optional identifier.
pub open spec fn opt_owned_view(o: Option<String>) -> Option<Seq<char>> {
    match o {
        Some(s) => Some(s@),
        None => None,
    }
}

/// A user-to-role assignment row, as persisted under either schema
/// version.
#[derive(Clone, Debug, PartialEq, Eq)]
pub struct UserRole {
    pub user_id: String,
    pub role_id: String,
    pub merchant_id: Option<String>,
    pub org_id: Option<String>,
    pub profile_id: Option<String>,
    pub entity_type: Option<EntityType>,
    pub status: UserStatus,
    pub last_modified_by: String,
    pub version: UserRoleVersion,
}

/// Mathematical image of a [`UserRole`] row.
#[verifier::ext_equal]
pub struct UserRoleV {
    pub user_id: Seq<char>,
    pub role_id: Seq<char>,
    pub merchant_id: Option<Seq<char>>,
    pub org_id: Option<Seq<char>>,
    pub profile_id: Option<Seq<char>>,
    pub entity_type: Option<EntityType>,
    pub status: UserStatus,
    pub last_modified_by: Seq<char>,
    pub version: UserRoleVersion,
}

impl View for UserRole {
    type V = UserRoleV;

    open spec fn view(&self) -> UserRoleV {
        UserRoleV {
            user_id: self.user_id@,
            role_id: self.role_id@,
            merchant_id: opt_owned_view(self.merchant_id),
            org_id: opt_owned_view(self.org_id),
            profile_id: opt_owned_view(self.profile_id),
            entity_type: self.entity_type,
            status: self.status,
            last_modified_by: self.last_modified_by@,
            version: self.version,
        }
    }
}

/// A logical change to a user-to-role assignment row.
#[derive(Clone, Debug, PartialEq, Eq)]
pub enum UserRoleUpdate {
    UpdateStatus { status: UserStatus, modified_by: String },
    UpdateRole { role_id: String, modified_by: String },
}

/// Mathematical image of a [`UserRoleUpdate`].
#[verifier::ext_equal]
pub enum UserRoleUpdateV {
    UpdateStatus { status: UserStatus, modified_by: Seq<char> },
    UpdateRole { role_id: Seq<char>, modified_by: Seq<char> },
}

impl View for UserRoleUpdate {
    type V = UserRoleUpdateV;

    open spec fn view(&self) -> UserRoleUpdateV {
        match self {
            UserRoleUpdate::UpdateStatus { status, modified_by } => {
                UserRoleUpdateV::UpdateStatus { status: *status, modified_by: modified_by@ }
            },
            UserRoleUpdate::UpdateRole { role_id, modified_by } => {
                UserRoleUpdateV::UpdateRole { role_id: role_id@, modified_by: modified_by@ }
            },
        }
    }
}

/// The row that results from applying `update` to `row`.
pub open spec fn apply_user_role_update(row: UserRoleV, update: UserRoleUpdateV) -> UserRoleV {
    match update {
        UserRoleUpdateV::UpdateStatus { status, modified_by } => {
            UserRoleV { status, last_modified_by: modified_by, ..row }
        },
        UserRoleUpdateV::UpdateRole { role_id, modified_by } => {
            UserRoleV { role_id, last_modified_by: modified_by, ..row }
        },
    }
}

/// The lineage a dual-version update addresses: one user within one
/// organization/merchant/profile scope, under one schema version.
#[verifier::ext_equal]
pub struct LineageKeyV {
    pub user_id: Seq<char>,
    pub org_id: Seq<char>,
    pub merchant_id: Seq<char>,
    pub profile_id: Option<Seq<char>>,
    pub version: UserRoleVersion,
}

/// Whether `row` is the row `key` addresses.
pub open spec fn lineage_matches(row: UserRoleV, key: LineageKeyV) -> bool {
    &&& row.user_id == key.user_id
    &&& row.org_id == Some(key.org_id)
    &&& row.merchant_id == Some(key.merchant_id)
    &&& row.profile_id == key.profile_id
    &&& row.version == key.version
}

/// The first row `key` addresses, in store order.
pub open spec fn first_matching_row(rows: Seq<UserRoleV>, key: LineageKeyV) -> Option<UserRoleV>
    decreases rows.len(),
{
    if rows.len() == 0 {
        None
    } else if lineage_matches(rows[0], key) {
        Some(rows[0])
    } else {
        first_matching_row(rows.skip(1), key)
    }
}

/// The per-row effect of a lineage update: rows `key` addresses are
/// updated, all others kept.
pub open spec fn row_update_fn(key: LineageKeyV, update: UserRoleUpdateV) -> spec_fn(UserRoleV) -> UserRoleV {
    |row: UserRoleV|
        if lineage_matches(row, key) {
            apply_user_role_update(row, update)
        } else {
            row
        }
}

/// Every row `key` addresses updated by `update`; all others kept.
pub open spec fn update_matching_rows(
    rows: Seq<UserRoleV>,
    key: LineageKeyV,
    update: UserRoleUpdateV,
) -> Seq<UserRoleV> {
    rows.map_values(row_update_fn(key, update))
}

/// A merchant account row.
#[derive(Clone, Debug, PartialEq, Eq)]
pub struct MerchantAccount {
    pub merchant_id: String,
    pub organization_id: String,
}

/// Mathematical image of a [`MerchantAccount`].
#[verifier::ext_equal]
pub struct MerchantAccountV {
    pub merchant_id: Seq<char>,
    pub organization_id: Seq<char>,
}

impl View for MerchantAccount {
    type V = MerchantAccountV;

    open spec fn view(&self) -> MerchantAccountV {
        MerchantAccountV {
            merchant_id: self.merchant_id@,
            organization_id: self.organization_id@,
        }
    }
}

impl MerchantAccount {
    /// Identifier of this merchant account.
    pub fn get_id(&self) -> (r: &String)
        ensures
            r@ == self@.merchant_id,
    {
        &self.merchant_id
    }
}

/// Rows of a custom-role listing, as mathematical values.
pub open spec fn custom_roles_view(v: Seq<CustomRole>) -> Seq<CustomRoleV> {
    v.map_values(|c: CustomRole| c@)
}

/// Rows of a merchant-account listing, as mathematical values.
pub open spec fn merchant_accounts_view(v: Seq<MerchantAccount>) -> Seq<MerchantAccountV> {
    v.map_values(|a: MerchantAccount| a@)
}

/// Whether a custom role belongs to the `(merchant_id, org_id)` scope.
pub open spec fn in_scope_pred(merchant_id: Seq<char>, org_id: Seq<char>) -> spec_fn(
    CustomRoleV,
) -> bool {
    |r: CustomRoleV| r.merchant_id == merchant_id && r.org_id == org_id
}

/// The custom roles that belong to the `(merchant_id, org_id)` scope,
/// in store order.
pub open spec fn roles_in_scope(
    roles: Seq<CustomRoleV>,
    merchant_id: Seq<char>,
    org_id: Seq<char>,
) -> Seq<CustomRoleV> {
    roles.filter(in_scope_pred(merchant_id, org_id))
}

/// Whether a merchant account belongs to `org_id`.
pub open spec fn in_org_pred(org_id: Seq<char>) -> spec_fn(MerchantAccountV) -> bool {
    |a: MerchantAccountV| a.organization_id == org_id
}

/// The merchant accounts under `org_id`, in store order.
pub open spec fn accounts_in_org(
    accounts: Seq<MerchantAccountV>,
    org_id: Seq<char>,
) -> Seq<MerchantAccountV> {
    accounts.filter(in_org_pred(org_id))
}

/// The persistent role store. Every operation may fail (the backing
/// store is remote); a failed operation leaves the store unchanged.
/// `store_calls` counts round-trips, so a contract can state that an
/// operation never reached the store.
pub trait RoleStore: Sized {
    /// Custom roles currently persisted.
    spec fn roles(&self) -> Seq<CustomRoleV>;

    /// User-to-role assignment rows, both schema versions together.
    spec fn user_roles(&self) -> Seq<UserRoleV>;

    /// Merchant accounts currently persisted.
    spec fn merchant_accounts(&self) -> Seq<MerchantAccountV>;

    /// Store round-trips performed so far.
    spec fn store_calls(&self) -> nat;

    /// All custom roles of one `(merchant_id, org_id)` scope.
    fn list_all_roles(&mut self, merchant_id: &String, org_id: &String) -> (r: Result<
        Vec<CustomRole>,
        StorageError,
    >)
        ensures
            final(self).roles() == old(self).roles(),
            final(self).user_roles() == old(self).user_roles(),
            final(self).merchant_accounts() == old(self).merchant_accounts(),
            final(self).store_calls() == old(self).store_calls() + 1,
            r matches Ok(v) ==> custom_roles_view(v@) == roles_in_scope(
                old(self).roles(),
                merchant_id@,
                org_id@,
            ),
    ;

    /// Applies `update` to the rows of one lineage under one schema
    /// version and returns the first updated row.
    fn update_user_role_by_user_id_and_lineage(
        &mut self,
        user_id: &str,
        org_id: &String,
        merchant_id: &String,
        profile_id: Option<&String>,
        update: &UserRoleUpdate,
        version: UserRoleVersion,
    ) -> (r: Result<UserRole, StorageError>)
        ensures
            final(self).roles() == old(self).roles(),
            final(self).merchant_accounts() == old(self).merchant_accounts(),
            final(self).store_calls() == old(self).store_calls() + 1,
            ({
                let key = LineageKeyV {
                    user_id: user_id@,
                    org_id: org_id@,
                    merchant_id: merchant_id@,
                    profile_id: opt_string_view(profile_id),
                    version,
                };
                &&& (r matches Ok(row) ==> {
                    &&& first_matching_row(old(self).user_roles(), key) matches Some(m)
                        && row@ == apply_user_role_update(m, update@)
                    &&& final(self).user_roles() == update_matching_rows(
                        old(self).user_roles(),
                        key,
                        update@,
                    )
                })
                &&& (r is Err ==> final(self).user_roles() == old(self).user_roles())
                &&& (first_matching_row(old(self).user_roles(), key) is None ==> r is Err)
            }),
    ;

    /// All merchant accounts under one organization.
    fn list_merchant_accounts_by_organization_id(&mut self, org_id: &String) -> (r: Result<
        Vec<MerchantAccount>,
        StorageError,
    >)
        ensures
            final(self).roles() == old(self).roles(),
            final(self).user_roles() == old(self).user_roles(),
            final(self).merchant_accounts() == old(self).merchant_accounts(),
            final(self).store_calls() == old(self).store_calls() + 1,
            r matches Ok(v) ==> merchant_accounts_view(v@) == accounts_in_org(
                old(self).merchant_accounts(),
                org_id@,
            ),
    ;
}

/// One accepted cache write.
#[verifier::ext_equal]
pub struct CacheWriteV {
    pub key: Seq<char>,
    pub permissions: Seq<ApiPermission>,
    pub ttl_seconds: int,
}

/// The external permission cache. Writes are best-effort: a failure
/// leaves the cache as it was. `writes` records the accepted writes
/// oldest-first, `write_attempts` every attempt.
pub trait PermissionCache: Sized {
    /// Writes the cache has accepted so far, oldest first.
    spec fn writes(&self) -> Seq<CacheWriteV>;

    /// Write attempts made so far, accepted or not.
    spec fn write_attempts(&self) -> nat;

    /// Stores `key -> permissions` with the given time-to-live.
    fn set_with_ttl(&mut self, key: &str, permissions: Vec<ApiPermission>, ttl_seconds: i64) -> (r:
        Result<(), StorageError>)
        ensures
            final(self).write_attempts() == old(self).write_attempts() + 1,
            r is Ok ==> final(self).writes() == old(self).writes().push(
                CacheWriteV {
                    key: key@,
                    permissions: permissions@,
                    ttl_seconds: ttl_seconds as int,
                },
            ),
            r is Err ==> final(self).writes() == old(self).writes(),
    ;
}

/// Applies `update` to one row, as a value.
pub fn apply_update_to_row(row: &UserRole, update: &UserRoleUpdate) -> (r: UserRole)
    ensures
        r@ == apply_user_role_update(row@, update@),
{
    match update {
        UserRoleUpdate::UpdateStatus { status, modified_by } => {
            UserRole {
                user_id: row.user_id.clone(),
                role_id: row.role_id.clone(),
                merchant_id: clone_opt_string(&row.merchant_id),
                org_id: clone_opt_string(&row.org_id),
                profile_id: clone_opt_string(&row.profile_id),
                entity_type: row.entity_type,
                status: *status,
                last_modified_by: modified_by.clone(),
                version: row.version,
            }
        },
        UserRoleUpdate::UpdateRole { role_id, modified_by } => {
            UserRole {
                user_id: row.user_id.clone(),
                role_id: role_id.clone(),
                merchant_id: clone_opt_string(&row.merchant_id),
                org_id: clone_opt_string(&row.org_id),
                profile_id: clone_opt_string(&row.profile_id),
                entity_type: row.entity_type,
                status: row.status,
                last_modified_by: modified_by.clone(),
                version: row.version,
            }
        },
    }
}

/// Copies an optional identifier.
pub fn clone_opt_string(o: &Option<String>) -> (r: Option<String>)
    ensures
        opt_owned_view(r) == opt_owned_view(*o),
{
    match o {
        Some(s) => Some(s.clone()),
        None => None,
    }
}

} // verus!
