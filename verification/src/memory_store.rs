//! In-memory implementations of the store and cache boundaries, for
//! tests and for callers that substitute fakes. Each method honours
//! the trait contract exactly; failure-injection flags let tests
//! exercise the error paths.

use vstd::prelude::*;

use crate::enums::UserRoleVersion;
use crate::errors::StorageError;
use crate::permissions::ApiPermission;
use crate::roles::{CustomRole, CustomRoleV};
use crate::store::{
    accounts_in_org, apply_update_to_row, apply_user_role_update, custom_roles_view,
    first_matching_row, lineage_matches, merchant_accounts_view, opt_string_view, roles_in_scope,
    update_matching_rows, CacheWriteV, LineageKeyV, MerchantAccount, MerchantAccountV,
    PermissionCache, RoleStore, UserRole, UserRoleV, UserRoleUpdate,
};
use crate::text::string_eq;

verus! {

/// Rows of a user-role listing, as mathematical values.
pub open spec fn user_roles_view(v: Seq<UserRole>) -> Seq<UserRoleV> {
    v.map_values(|r: UserRole| r@)
}

/// Whether `row` is the row the lineage addresses.
fn row_matches_lineage(
    row: &UserRole,
    user_id: &str,
    org_id: &String,
    merchant_id: &String,
    profile_id: Option<&String>,
    version: UserRoleVersion,
) -> (r: bool)
    ensures
        r == lineage_matches(
            row@,
            LineageKeyV {
                user_id: user_id@,
                org_id: org_id@,
                merchant_id: merchant_id@,
                profile_id: opt_string_view(profile_id),
                version,
            },
        ),
{
    let user_ok = string_eq(row.user_id.as_str(), user_id);
    let org_ok = match &row.org_id {
        Some(o) => string_eq(o.as_str(), org_id.as_str()),
        None => false,
    };
    let merchant_ok = match &row.merchant_id {
        Some(m) => string_eq(m.as_str(), merchant_id.as_str()),
        None => false,
    };
    let profile_ok = match (&row.profile_id, profile_id) {
        (Some(p), Some(q)) => string_eq(p.as_str(), q.as_str()),
        (None, None) => true,
        _ => false,
    };
    let version_ok = row.version == version;
    user_ok && org_ok && merchant_ok && profile_ok && version_ok
}

/// The rows of `v` that belong to the `(merchant_id, org_id)` scope.
fn filter_roles_in_scope(v: &Vec<CustomRole>, merchant_id: &String, org_id: &String) -> (r: Vec<
    CustomRole,
>)
    ensures
        custom_roles_view(r@) == roles_in_scope(custom_roles_view(v@), merchant_id@, org_id@),
{
    let ghost s = custom_roles_view(v@);
    let ghost pred = crate::store::in_scope_pred(merchant_id@, org_id@);
    let mut out: Vec<CustomRole> = Vec::new();
    let mut i: usize = 0;
    proof {
        assert(s.take(0) =~= Seq::<CustomRoleV>::empty());
        reveal_with_fuel(Seq::<_>::filter, 2);
        assert(custom_roles_view(out@) =~= s.take(0).filter(pred));
    }
    while i < v.len()
        invariant
            i <= v.len(),
            s == custom_roles_view(v@),
            pred == crate::store::in_scope_pred(merchant_id@, org_id@),
            custom_roles_view(out@) == s.take(i as int).filter(pred),
        decreases v.len() - i,
    {
        let ghost pre = out@;
        proof {
            assert(s[i as int] == v@[i as int]@);
        }
        let in_scope = string_eq(v[i].merchant_id.as_str(), merchant_id.as_str()) && string_eq(
            v[i].org_id.as_str(),
            org_id.as_str(),
        );
        if in_scope {
            let row = CustomRole {
                role_id: v[i].role_id.clone(),
                role_name: v[i].role_name.clone(),
                merchant_id: v[i].merchant_id.clone(),
                org_id: v[i].org_id.clone(),
                groups: crate::text::clone_copy_vec(&v[i].groups),
                scope: v[i].scope,
            };
            proof {
                assert(row@ =~= v@[i as int]@);
            }
            out.push(row);
            proof {
                assert(custom_roles_view(out@) =~= custom_roles_view(pre).push(s[i as int]));
            }
        }
        proof {
            lemma_filter_take_succ(s, pred, i as int);
            assert(custom_roles_view(out@) =~= s.take(i as int + 1).filter(pred));
        }
        i += 1;
    }
    proof {
        assert(s.take(v@.len() as int) =~= s);
    }
    out
}

/// The rows of `v` that belong to `org_id`.
fn filter_accounts_in_org(v: &Vec<MerchantAccount>, org_id: &String) -> (r: Vec<MerchantAccount>)
    ensures
        merchant_accounts_view(r@) == accounts_in_org(merchant_accounts_view(v@), org_id@),
{
    let ghost s = merchant_accounts_view(v@);
    let ghost pred = crate::store::in_org_pred(org_id@);
    let mut out: Vec<MerchantAccount> = Vec::new();
    let mut i: usize = 0;
    proof {
        assert(s.take(0) =~= Seq::<MerchantAccountV>::empty());
        reveal_with_fuel(Seq::<_>::filter, 2);
        assert(merchant_accounts_view(out@) =~= s.take(0).filter(pred));
    }
    while i < v.len()
        invariant
            i <= v.len(),
            s == merchant_accounts_view(v@),
            pred == crate::store::in_org_pred(org_id@),
            merchant_accounts_view(out@) == s.take(i as int).filter(pred),
        decreases v.len() - i,
    {
        let ghost pre = out@;
        proof {
            assert(s[i as int] == v@[i as int]@);
        }
        if string_eq(v[i].organization_id.as_str(), org_id.as_str()) {
            let row = MerchantAccount {
                merchant_id: v[i].merchant_id.clone(),
                organization_id: v[i].organization_id.clone(),
            };
            proof {
                assert(row@ =~= v@[i as int]@);
            }
            out.push(row);
            proof {
                assert(merchant_accounts_view(out@) =~= merchant_accounts_view(pre).push(
                    s[i as int],
                ));
            }
        }
        proof {
            lemma_filter_take_succ_accounts(s, pred, i as int);
            assert(merchant_accounts_view(out@) =~= s.take(i as int + 1).filter(pred));
        }
        i += 1;
    }
    proof {
        assert(s.take(v@.len() as int) =~= s);
    }
    out
}

/// One filtering step: the filtered prefix grows by the next element
/// exactly when the predicate accepts it.
proof fn lemma_filter_take_succ(s: Seq<CustomRoleV>, pred: spec_fn(CustomRoleV) -> bool, i: int)
    requires
        0 <= i < s.len(),
    ensures
        s.take(i + 1).filter(pred) == if pred(s[i]) {
            s.take(i).filter(pred).push(s[i])
        } else {
            s.take(i).filter(pred)
        },
{
    assert(s.take(i + 1).drop_last() =~= s.take(i));
    assert(s.take(i + 1).last() == s[i]);
    reveal_with_fuel(Seq::<_>::filter, 1);
    assert(s.take(i + 1).filter(pred) == if pred(s[i]) {
        s.take(i).filter(pred).push(s[i])
    } else {
        s.take(i).filter(pred)
    });
}

/// One filtering step over merchant accounts.
proof fn lemma_filter_take_succ_accounts(
    s: Seq<MerchantAccountV>,
    pred: spec_fn(MerchantAccountV) -> bool,
    i: int,
)
    requires
        0 <= i < s.len(),
    ensures
        s.take(i + 1).filter(pred) == if pred(s[i]) {
            s.take(i).filter(pred).push(s[i])
        } else {
            s.take(i).filter(pred)
        },
{
    assert(s.take(i + 1).drop_last() =~= s.take(i));
    assert(s.take(i + 1).last() == s[i]);
    reveal_with_fuel(Seq::<_>::filter, 1);
    assert(s.take(i + 1).filter(pred) == if pred(s[i]) {
        s.take(i).filter(pred).push(s[i])
    } else {
        s.take(i).filter(pred)
    });
}

/// The in-memory role store.
pub struct InMemoryRoleStore {
    /// Custom roles persisted.
    pub custom_roles: Vec<CustomRole>,
    /// User-to-role assignment rows, both schema versions.
    pub user_role_rows: Vec<UserRole>,
    /// Merchant accounts persisted.
    pub accounts: Vec<MerchantAccount>,
    /// When set, every listing call fails.
    pub fail_listing: bool,
    /// When set, updates under schema version V1 fail.
    pub fail_update_v1: bool,
    /// When set, updates under schema version V2 fail.
    pub fail_update_v2: bool,
    /// When set, merchant-account listing calls fail.
    pub fail_accounts: bool,
    /// Round-trips made, observable by tests; saturates.
    pub calls_made: u64,
    /// Ghost image of the round-trip counter.
    pub calls: Ghost<nat>,
}

impl InMemoryRoleStore {
    /// A store holding the given rows, with no calls made yet and no
    /// failure injected.
    pub fn new(
        custom_roles: Vec<CustomRole>,
        user_role_rows: Vec<UserRole>,
        accounts: Vec<MerchantAccount>,
    ) -> (r: InMemoryRoleStore)
        ensures
            r.roles() == custom_roles_view(custom_roles@),
            r.user_roles() == user_roles_view(user_role_rows@),
            r.merchant_accounts() == merchant_accounts_view(accounts@),
            r.store_calls() == 0,
            r.calls_made == 0,
    {
        InMemoryRoleStore {
            custom_roles,
            user_role_rows,
            accounts,
            fail_listing: false,
            fail_update_v1: false,
            fail_update_v2: false,
            fail_accounts: false,
            calls_made: 0,
            calls: Ghost(0),
        }
    }

    fn count_call(&mut self)
        ensures
            final(self).custom_roles == old(self).custom_roles,
            final(self).user_role_rows == old(self).user_role_rows,
            final(self).accounts == old(self).accounts,
            final(self).fail_listing == old(self).fail_listing,
            final(self).fail_update_v1 == old(self).fail_update_v1,
            final(self).fail_update_v2 == old(self).fail_update_v2,
            final(self).fail_accounts == old(self).fail_accounts,
            final(self).store_calls() == old(self).store_calls() + 1,
    {
        self.calls = Ghost(self.calls@ + 1);
        if self.calls_made < u64::MAX {
            self.calls_made = self.calls_made + 1;
        }
    }
}

impl RoleStore for InMemoryRoleStore {
    open spec fn roles(&self) -> Seq<CustomRoleV> {
        custom_roles_view(self.custom_roles@)
    }

    open spec fn user_roles(&self) -> Seq<UserRoleV> {
        user_roles_view(self.user_role_rows@)
    }

    open spec fn merchant_accounts(&self) -> Seq<MerchantAccountV> {
        merchant_accounts_view(self.accounts@)
    }

    closed spec fn store_calls(&self) -> nat {
        self.calls@
    }

    fn list_all_roles(&mut self, merchant_id: &String, org_id: &String) -> (r: Result<
        Vec<CustomRole>,
        StorageError,
    >) {
        self.count_call();
        if self.fail_listing {
            return Err(StorageError::DatabaseError);
        }
        Ok(filter_roles_in_scope(&self.custom_roles, merchant_id, org_id))
    }

    fn update_user_role_by_user_id_and_lineage(
        &mut self,
        user_id: &str,
        org_id: &String,
        merchant_id: &String,
        profile_id: Option<&String>,
        update: &UserRoleUpdate,
        version: UserRoleVersion,
    ) -> (r: Result<UserRole, StorageError>) {
        self.count_call();
        let fail = match version {
            UserRoleVersion::V1 => self.fail_update_v1,
            UserRoleVersion::V2 => self.fail_update_v2,
        };
        if fail {
            return Err(StorageError::DatabaseError);
        }
        let (rows, updated) = update_rows(
            &self.user_role_rows,
            user_id,
            org_id,
            merchant_id,
            profile_id,
            update,
            version,
        );
        match updated {
            Some(row) => {
                self.user_role_rows = rows;
                Ok(row)
            },
            None => Err(StorageError::ValueNotFound),
        }
    }

    fn list_merchant_accounts_by_organization_id(&mut self, org_id: &String) -> (r: Result<
        Vec<MerchantAccount>,
        StorageError,
    >) {
        self.count_call();
        if self.fail_accounts {
            return Err(StorageError::DatabaseError);
        }
        Ok(filter_accounts_in_org(&self.accounts, org_id))
    }
}

/// Applies `update` to every row the lineage addresses and hands back
/// the new rows together with the first updated row.
fn update_rows(
    rows: &Vec<UserRole>,
    user_id: &str,
    org_id: &String,
    merchant_id: &String,
    profile_id: Option<&String>,
    update: &UserRoleUpdate,
    version: UserRoleVersion,
) -> (r: (Vec<UserRole>, Option<UserRole>))
    ensures
        ({
            let key = LineageKeyV {
                user_id: user_id@,
                org_id: org_id@,
                merchant_id: merchant_id@,
                profile_id: opt_string_view(profile_id),
                version,
            };
            &&& user_roles_view(r.0@) == update_matching_rows(
                user_roles_view(rows@),
                key,
                update@,
            )
            &&& (r.1 matches Some(row) ==> first_matching_row(user_roles_view(rows@), key)
                matches Some(m) && row@ == apply_user_role_update(m, update@))
            &&& (r.1 is None <==> first_matching_row(user_roles_view(rows@), key) is None)
        }),
{
    let ghost s = user_roles_view(rows@);
    let ghost key = LineageKeyV {
        user_id: user_id@,
        org_id: org_id@,
        merchant_id: merchant_id@,
        profile_id: opt_string_view(profile_id),
        version,
    };
    let ghost upd = crate::store::row_update_fn(key, update@);
    let mut out: Vec<UserRole> = Vec::new();
    let mut found: Option<UserRole> = None;
    let mut i: usize = 0;
    proof {
        assert(s.skip(0) =~= s);
        assert(user_roles_view(out@) =~= s.take(0).map_values(upd));
    }
    while i < rows.len()
        invariant
            i <= rows.len(),
            s == user_roles_view(rows@),
            upd == crate::store::row_update_fn(key, update@),
            key == (LineageKeyV {
                user_id: user_id@,
                org_id: org_id@,
                merchant_id: merchant_id@,
                profile_id: opt_string_view(profile_id),
                version,
            }),
            user_roles_view(out@) == s.take(i as int).map_values(upd),
            found is None ==> first_matching_row(s.skip(i as int), key) == first_matching_row(
                s,
                key,
            ),
            found matches Some(row) ==> first_matching_row(s, key) matches Some(m) && row@
                == apply_user_role_update(m, update@),
            found is Some ==> first_matching_row(s, key) is Some,
            found is None ==> (forall|j: int| 0 <= j < i ==> !lineage_matches(s[j], key)),
        decreases rows.len() - i,
    {
        let ghost pre = out@;
        proof {
            assert(s[i as int] == rows@[i as int]@);
            assert(s.skip(i as int)[0] == s[i as int]);
        }
        let matches_row = row_matches_lineage(
            &rows[i],
            user_id,
            org_id,
            merchant_id,
            profile_id,
            version,
        );
        if matches_row {
            let new_row = apply_update_to_row(&rows[i], update);
            if found.is_none() {
                proof {
                    assert(first_matching_row(s.skip(i as int), key) == Some(s[i as int]));
                }
                found = Some(apply_update_to_row(&rows[i], update));
            }
            out.push(new_row);
        } else {
            let kept = apply_keep_row(&rows[i]);
            out.push(kept);
        }
        proof {
            assert(s.skip(i as int).skip(1) =~= s.skip(i as int + 1));
            assert(s.take(i as int + 1) =~= s.take(i as int).push(s[i as int]));
            assert(s.take(i as int + 1).map_values(upd) =~= s.take(i as int).map_values(upd).push(
                upd(s[i as int]),
            ));
            assert(user_roles_view(out@) =~= user_roles_view(pre).push(upd(s[i as int])));
        }
        i += 1;
    }
    proof {
        assert(s.take(rows@.len() as int) =~= s);
        assert(s.skip(rows@.len() as int) =~= Seq::<UserRoleV>::empty());
        assert(user_roles_view(out@) =~= update_matching_rows(s, key, update@));
    }
    (out, found)
}

/// Copies a row unchanged.
fn apply_keep_row(row: &UserRole) -> (r: UserRole)
    ensures
        r@ == row@,
{
    UserRole {
        user_id: row.user_id.clone(),
        role_id: row.role_id.clone(),
        merchant_id: crate::store::clone_opt_string(&row.merchant_id),
        org_id: crate::store::clone_opt_string(&row.org_id),
        profile_id: crate::store::clone_opt_string(&row.profile_id),
        entity_type: row.entity_type,
        status: row.status,
        last_modified_by: row.last_modified_by.clone(),
        version: row.version,
    }
}

/// One accepted cache write, as tests observe it.
#[derive(Clone, Debug, PartialEq, Eq)]
pub struct CacheEntry {
    /// The role identifier used as the key.
    pub key: String,
    /// The cached permission set.
    pub permissions: Vec<ApiPermission>,
    /// The time-to-live the write carried.
    pub ttl_seconds: i64,
}

/// The in-memory permission cache.
pub struct InMemoryPermissionCache {
    /// Writes accepted so far, oldest first.
    pub entries: Vec<CacheEntry>,
    /// When set, every write fails.
    pub fail_writes: bool,
    /// Write attempts made, observable by tests; saturates.
    pub attempts_made: u64,
    /// Ghost image of the attempt counter.
    pub attempts: Ghost<nat>,
}

/// Writes of a cache, as mathematical values.
pub open spec fn cache_entries_view(v: Seq<CacheEntry>) -> Seq<CacheWriteV> {
    v.map_values(
        |e: CacheEntry|
            CacheWriteV { key: e.key@, permissions: e.permissions@, ttl_seconds: e.ttl_seconds as int },
    )
}

impl InMemoryPermissionCache {
    /// An empty cache with no failure injected.
    pub fn new() -> (r: InMemoryPermissionCache)
        ensures
            r.writes() == Seq::<CacheWriteV>::empty(),
            r.write_attempts() == 0,
            r.attempts_made == 0,
            !r.fail_writes,
    {
        let cache = InMemoryPermissionCache {
            entries: Vec::new(),
            fail_writes: false,
            attempts_made: 0,
            attempts: Ghost(0),
        };
        proof {
            assert(cache_entries_view(cache.entries@) =~= Seq::<CacheWriteV>::empty());
        }
        cache
    }
}

impl PermissionCache for InMemoryPermissionCache {
    open spec fn writes(&self) -> Seq<CacheWriteV> {
        cache_entries_view(self.entries@)
    }

    closed spec fn write_attempts(&self) -> nat {
        self.attempts@
    }

    fn set_with_ttl(&mut self, key: &str, permissions: Vec<ApiPermission>, ttl_seconds: i64) -> (r:
        Result<(), StorageError>) {
        self.attempts = Ghost(self.attempts@ + 1);
        if self.attempts_made < u64::MAX {
            self.attempts_made = self.attempts_made + 1;
        }
        if self.fail_writes {
            return Err(StorageError::DatabaseError);
        }
        let ghost pre = self.entries@;
        let ghost perms = permissions@;
        let entry = CacheEntry { key: key.to_owned(), permissions, ttl_seconds };
        self.entries.push(entry);
        proof {
            assert(cache_entries_view(self.entries@) =~= cache_entries_view(pre).push(
                CacheWriteV { key: key@, permissions: perms, ttl_seconds: ttl_seconds as int },
            ));
        }
        Ok(())
    }
}

} // verus!
