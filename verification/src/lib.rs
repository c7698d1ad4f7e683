//! Role-based authorization: permission catalogs, role validation,
//! permission caching, dual-version role persistence, and merchant
//! resolution, together with the Chase Orbital connector mappings.

use vstd::prelude::*;

pub mod amount;
pub mod chaseorbital;
pub mod enums;
pub mod errors;
pub mod permissions;
pub mod memory_store;
pub mod payments;
pub mod roles;
pub mod store;
pub mod text;
pub mod user_role;

verus! {

/// Seconds a session token stays valid. Cached permission sets use the
/// same lifetime so they never outlive a session token.
pub const JWT_TOKEN_TIME_IN_SECS: u64 = 100800;

/// Token lifetime as the signed quantity the cache interface expects.
pub fn jwt_ttl_seconds() -> (r: i64)
    ensures
        r == JWT_TOKEN_TIME_IN_SECS as i64,
{
    JWT_TOKEN_TIME_IN_SECS as i64
}

} // verus!
