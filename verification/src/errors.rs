//! Error types of the role subsystem, the store boundary, and the
//! connector mappings.

use vstd::prelude::*;

verus! {

/// Errors surfaced to callers of the role operations.
#[derive(Clone, Copy, Debug, PartialEq, Eq, Structural)]
pub enum UserErrors {
    /// A role definition breaks an invariant (empty groups, duplicate
    /// groups, or the reserved group).
    InvalidRoleOperation,
    /// The candidate role name collides with a predefined or an
    /// in-scope custom role name.
    RoleNameAlreadyExists,
    /// An underlying store or configuration failure, wrapped.
    InternalServerError,
}

impl UserErrors {
    /// User-facing message for this error.
    pub fn message(&self) -> (r: String)
        ensures
            r@.len() > 0,
    {
        let m = match self {
            UserErrors::InvalidRoleOperation => "Invalid role operation",
            UserErrors::RoleNameAlreadyExists => "Role name already exists",
            UserErrors::InternalServerError => "Something went wrong",
        };
        proof {
            reveal_strlit("Invalid role operation");
            reveal_strlit("Role name already exists");
            reveal_strlit("Something went wrong");
        }
        m.to_owned()
    }
}

/// Errors the persistent store reports.
#[derive(Clone, Copy, Debug, PartialEq, Eq, Structural)]
pub enum StorageError {
    /// No row matched the query.
    ValueNotFound,
    /// The store itself failed (connection, constraint, timeout).
    DatabaseError,
}

/// Errors the connector mapping layer reports.
#[derive(Clone, Debug, PartialEq, Eq)]
pub enum ConnectorError {
    /// The configured authentication shape does not fit this connector.
    FailedToObtainAuthType,
    /// The flow or payment method is not supported; carries the
    /// message naming what is missing.
    NotImplemented(String),
    /// The connector's response could not be decoded.
    ResponseDeserializationFailed,
}

} // verus!
