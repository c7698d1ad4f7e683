//! Closed enumerations shared across the role subsystem and the
//! connector mappings.

use vstd::prelude::*;

verus! {

/// Scope level a role applies at.
#[derive(Clone, Copy, Debug, PartialEq, Eq, Structural)]
pub enum EntityType {
    Organization,
    Merchant,
    Internal,
    Profile,
}

/// State of a user-to-role assignment row.
#[derive(Clone, Copy, Debug, PartialEq, Eq, Structural)]
pub enum UserStatus {
    Active,
    InvitationSent,
}

/// The two persisted schema representations of role assignment that
/// coexist during the migration period.
#[derive(Clone, Copy, Debug, PartialEq, Eq, Structural)]
pub enum UserRoleVersion {
    V1,
    V2,
}

/// Named bundles of permissions. `OrganizationManage` is reserved and
/// may never be assigned to a role directly.
#[derive(Clone, Copy, Debug, PartialEq, Eq, Structural)]
pub enum PermissionGroup {
    OperationsView,
    OperationsManage,
    ConnectorsView,
    ConnectorsManage,
    WorkflowsView,
    WorkflowsManage,
    AnalyticsView,
    UsersView,
    UsersManage,
    MerchantDetailsView,
    MerchantDetailsManage,
    OrganizationManage,
}

/// Canonical status of a payment attempt.
#[derive(Clone, Copy, Debug, PartialEq, Eq, Structural)]
pub enum AttemptStatus {
    Charged,
    Failure,
    Authorizing,
    Pending,
}

/// Canonical status of a refund.
#[derive(Clone, Copy, Debug, PartialEq, Eq, Structural)]
pub enum RefundStatus {
    Success,
    Failure,
    Pending,
}

/// How a payment is captured after authorization.
#[derive(Clone, Copy, Debug, PartialEq, Eq, Structural)]
pub enum CaptureMethod {
    Automatic,
    Manual,
    ManualMultiple,
    Scheduled,
}

/// Transaction currency. Closed set of the currencies the connector is
/// configured for.
#[derive(Clone, Copy, Debug, PartialEq, Eq, Structural)]
pub enum Currency {
    USD,
    EUR,
    GBP,
    INR,
    JPY,
}

/// Whether a connector expects amounts in the major or minor unit.
#[derive(Clone, Copy, Debug, PartialEq, Eq, Structural)]
pub enum CurrencyUnit {
    Base,
    Minor,
}

/// ISO code of a currency, as the connector wire format spells it.
pub open spec fn currency_code_spec(c: Currency) -> Seq<char> {
    match c {
        Currency::USD => "USD"@,
        Currency::EUR => "EUR"@,
        Currency::GBP => "GBP"@,
        Currency::INR => "INR"@,
        Currency::JPY => "JPY"@,
    }
}

impl Currency {
    /// ISO code used on the wire.
    pub fn code(&self) -> (r: String)
        ensures
            r@ == currency_code_spec(*self),
    {
        match self {
            Currency::USD => "USD".to_owned(),
            Currency::EUR => "EUR".to_owned(),
            Currency::GBP => "GBP".to_owned(),
            Currency::INR => "INR".to_owned(),
            Currency::JPY => "JPY".to_owned(),
        }
    }
}

} // verus!
