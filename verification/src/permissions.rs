//! The permission catalog: fine-grained permissions, their API-layer
//! projection, and the expansion of permission groups.

use vstd::prelude::*;

use crate::enums::PermissionGroup;

verus! {

/// One fine-grained capability. Closed set.
#[derive(Clone, Copy, Debug, PartialEq, Eq, PartialOrd, Ord, Structural)]
pub enum Permission {
    PaymentRead,
    PaymentWrite,
    RefundRead,
    RefundWrite,
    ApiKeyRead,
    ApiKeyWrite,
    MerchantAccountRead,
    MerchantAccountWrite,
    MerchantConnectorAccountRead,
    MerchantConnectorAccountWrite,
    RoutingRead,
    RoutingWrite,
    DisputeRead,
    DisputeWrite,
    MandateRead,
    MandateWrite,
    CustomerRead,
    CustomerWrite,
    Analytics,
    ThreeDsDecisionManagerWrite,
    ThreeDsDecisionManagerRead,
    SurchargeDecisionManagerWrite,
    SurchargeDecisionManagerRead,
    UsersRead,
    UsersWrite,
    MerchantAccountCreate,
    WebhookEventRead,
    WebhookEventWrite,
    PayoutRead,
    PayoutWrite,
    GenerateReport,
}

/// The API layer's copy of [`Permission`], kept variant-for-variant in
/// step with it.
#[derive(Clone, Copy, Debug, PartialEq, Eq, PartialOrd, Ord, Structural)]
pub enum ApiPermission {
    PaymentRead,
    PaymentWrite,
    RefundRead,
    RefundWrite,
    ApiKeyRead,
    ApiKeyWrite,
    MerchantAccountRead,
    MerchantAccountWrite,
    MerchantConnectorAccountRead,
    MerchantConnectorAccountWrite,
    RoutingRead,
    RoutingWrite,
    DisputeRead,
    DisputeWrite,
    MandateRead,
    MandateWrite,
    CustomerRead,
    CustomerWrite,
    Analytics,
    ThreeDsDecisionManagerWrite,
    ThreeDsDecisionManagerRead,
    SurchargeDecisionManagerWrite,
    SurchargeDecisionManagerRead,
    UsersRead,
    UsersWrite,
    MerchantAccountCreate,
    WebhookEventRead,
    WebhookEventWrite,
    PayoutRead,
    PayoutWrite,
    GenerateReport,
}

/// The API-layer projection of an internal permission.
pub open spec fn api_permission_of(value: Permission) -> ApiPermission {
    match value {
        Permission::PaymentRead => ApiPermission::PaymentRead,
        Permission::PaymentWrite => ApiPermission::PaymentWrite,
        Permission::RefundRead => ApiPermission::RefundRead,
        Permission::RefundWrite => ApiPermission::RefundWrite,
        Permission::ApiKeyRead => ApiPermission::ApiKeyRead,
        Permission::ApiKeyWrite => ApiPermission::ApiKeyWrite,
        Permission::MerchantAccountRead => ApiPermission::MerchantAccountRead,
        Permission::MerchantAccountWrite => ApiPermission::MerchantAccountWrite,
        Permission::MerchantConnectorAccountRead => ApiPermission::MerchantConnectorAccountRead,
        Permission::MerchantConnectorAccountWrite => ApiPermission::MerchantConnectorAccountWrite,
        Permission::RoutingRead => ApiPermission::RoutingRead,
        Permission::RoutingWrite => ApiPermission::RoutingWrite,
        Permission::DisputeRead => ApiPermission::DisputeRead,
        Permission::DisputeWrite => ApiPermission::DisputeWrite,
        Permission::MandateRead => ApiPermission::MandateRead,
        Permission::MandateWrite => ApiPermission::MandateWrite,
        Permission::CustomerRead => ApiPermission::CustomerRead,
        Permission::CustomerWrite => ApiPermission::CustomerWrite,
        Permission::Analytics => ApiPermission::Analytics,
        Permission::ThreeDsDecisionManagerWrite => ApiPermission::ThreeDsDecisionManagerWrite,
        Permission::ThreeDsDecisionManagerRead => ApiPermission::ThreeDsDecisionManagerRead,
        Permission::SurchargeDecisionManagerWrite => ApiPermission::SurchargeDecisionManagerWrite,
        Permission::SurchargeDecisionManagerRead => ApiPermission::SurchargeDecisionManagerRead,
        Permission::UsersRead => ApiPermission::UsersRead,
        Permission::UsersWrite => ApiPermission::UsersWrite,
        Permission::MerchantAccountCreate => ApiPermission::MerchantAccountCreate,
        Permission::WebhookEventRead => ApiPermission::WebhookEventRead,
        Permission::WebhookEventWrite => ApiPermission::WebhookEventWrite,
        Permission::PayoutRead => ApiPermission::PayoutRead,
        Permission::PayoutWrite => ApiPermission::PayoutWrite,
        Permission::GenerateReport => ApiPermission::GenerateReport,
    }
}

impl vstd::std_specs::convert::FromSpecImpl<Permission> for ApiPermission {
    open spec fn obeys_from_spec() -> bool {
        true
    }

    open spec fn from_spec(value: Permission) -> ApiPermission {
        api_permission_of(value)
    }
}

impl From<Permission> for ApiPermission {
    fn from(value: Permission) -> (r: ApiPermission) {
        match value {
            Permission::PaymentRead => ApiPermission::PaymentRead,
            Permission::PaymentWrite => ApiPermission::PaymentWrite,
            Permission::RefundRead => ApiPermission::RefundRead,
            Permission::RefundWrite => ApiPermission::RefundWrite,
            Permission::ApiKeyRead => ApiPermission::ApiKeyRead,
            Permission::ApiKeyWrite => ApiPermission::ApiKeyWrite,
            Permission::MerchantAccountRead => ApiPermission::MerchantAccountRead,
            Permission::MerchantAccountWrite => ApiPermission::MerchantAccountWrite,
            Permission::MerchantConnectorAccountRead => {
                ApiPermission::MerchantConnectorAccountRead
            },
            Permission::MerchantConnectorAccountWrite => {
                ApiPermission::MerchantConnectorAccountWrite
            },
            Permission::RoutingRead => ApiPermission::RoutingRead,
            Permission::RoutingWrite => ApiPermission::RoutingWrite,
            Permission::DisputeRead => ApiPermission::DisputeRead,
            Permission::DisputeWrite => ApiPermission::DisputeWrite,
            Permission::MandateRead => ApiPermission::MandateRead,
            Permission::MandateWrite => ApiPermission::MandateWrite,
            Permission::CustomerRead => ApiPermission::CustomerRead,
            Permission::CustomerWrite => ApiPermission::CustomerWrite,
            Permission::Analytics => ApiPermission::Analytics,
            Permission::ThreeDsDecisionManagerWrite => {
                ApiPermission::ThreeDsDecisionManagerWrite
            },
            Permission::ThreeDsDecisionManagerRead => ApiPermission::ThreeDsDecisionManagerRead,
            Permission::SurchargeDecisionManagerWrite => {
                ApiPermission::SurchargeDecisionManagerWrite
            },
            Permission::SurchargeDecisionManagerRead => {
                ApiPermission::SurchargeDecisionManagerRead
            },
            Permission::UsersRead => ApiPermission::UsersRead,
            Permission::UsersWrite => ApiPermission::UsersWrite,
            Permission::MerchantAccountCreate => ApiPermission::MerchantAccountCreate,
            Permission::WebhookEventRead => ApiPermission::WebhookEventRead,
            Permission::WebhookEventWrite => ApiPermission::WebhookEventWrite,
            Permission::PayoutRead => ApiPermission::PayoutRead,
            Permission::PayoutWrite => ApiPermission::PayoutWrite,
            Permission::GenerateReport => ApiPermission::GenerateReport,
        }
    }
}

/// A permission list projected to the API layer, element by element.
pub open spec fn api_permissions_of_seq(perms: Seq<Permission>) -> Seq<ApiPermission> {
    perms.map_values(|p: Permission| api_permission_of(p))
}

/// The API-layer projection of a permission list.
pub fn to_api_permissions(perms: &Vec<Permission>) -> (r: Vec<ApiPermission>)
    ensures
        r@ == api_permissions_of_seq(perms@),
{
    let mut out: Vec<ApiPermission> = Vec::new();
    let mut i: usize = 0;
    proof {
        assert(out@ =~= api_permissions_of_seq(perms@.take(0)));
    }
    while i < perms.len()
        invariant
            i <= perms.len(),
            out@ == api_permissions_of_seq(perms@.take(i as int)),
        decreases perms.len() - i,
    {
        out.push(ApiPermission::from(perms[i]));
        proof {
            assert(out@ =~= api_permissions_of_seq(perms@.take(i as int + 1)));
        }
        i += 1;
    }
    proof {
        assert(perms@.take(perms@.len() as int) =~= perms@);
    }
    out
}

/// The permissions a group bundles.
pub open spec fn group_permissions_spec(group: PermissionGroup) -> Seq<Permission> {
    match group {
        PermissionGroup::OperationsView => seq![
            Permission::PaymentRead,
            Permission::RefundRead,
            Permission::MandateRead,
            Permission::DisputeRead,
            Permission::CustomerRead,
            Permission::PayoutRead,
        ],
        PermissionGroup::OperationsManage => seq![
            Permission::PaymentWrite,
            Permission::RefundWrite,
            Permission::MandateWrite,
            Permission::DisputeWrite,
            Permission::CustomerWrite,
            Permission::PayoutWrite,
        ],
        PermissionGroup::ConnectorsView => seq![Permission::MerchantConnectorAccountRead],
        PermissionGroup::ConnectorsManage => seq![Permission::MerchantConnectorAccountWrite],
        PermissionGroup::WorkflowsView => seq![
            Permission::RoutingRead,
            Permission::ThreeDsDecisionManagerRead,
            Permission::SurchargeDecisionManagerRead,
        ],
        PermissionGroup::WorkflowsManage => seq![
            Permission::RoutingWrite,
            Permission::ThreeDsDecisionManagerWrite,
            Permission::SurchargeDecisionManagerWrite,
        ],
        PermissionGroup::AnalyticsView => seq![
            Permission::Analytics,
            Permission::GenerateReport,
        ],
        PermissionGroup::UsersView => seq![Permission::UsersRead],
        PermissionGroup::UsersManage => seq![Permission::UsersWrite],
        PermissionGroup::MerchantDetailsView => seq![
            Permission::MerchantAccountRead,
            Permission::ApiKeyRead,
            Permission::WebhookEventRead,
        ],
        PermissionGroup::MerchantDetailsManage => seq![
            Permission::MerchantAccountWrite,
            Permission::ApiKeyWrite,
            Permission::WebhookEventWrite,
        ],
        PermissionGroup::OrganizationManage => seq![Permission::MerchantAccountCreate],
    }
}

/// Whether some group of `groups` bundles `p`.
pub open spec fn permission_in_groups(p: Permission, groups: Seq<PermissionGroup>) -> bool {
    exists|i: int|
        0 <= i < groups.len() && group_permissions_spec(groups[i]).contains(p)
}

/// Whether `v` holds `p`.
pub fn vec_contains_permission(v: &Vec<Permission>, p: &Permission) -> (r: bool)
    ensures
        r == v@.contains(*p),
{
    let mut i: usize = 0;
    while i < v.len()
        invariant
            i <= v.len(),
            forall|j: int| 0 <= j < i ==> v@[j] != *p,
        decreases v.len() - i,
    {
        if v[i] == *p {
            proof {
                assert(v@[i as int] == *p);
            }
            return true;
        }
        i += 1;
    }
    false
}

/// The permissions a group bundles, as a vector.
pub fn get_permissions_of_group(group: &PermissionGroup) -> (r: Vec<Permission>)
    ensures
        r@ == group_permissions_spec(*group),
{
    let mut v: Vec<Permission> = Vec::new();
    match group {
        PermissionGroup::OperationsView => {
            v.push(Permission::PaymentRead);
            v.push(Permission::RefundRead);
            v.push(Permission::MandateRead);
            v.push(Permission::DisputeRead);
            v.push(Permission::CustomerRead);
            v.push(Permission::PayoutRead);
        },
        PermissionGroup::OperationsManage => {
            v.push(Permission::PaymentWrite);
            v.push(Permission::RefundWrite);
            v.push(Permission::MandateWrite);
            v.push(Permission::DisputeWrite);
            v.push(Permission::CustomerWrite);
            v.push(Permission::PayoutWrite);
        },
        PermissionGroup::ConnectorsView => {
            v.push(Permission::MerchantConnectorAccountRead);
        },
        PermissionGroup::ConnectorsManage => {
            v.push(Permission::MerchantConnectorAccountWrite);
        },
        PermissionGroup::WorkflowsView => {
            v.push(Permission::RoutingRead);
            v.push(Permission::ThreeDsDecisionManagerRead);
            v.push(Permission::SurchargeDecisionManagerRead);
        },
        PermissionGroup::WorkflowsManage => {
            v.push(Permission::RoutingWrite);
            v.push(Permission::ThreeDsDecisionManagerWrite);
            v.push(Permission::SurchargeDecisionManagerWrite);
        },
        PermissionGroup::AnalyticsView => {
            v.push(Permission::Analytics);
            v.push(Permission::GenerateReport);
        },
        PermissionGroup::UsersView => {
            v.push(Permission::UsersRead);
        },
        PermissionGroup::UsersManage => {
            v.push(Permission::UsersWrite);
        },
        PermissionGroup::MerchantDetailsView => {
            v.push(Permission::MerchantAccountRead);
            v.push(Permission::ApiKeyRead);
            v.push(Permission::WebhookEventRead);
        },
        PermissionGroup::MerchantDetailsManage => {
            v.push(Permission::MerchantAccountWrite);
            v.push(Permission::ApiKeyWrite);
            v.push(Permission::WebhookEventWrite);
        },
        PermissionGroup::OrganizationManage => {
            v.push(Permission::MerchantAccountCreate);
        },
    }
    proof {
        assert(v@ =~= group_permissions_spec(*group));
    }
    v
}

} // verus!
