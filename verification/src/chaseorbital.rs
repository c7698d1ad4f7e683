//! The Chase Orbital connector: header construction, request and
//! response mapping, and validation, over the canonical payment
//! models.

pub mod transformers;

use vstd::prelude::*;
use vstd::string::StringExecFns;

use base64::Engine;

use crate::amount::{dec_digits, minor_unit_to_string};
use crate::enums::{CaptureMethod, CurrencyUnit};
use crate::errors::ConnectorError;
use crate::payments::{Connectors, ConnectorAuthType, ErrorResponse, PaymentsAuthorizeData,
    RefundsData};
use crate::store::opt_owned_view;
use transformers::{
    is_payments_request_for, ChaseorbitalAuthType, ChaseorbitalErrorResponse,
    ChaseorbitalPaymentsRequest, ChaseorbitalRefundRequest, ChaseorbitalRouterData,
};

verus! {

/// What the standard base64 engine returns for the bytes of a string.
pub uninterp spec fn base64_of(s: Seq<char>) -> Seq<char>;

/// Relies on base64's `STANDARD` engine (RFC 4648 with padding): the
/// encoding is a function of the input bytes alone, four output
/// characters for every three input bytes begun.
#[verifier::external_body]
fn base64_encode(data: &str) -> (r: String)
    requires
        data@.len() < 0x2000000000000000,
    ensures
        r@ == base64_of(data@),
        r@.len() == 4 * ((vstd::utf8::encode_utf8(data@).len() + 2) / 3),
{
    base64::engine::general_purpose::STANDARD.encode(data.as_bytes())
}

/// The value of the HTTP basic-authentication header for a credential
/// pair.
pub open spec fn basic_auth_value(user: Seq<char>, password: Seq<char>) -> Seq<char> {
    "Basic "@ + base64_of(user + ":"@ + password)
}

/// The Chase Orbital connector.
pub struct Chaseorbital {
    pub currency_unit: CurrencyUnit,
}

impl Chaseorbital {
    /// A connector configured for minor-unit amounts.
    pub fn new() -> (r: Chaseorbital)
        ensures
            r.currency_unit == CurrencyUnit::Minor,
    {
        Chaseorbital { currency_unit: CurrencyUnit::Minor }
    }

    /// The connector's registry name.
    pub fn id(&self) -> (r: &'static str)
        ensures
            r@ == "chaseorbital"@,
    {
        "chaseorbital"
    }

    /// The unit amounts are sent in.
    pub fn get_currency_unit(&self) -> (r: CurrencyUnit)
        ensures
            r == CurrencyUnit::Minor,
    {
        CurrencyUnit::Minor
    }

    /// The content type of every request.
    pub fn common_get_content_type(&self) -> (r: &'static str)
        ensures
            r@ == "application/json"@,
    {
        "application/json"
    }

    /// The configured endpoint base.
    pub fn base_url<'a>(&self, connectors: &'a Connectors) -> (r: &'a String)
        ensures
            r@ == connectors.base_url@,
    {
        &connectors.base_url
    }

    /// The basic-authentication header for the configured credentials.
    /// Only a `SignatureKey` configuration carries them.
    pub fn get_auth_header(&self, auth_type: &ConnectorAuthType) -> (r: Result<
        Vec<(String, String)>,
        ConnectorError,
    >)
        requires
            auth_type matches ConnectorAuthType::SignatureKey { api_key, api_secret, .. }
                ==> api_key@.len() + api_secret@.len() < 0x1000000000000000,
        ensures
            r is Ok <==> auth_type is SignatureKey,
            r matches Ok(v) ==> (auth_type matches ConnectorAuthType::SignatureKey {
                api_key,
                api_secret,
                ..
            } && v@.len() == 1 && v@[0].0@ == "Authorization"@ && v@[0].1@ == basic_auth_value(
                api_key@,
                api_secret@,
            )),
            r matches Err(e) ==> e == ConnectorError::FailedToObtainAuthType,
    {
        let auth = match ChaseorbitalAuthType::try_from(auth_type) {
            Ok(a) => a,
            Err(e) => {
                return Err(e);
            },
        };
        let auth_key = auth.orb_user_name.concat(":").concat(auth.orb_password.as_str());
        proof {
            reveal_strlit(":");
        }
        let encoded = base64_encode(auth_key.as_str());
        let auth_header = "Basic ".to_owned().concat(encoded.as_str());
        let mut out: Vec<(String, String)> = Vec::new();
        out.push(("Authorization".to_owned(), auth_header));
        Ok(out)
    }

    /// The headers of every call: the content type and the
    /// basic-authentication header.
    pub fn build_headers(&self, auth_type: &ConnectorAuthType) -> (r: Result<
        Vec<(String, String)>,
        ConnectorError,
    >)
        requires
            auth_type matches ConnectorAuthType::SignatureKey { api_key, api_secret, .. }
                ==> api_key@.len() + api_secret@.len() < 0x1000000000000000,
        ensures
            r is Ok <==> auth_type is SignatureKey,
            r matches Ok(v) ==> (auth_type matches ConnectorAuthType::SignatureKey {
                api_key,
                api_secret,
                ..
            } && v@.len() == 2 && v@[0].0@ == "Content-Type"@ && v@[0].1@ == "application/json"@
                && v@[1].0@ == "Authorization"@ && v@[1].1@ == basic_auth_value(
                api_key@,
                api_secret@,
            )),
            r matches Err(e) ==> e == ConnectorError::FailedToObtainAuthType,
    {
        let mut header: Vec<(String, String)> = Vec::new();
        header.push(("Content-Type".to_owned(), self.common_get_content_type().to_owned()));
        let mut api_key = match self.get_auth_header(auth_type) {
            Ok(v) => v,
            Err(e) => {
                return Err(e);
            },
        };
        let pair = api_key.remove(0);
        header.push(pair);
        Ok(header)
    }

    /// Maps a decoded failure response to the canonical error, keeping
    /// the connector's code, message and reason.
    pub fn build_error_response(&self, response: &ChaseorbitalErrorResponse, status_code: u16) -> (
        r: ErrorResponse)
        ensures
            r.status_code == status_code,
            r.code@ == response.code@,
            r.message@ == response.message@,
            opt_owned_view(r.reason) == opt_owned_view(response.reason),
            r.attempt_status is None,
            r.connector_transaction_id is None,
    {
        ErrorResponse {
            status_code,
            code: response.code.clone(),
            message: response.message.clone(),
            reason: crate::store::clone_opt_string(&response.reason),
            attempt_status: None,
            connector_transaction_id: None,
        }
    }

    /// Accepts automatic and manual capture; multiple or scheduled
    /// capture is not implemented. An absent method counts as
    /// automatic.
    pub fn validate_capture_method(&self, capture_method: Option<CaptureMethod>) -> (r: Result<
        (),
        ConnectorError,
    >)
        ensures
            r is Ok <==> (capture_method is None || capture_method == Some(
                CaptureMethod::Automatic,
            ) || capture_method == Some(CaptureMethod::Manual)),
            r matches Err(e) ==> e matches ConnectorError::NotImplemented(_),
    {
        let method = match capture_method {
            Some(m) => m,
            None => CaptureMethod::Automatic,
        };
        match method {
            CaptureMethod::Automatic | CaptureMethod::Manual => Ok(()),
            CaptureMethod::ManualMultiple | CaptureMethod::Scheduled => {
                Err(ConnectorError::NotImplemented("Capture method for chaseorbital".to_owned()))
            },
        }
    }

    /// The authorize endpoint.
    pub fn get_url(&self, connectors: &Connectors) -> (r: String)
        ensures
            r@ == connectors.base_url@ + "authorize"@,
    {
        connectors.base_url.clone().concat("authorize")
    }

    /// Builds the authorize request body: the amount written in minor
    /// units, and the card and merchant details.
    pub fn get_request_body(&self, req: &PaymentsAuthorizeData) -> (r: Result<
        ChaseorbitalPaymentsRequest,
        ConnectorError,
    >)
        ensures
            r is Ok <==> (req.connector_auth_type is SignatureKey && req.payment_method_data
                is Card),
            r matches Ok(body) ==> is_payments_request_for(
                body,
                dec_digits(req.minor_amount as nat),
                *req,
            ),
            !(req.connector_auth_type is SignatureKey) ==> (r matches Err(e) && e
                == ConnectorError::FailedToObtainAuthType),
            req.connector_auth_type is SignatureKey && !(req.payment_method_data is Card) ==> (
            r matches Err(e) && e matches ConnectorError::NotImplemented(_)),
    {
        let amount = minor_unit_to_string(req.minor_amount);
        let connector_router_data = ChaseorbitalRouterData::from(amount, req);
        ChaseorbitalPaymentsRequest::try_from(&connector_router_data)
    }

    /// Builds the refund request body: the refund amount written in
    /// minor units.
    pub fn get_refund_request_body(&self, req: &RefundsData) -> (r: Result<
        ChaseorbitalRefundRequest,
        ConnectorError,
    >)
        ensures
            r matches Ok(body) && body.amount@ == dec_digits(req.minor_refund_amount as nat),
    {
        let refund_amount = minor_unit_to_string(req.minor_refund_amount);
        let connector_router_data = ChaseorbitalRouterData::from(refund_amount, req);
        ChaseorbitalRefundRequest::try_from(&connector_router_data)
    }
}

} // verus!
