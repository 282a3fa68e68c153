//! Conversions between the router's data and DemoPay's card API bodies.

use vstd::prelude::*;
use vstd::std_specs::convert::FromSpecImpl;

use crate::amount::MinorUnit;
use crate::enums::{self, AttemptStatus};
use crate::errors::ConnectorError;
use crate::router_data::{
    auto_capture_result, billing_field, Address, Card, ConnectorAuthType, ErrorResponse,
    PaymentMethodData, PaymentMethodToken, PaymentsAuthorizeRouterData,
    PaymentsCaptureRouterData, PaymentsResponseData, RefundsData, RefundsResponseData, ResponseId,
    ResponseRouterData, RouterData, TokenizationRouterData,
};

verus! {

/// Code reported when DemoPay gives no error code.
pub const NO_ERROR_CODE: &'static str = "No error code";

/// Message reported when DemoPay gives no error message.
pub const NO_ERROR_MESSAGE: &'static str = "No error message";

/// An amount in minor units with the router data it belongs to.
pub struct DemopayRouterData<T> {
    pub amount: MinorUnit,
    pub router_data: T,
}

impl<T> DemopayRouterData<T> {
    /// Pairs an amount with its router data; this never fails.
    pub fn try_from(item: (MinorUnit, T)) -> (r: Result<Self, ConnectorError>)
        ensures
            r matches Ok(d) && d.amount == item.0 && d.router_data == item.1,
    {
        let (amount, router_data) = item;
        Ok(DemopayRouterData { amount, router_data })
    }
}

/// DemoPay's credentials: a private API key and a public key, both sent in
/// the body.
#[derive(Debug, PartialEq, Eq)]
pub struct DemopayAuthType {
    pub api_key: String,
    pub public_api_key: String,
}

impl DemopayAuthType {
    /// The two keys of body-key credentials; any other kind is refused.
    pub fn try_from(auth_type: &ConnectorAuthType) -> (r: Result<DemopayAuthType, ConnectorError>)
        ensures
            match *auth_type {
                ConnectorAuthType::BodyKey { api_key, key1 } => r == Ok::<DemopayAuthType, ConnectorError>(
                    DemopayAuthType { api_key, public_api_key: key1 },
                ),
                _ => r == Err::<DemopayAuthType, ConnectorError>(
                    ConnectorError::FailedToObtainAuthType,
                ),
            },
    {
        match auth_type {
            ConnectorAuthType::BodyKey { api_key, key1 } => Ok(
                DemopayAuthType { api_key: api_key.clone(), public_api_key: key1.clone() },
            ),
            _ => Err(ConnectorError::FailedToObtainAuthType),
        }
    }
}

/// Why a card is tokenized.
#[derive(Debug, Clone, Copy, PartialEq, Eq, Structural)]
pub enum DemopayTokenRequestIntent {
    ChargeAndStore,
}

/// When strong customer authentication is used.
#[derive(Debug, Clone, Copy, PartialEq, Eq, Structural)]
pub enum DemopayStrongAuthRule {
    UseScaIfAvailableAuth,
}

/// Body of a card tokenization request.
#[derive(Debug, PartialEq, Eq)]
pub struct DemopayTokenRequest {
    pub number: String,
    pub month: String,
    pub year: String,
    pub cvv: String,
    pub pkey: String,
    pub recurring: Option<bool>,
    pub intent: Option<DemopayTokenRequestIntent>,
    pub strong_authentication_rule: Option<DemopayStrongAuthRule>,
}

/// Number of bytes of `c` in UTF-8.
pub open spec fn utf8_len(c: char) -> nat {
    if (c as u32) < 0x80 {
        1
    } else if (c as u32) < 0x800 {
        2
    } else if (c as u32) < 0x10000 {
        3
    } else {
        4
    }
}

/// The last two bytes of a year as a string, when they form whole
/// characters: the last two characters when both are ASCII, the last
/// character when it takes two bytes; nothing otherwise (a string of fewer
/// than two bytes included).
pub open spec fn two_digit_year(year: Seq<char>) -> Option<Seq<char>> {
    let n = year.len() as int;
    if n >= 2 && utf8_len(year[n - 1]) == 1 && utf8_len(year[n - 2]) == 1 {
        Some(year.subrange(n - 2, n))
    } else if n >= 1 && utf8_len(year[n - 1]) == 2 {
        Some(seq![year[n - 1]])
    } else {
        None
    }
}

/// The card's expiry year in two digits; a year whose last two bytes are
/// not whole characters cannot be encoded.
pub fn get_card_expiry_year_2_digit(card: &Card) -> (r: Result<String, ConnectorError>)
    ensures
        match two_digit_year(card.card_exp_year@) {
            Some(y) => r matches Ok(s) && s@ == y,
            None => r == Err::<String, ConnectorError>(ConnectorError::RequestEncodingFailed),
        },
{
    let year = card.card_exp_year.as_str();
    let n = year.unicode_len();
    if n >= 2 {
        let last = year.get_char(n - 1);
        let before = year.get_char(n - 2);
        if (last as u32) < 0x80 && (before as u32) < 0x80 {
            return Ok(String::from_str(year.substring_char(n - 2, n)));
        }
    }
    if n >= 1 {
        let last = year.get_char(n - 1);
        if (last as u32) >= 0x80 && (last as u32) < 0x800 {
            return Ok(String::from_str(year.substring_char(n - 1, n)));
        }
    }
    Err(ConnectorError::RequestEncodingFailed)
}

/// Whether `r` is what a tokenization comes to: only cards are tokenized,
/// with body-key credentials whose public key goes along, and with the
/// expiry year in two digits.
pub open spec fn token_request_result(
    item: TokenizationRouterData,
    r: Result<DemopayTokenRequest, ConnectorError>,
) -> bool {
    match item.request.payment_method_data {
        PaymentMethodData::Card(card) => match item.connector_auth_type {
            ConnectorAuthType::BodyKey { api_key, key1 } => match two_digit_year(card.card_exp_year@) {
                Some(year) => r matches Ok(body) && body.number == card.card_number && body.month
                    == card.card_exp_month && body.year@ == year && body.cvv == card.card_cvc
                    && body.pkey == key1 && body.recurring is None && body.intent is None
                    && body.strong_authentication_rule is None,
                None => r == Err::<DemopayTokenRequest, ConnectorError>(
                    ConnectorError::RequestEncodingFailed,
                ),
            },
            _ => r == Err::<DemopayTokenRequest, ConnectorError>(
                ConnectorError::FailedToObtainAuthType,
            ),
        },
        _ => r matches Err(ConnectorError::NotImplemented(message)) && message@
            == "Selected payment method through Demopay"@,
    }
}

impl DemopayTokenRequest {
    /// The tokenization request for a card.
    pub fn try_from(item: &TokenizationRouterData) -> (r: Result<DemopayTokenRequest, ConnectorError>)
        ensures
            token_request_result(*item, r),
    {
        match &item.request.payment_method_data {
            PaymentMethodData::Card(ccard) => {
                let connector_auth = &item.connector_auth_type;
                let auth_type = DemopayAuthType::try_from(connector_auth)?;
                let year = get_card_expiry_year_2_digit(ccard)?;
                Ok(
                    DemopayTokenRequest {
                        number: ccard.card_number.clone(),
                        month: ccard.card_exp_month.clone(),
                        year,
                        cvv: ccard.card_cvc.clone(),
                        pkey: auth_type.public_api_key,
                        recurring: None,
                        intent: None,
                        strong_authentication_rule: None,
                    },
                )
            },
            _ => {
                let message = get_unimplemented_payment_method_error_message("Demopay");
                proof {
                    reveal_strlit("Selected payment method through ");
                    reveal_strlit("Demopay");
                    reveal_strlit("Selected payment method through Demopay");
                    assert(message@ =~= "Selected payment method through Demopay"@);
                }
                Err(ConnectorError::NotImplemented(message))
            },
        }
    }
}

/// The message for a payment method the connector does not support.
pub fn get_unimplemented_payment_method_error_message(connector: &str) -> (r: String)
    ensures
        r@ == "Selected payment method through "@ + connector@,
{
    let mut message = String::from_str("Selected payment method through ");
    message.append(connector);
    message
}

/// DemoPay's reply to a tokenization: the token standing for the card.
#[derive(Debug, PartialEq, Eq)]
pub struct DemopayTokenResponse {
    pub id: String,
    pub recurring: Option<bool>,
}

/// The router data after a tokenization reply: the response carries the
/// token; everything else is unchanged.
pub fn token_router_data<Req>(
    item: ResponseRouterData<DemopayTokenResponse, Req, PaymentsResponseData>,
) -> (r: Result<RouterData<Req, PaymentsResponseData>, ConnectorError>)
    ensures
        r == Ok::<RouterData<Req, PaymentsResponseData>, ConnectorError>(
            RouterData {
                response: Ok(PaymentsResponseData::TokenizationResponse { token: item.response.id }),
                ..item.data
            },
        ),
{
    Ok(RouterData {
        response: Ok(PaymentsResponseData::TokenizationResponse { token: item.response.id }),
        ..item.data
    })
}

/// The customer a payment is for, as DemoPay records them.
#[derive(Debug, PartialEq, Eq)]
pub struct DemopayCustomerObject {
    pub handle: Option<String>,
    pub email: Option<String>,
    pub address: Option<String>,
    pub address2: Option<String>,
    pub city: Option<String>,
    pub country: Option<String>,
    pub first_name: Option<String>,
    pub last_name: Option<String>,
}

/// Body of a card payment request.
#[derive(Debug, PartialEq, Eq)]
pub struct DemopayPaymentsRequest {
    pub handle: String,
    pub amount: MinorUnit,
    pub source: String,
    pub currency: String,
    pub customer: DemopayCustomerObject,
    pub metadata: Option<String>,
    pub settle: bool,
}

/// The customer object of a payment: the router's customer id, the email
/// of the request, and the payment method's billing address.
pub open spec fn customer_of(data: PaymentsAuthorizeRouterData) -> DemopayCustomerObject {
    DemopayCustomerObject {
        handle: data.customer_id,
        email: data.request.email,
        address: billing_field(data, |a: Address| a.line1),
        address2: billing_field(data, |a: Address| a.line2),
        city: billing_field(data, |a: Address| a.city),
        country: billing_field(data, |a: Address| a.country),
        first_name: billing_field(data, |a: Address| a.first_name),
        last_name: billing_field(data, |a: Address| a.last_name),
    }
}

/// The card payment request charging `token`, settled at once or not.
pub open spec fn card_payment(
    amount: MinorUnit,
    data: PaymentsAuthorizeRouterData,
    token: String,
    settle: bool,
) -> DemopayPaymentsRequest {
    DemopayPaymentsRequest {
        handle: data.connector_request_reference_id,
        amount,
        source: token,
        currency: data.request.currency,
        customer: customer_of(data),
        metadata: data.request.metadata,
        settle,
    }
}

/// Whether `r` is what a card payment request comes to: 3-D Secure is not
/// supported; the payment must carry a plain payment method token, which is
/// the source charged; the payment is settled at once exactly when it is
/// captured automatically, and capture methods other than automatic and
/// manual are refused.
pub open spec fn payments_request_result(
    amount: MinorUnit,
    data: PaymentsAuthorizeRouterData,
    r: Result<DemopayPaymentsRequest, ConnectorError>,
) -> bool {
    if data.auth_type == enums::AuthenticationType::ThreeDs {
        r matches Err(ConnectorError::NotImplemented(message)) && message@
            == "Three_ds payments through Demopay"@
    } else {
        match data.payment_method_token {
            Some(PaymentMethodToken::Token(token)) => match data.request.capture_method {
                None | Some(enums::CaptureMethod::Automatic) | Some(
                    enums::CaptureMethod::SequentialAutomatic,
                ) => r == Ok::<DemopayPaymentsRequest, ConnectorError>(
                    card_payment(amount, data, token, true),
                ),
                Some(enums::CaptureMethod::Manual) => r == Ok::<DemopayPaymentsRequest, ConnectorError>(
                    card_payment(amount, data, token, false),
                ),
                _ => r == Err::<DemopayPaymentsRequest, ConnectorError>(
                    ConnectorError::CaptureMethodNotSupported,
                ),
            },
            _ => r matches Err(ConnectorError::MissingRequiredField { field_name }) && field_name@
                == "payment_method_token"@,
        }
    }
}

impl DemopayPaymentsRequest {
    /// The card payment request for an authorization.
    pub fn try_from(item: &DemopayRouterData<&PaymentsAuthorizeRouterData>) -> (r: Result<
        DemopayPaymentsRequest,
        ConnectorError,
    >)
        ensures
            payments_request_result(item.amount, *item.router_data, r),
    {
        if item.router_data.is_three_ds() {
            return Err(ConnectorError::NotImplemented(String::from_str("Three_ds payments through Demopay")));
        }
        let source = match item.router_data.get_payment_method_token()? {
            PaymentMethodToken::Token(pm_token) => Ok(pm_token.clone()),
            _ => Err(ConnectorError::MissingRequiredField { field_name: "payment_method_token" }),
        }?;
        let customer = DemopayCustomerObject {
            handle: item.router_data.customer_id.clone(),
            email: item.router_data.request.email.clone(),
            address: item.router_data.get_optional_billing_line1(),
            address2: item.router_data.get_optional_billing_line2(),
            city: item.router_data.get_optional_billing_city(),
            country: item.router_data.get_optional_billing_country(),
            first_name: item.router_data.get_optional_billing_first_name(),
            last_name: item.router_data.get_optional_billing_last_name(),
        };
        let settle = item.router_data.request.is_auto_capture()?;
        Ok(
            DemopayPaymentsRequest {
                handle: item.router_data.connector_request_reference_id.clone(),
                amount: item.amount,
                source,
                currency: item.router_data.request.currency.clone(),
                customer,
                metadata: item.router_data.request.metadata.clone(),
                settle,
            },
        )
    }
}

/// State of a payment as DemoPay reports it.
#[derive(Debug, Clone, Copy, PartialEq, Eq, Structural)]
pub enum DemopayPaymentState {
    Created,
    Authorized,
    Pending,
    Settled,
    Failed,
    Cancelled,
}

/// The router's attempt status for a DemoPay payment state.
pub open spec fn attempt_status_of(item: DemopayPaymentState) -> AttemptStatus {
    match item {
        DemopayPaymentState::Created | DemopayPaymentState::Pending => AttemptStatus::Pending,
        DemopayPaymentState::Authorized => AttemptStatus::Authorized,
        DemopayPaymentState::Settled => AttemptStatus::Charged,
        DemopayPaymentState::Failed => AttemptStatus::Failure,
        DemopayPaymentState::Cancelled => AttemptStatus::Voided,
    }
}

impl From<DemopayPaymentState> for AttemptStatus {
    fn from(item: DemopayPaymentState) -> (r: Self) {
        match item {
            DemopayPaymentState::Created | DemopayPaymentState::Pending => AttemptStatus::Pending,
            DemopayPaymentState::Authorized => AttemptStatus::Authorized,
            DemopayPaymentState::Settled => AttemptStatus::Charged,
            DemopayPaymentState::Failed => AttemptStatus::Failure,
            DemopayPaymentState::Cancelled => AttemptStatus::Voided,
        }
    }
}

impl FromSpecImpl<DemopayPaymentState> for AttemptStatus {
    open spec fn obeys_from_spec() -> bool {
        true
    }

    open spec fn from_spec(v: DemopayPaymentState) -> AttemptStatus {
        attempt_status_of(v)
    }
}

/// DemoPay's reply to a payment, capture or status request.
#[derive(Debug, PartialEq, Eq)]
pub struct DemopayPaymentsResponse {
    pub state: DemopayPaymentState,
    pub handle: String,
    pub error: Option<String>,
    pub error_state: Option<String>,
}

/// Whether `r` is the router data after a DemoPay payment reply. The attempt
/// status is always the reply's state mapped. A reply that names an error or
/// an error state is a failure: its code and message are the error state
/// (or the placeholders when there is none), its reason the error, with the
/// HTTP code and the payment handle. Any other reply is a transaction
/// response carrying the handle. Everything else is unchanged.
pub open spec fn payments_router_data_result<Req>(
    item: ResponseRouterData<DemopayPaymentsResponse, Req, PaymentsResponseData>,
    r: Result<RouterData<Req, PaymentsResponseData>, ConnectorError>,
) -> bool {
    r matches Ok(d) && {
        &&& d.status == attempt_status_of(item.response.state)
        &&& d.connector_auth_type == item.data.connector_auth_type
        &&& d.auth_type == item.data.auth_type
        &&& d.connector_request_reference_id == item.data.connector_request_reference_id
        &&& d.customer_id == item.data.customer_id
        &&& d.payment_method_token == item.data.payment_method_token
        &&& d.address == item.data.address
        &&& d.request == item.data.request
        &&& if item.response.error is Some || item.response.error_state is Some {
            d.response matches Err(e) && {
                &&& e.code@ == match item.response.error_state {
                    Some(s) => s@,
                    None => NO_ERROR_CODE@,
                }
                &&& e.message@ == match item.response.error_state {
                    Some(s) => s@,
                    None => NO_ERROR_MESSAGE@,
                }
                &&& e.reason == item.response.error
                &&& e.status_code == item.http_code
                &&& e.attempt_status is None
                &&& e.connector_transaction_id == Some(item.response.handle)
                &&& e.network_advice_code is None
                &&& e.network_decline_code is None
                &&& e.network_error_message is None
            }
        } else {
            d.response == Ok::<PaymentsResponseData, ErrorResponse>(
                PaymentsResponseData::TransactionResponse {
                    resource_id: ResponseId::ConnectorTransactionId(item.response.handle),
                    connector_response_reference_id: Some(item.response.handle),
                },
            )
        }
    }
}

/// `value`, or the text `default` when there is none.
fn unwrap_or_str(value: Option<String>, default: &str) -> (r: String)
    ensures
        r@ == match value {
            Some(s) => s@,
            None => default@,
        },
{
    match value {
        Some(s) => s,
        None => String::from_str(default),
    }
}

/// Applies a DemoPay payment reply to the router data it answers.
pub fn payments_router_data<Req>(
    item: ResponseRouterData<DemopayPaymentsResponse, Req, PaymentsResponseData>,
) -> (r: Result<RouterData<Req, PaymentsResponseData>, ConnectorError>)
    ensures
        payments_router_data_result(item, r),
{
    let status = AttemptStatus::from(item.response.state);
    let error_response = if item.response.error.is_some() || item.response.error_state.is_some() {
        Some(
            ErrorResponse {
                code: unwrap_or_str(item.response.error_state.clone(), NO_ERROR_CODE),
                message: unwrap_or_str(item.response.error_state.clone(), NO_ERROR_MESSAGE),
                reason: item.response.error.clone(),
                status_code: item.http_code,
                attempt_status: None,
                connector_transaction_id: Some(item.response.handle.clone()),
                network_advice_code: None,
                network_decline_code: None,
                network_error_message: None,
            },
        )
    } else {
        None
    };
    let handle = item.response.handle;
    let response = match error_response {
        Some(e) => Err(e),
        None => Ok(
            PaymentsResponseData::TransactionResponse {
                resource_id: ResponseId::ConnectorTransactionId(handle.clone()),
                connector_response_reference_id: Some(handle),
            },
        ),
    };
    Ok(RouterData { status, response, ..item.data })
}

/// Body of a capture request: the amount to capture.
#[derive(Debug, PartialEq, Eq)]
pub struct DemopayCaptureRequest {
    pub amount: MinorUnit,
}

impl DemopayCaptureRequest {
    /// The capture request for the amount.
    pub fn try_from(item: &DemopayRouterData<&PaymentsCaptureRouterData>) -> (r: Result<
        DemopayCaptureRequest,
        ConnectorError,
    >)
        ensures
            r == Ok::<DemopayCaptureRequest, ConnectorError>(DemopayCaptureRequest { amount: item.amount }),
    {
        Ok(DemopayCaptureRequest { amount: item.amount })
    }
}

/// Body of a refund request: the payment as the invoice, the amount, and
/// the reason as text.
#[derive(Debug, PartialEq, Eq)]
pub struct DemopayRefundRequest {
    pub invoice: String,
    pub amount: MinorUnit,
    pub text: Option<String>,
}

impl DemopayRefundRequest {
    /// The refund request for the amount.
    pub fn try_from<Resp>(item: &DemopayRouterData<&RouterData<RefundsData, Resp>>) -> (r: Result<
        DemopayRefundRequest,
        ConnectorError,
    >)
        ensures
            r == Ok::<DemopayRefundRequest, ConnectorError>(
                DemopayRefundRequest {
                    invoice: item.router_data.request.connector_transaction_id,
                    amount: item.amount,
                    text: item.router_data.request.reason,
                },
            ),
    {
        Ok(
            DemopayRefundRequest {
                amount: item.amount,
                invoice: item.router_data.request.connector_transaction_id.clone(),
                text: item.router_data.request.reason.clone(),
            },
        )
    }
}

/// State of a refund as DemoPay reports it.
#[derive(Debug, Clone, Copy, PartialEq, Eq, Structural)]
pub enum RefundState {
    Refunded,
    Failed,
    Processing,
}

/// The router's refund status for a DemoPay refund state.
pub open spec fn refund_status_of(item: RefundState) -> enums::RefundStatus {
    match item {
        RefundState::Refunded => enums::RefundStatus::Success,
        RefundState::Failed => enums::RefundStatus::Failure,
        RefundState::Processing => enums::RefundStatus::Pending,
    }
}

impl From<RefundState> for enums::RefundStatus {
    fn from(item: RefundState) -> (r: Self) {
        match item {
            RefundState::Refunded => enums::RefundStatus::Success,
            RefundState::Failed => enums::RefundStatus::Failure,
            RefundState::Processing => enums::RefundStatus::Pending,
        }
    }
}

impl FromSpecImpl<RefundState> for enums::RefundStatus {
    open spec fn obeys_from_spec() -> bool {
        true
    }

    open spec fn from_spec(v: RefundState) -> enums::RefundStatus {
        refund_status_of(v)
    }
}

/// DemoPay's reply to a refund or refund status request.
#[derive(Debug, PartialEq, Eq)]
pub struct RefundResponse {
    pub id: String,
    pub state: RefundState,
}

/// The router data after a DemoPay refund reply: the response carries the
/// refund id and the mapped refund state; everything else is unchanged.
pub open spec fn spec_refunds_router_data(
    item: ResponseRouterData<RefundResponse, RefundsData, RefundsResponseData>,
) -> RouterData<RefundsData, RefundsResponseData> {
    RouterData {
        response: Ok(
            RefundsResponseData {
                connector_refund_id: item.response.id,
                refund_status: refund_status_of(item.response.state),
            },
        ),
        ..item.data
    }
}

/// Applies DemoPay's reply to a refund request.
pub fn refund_execute_router_data(
    item: ResponseRouterData<RefundResponse, RefundsData, RefundsResponseData>,
) -> (r: Result<RouterData<RefundsData, RefundsResponseData>, ConnectorError>)
    ensures
        r == Ok::<RouterData<RefundsData, RefundsResponseData>, ConnectorError>(
            spec_refunds_router_data(item),
        ),
{
    let refund_status = enums::RefundStatus::from(item.response.state);
    Ok(RouterData {
        response: Ok(RefundsResponseData { connector_refund_id: item.response.id, refund_status }),
        ..item.data
    })
}

/// Applies DemoPay's reply to a refund status request.
pub fn refund_sync_router_data(
    item: ResponseRouterData<RefundResponse, RefundsData, RefundsResponseData>,
) -> (r: Result<RouterData<RefundsData, RefundsResponseData>, ConnectorError>)
    ensures
        r == Ok::<RouterData<RefundsData, RefundsResponseData>, ConnectorError>(
            spec_refunds_router_data(item),
        ),
{
    let refund_status = enums::RefundStatus::from(item.response.state);
    Ok(RouterData {
        response: Ok(RefundsResponseData { connector_refund_id: item.response.id, refund_status }),
        ..item.data
    })
}

/// DemoPay's body for a failed request.
#[derive(Debug, PartialEq, Eq)]
pub struct DemopayErrorResponse {
    pub code: Option<i32>,
    pub error: String,
    pub message: Option<String>,
}

} // verus!
