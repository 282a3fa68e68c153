//! Conversions between the router's data and DemoPay's wallet API bodies.

use vstd::prelude::*;
use vstd::std_specs::convert::FromSpecImpl;

use crate::amount::StringMinorUnit;
use crate::enums::{self, AttemptStatus};
use crate::errors::ConnectorError;
use crate::router_data::{
    ConnectorAuthType, PaymentMethodData, PaymentsAuthorizeRouterData,
    PaymentsCaptureRouterData, PaymentsResponseData, RefundsData, RefundsResponseData,
    ResponseId, ResponseRouterData, RouterData,
};

verus! {

/// An amount already converted for DemoPay, with the router data it belongs to.
pub struct DemoPayRouterData<T> {
    pub amount: StringMinorUnit,
    pub router_data: T,
}

impl<T> DemoPayRouterData<T> {
    /// Pairs a converted amount with its router data.
    pub fn from(item: (StringMinorUnit, T)) -> (r: Self)
        ensures
            r.amount == item.0,
            r.router_data == item.1,
    {
        let (amount, router_data) = item;
        DemoPayRouterData { amount, router_data }
    }
}

/// Body of a wallet payment request.
#[derive(Debug, PartialEq, Eq)]
pub struct DemoPayPaymentsRequest {
    pub amount: StringMinorUnit,
    pub currency: String,
    pub wallet_id: String,
    pub transaction_id: String,
}

/// Body of a capture request.
#[derive(Debug, PartialEq, Eq)]
pub struct DemoPayCaptureRequest {
    pub amount: StringMinorUnit,
    pub transaction_id: String,
}

/// Body of a refund request.
#[derive(Debug, PartialEq, Eq)]
pub struct DemoPayRefundRequest {
    pub amount: StringMinorUnit,
    pub transaction_id: String,
    pub refund_id: String,
}

/// DemoPay's credentials: an API key sent in a header.
#[derive(Debug, PartialEq, Eq)]
pub struct DemoPayAuthType {
    pub api_key: String,
}

impl DemoPayAuthType {
    /// The API key of header-key credentials; any other kind is refused.
    pub fn try_from(auth_type: &ConnectorAuthType) -> (r: Result<DemoPayAuthType, ConnectorError>)
        ensures
            match *auth_type {
                ConnectorAuthType::HeaderKey { api_key } => r == Ok::<DemoPayAuthType, ConnectorError>(
                    DemoPayAuthType { api_key },
                ),
                _ => r == Err::<DemoPayAuthType, ConnectorError>(
                    ConnectorError::FailedToObtainAuthType,
                ),
            },
    {
        match auth_type {
            ConnectorAuthType::HeaderKey { api_key } => Ok(DemoPayAuthType { api_key: api_key.clone() }),
            _ => Err(ConnectorError::FailedToObtainAuthType),
        }
    }
}

/// State of a payment as DemoPay reports it.
#[derive(Debug, Clone, Copy, PartialEq, Eq, Structural)]
pub enum DemoPayPaymentStatus {
    Succeeded,
    Failed,
    Processing,
    Authorized,
    Captured,
    Voided,
}

impl DemoPayPaymentStatus {
    /// A payment is processing until DemoPay says otherwise.
    pub fn default() -> (r: DemoPayPaymentStatus)
        ensures
            r == DemoPayPaymentStatus::Processing,
    {
        DemoPayPaymentStatus::Processing
    }
}

/// The router's attempt status for a DemoPay payment status.
pub open spec fn attempt_status_of(item: DemoPayPaymentStatus) -> AttemptStatus {
    match item {
        DemoPayPaymentStatus::Succeeded => AttemptStatus::Charged,
        DemoPayPaymentStatus::Failed => AttemptStatus::Failure,
        DemoPayPaymentStatus::Processing => AttemptStatus::Pending,
        DemoPayPaymentStatus::Authorized => AttemptStatus::Authorized,
        DemoPayPaymentStatus::Captured => AttemptStatus::Charged,
        DemoPayPaymentStatus::Voided => AttemptStatus::Voided,
    }
}

impl From<DemoPayPaymentStatus> for AttemptStatus {
    fn from(item: DemoPayPaymentStatus) -> (r: Self) {
        match item {
            DemoPayPaymentStatus::Succeeded => AttemptStatus::Charged,
            DemoPayPaymentStatus::Failed => AttemptStatus::Failure,
            DemoPayPaymentStatus::Processing => AttemptStatus::Pending,
            DemoPayPaymentStatus::Authorized => AttemptStatus::Authorized,
            DemoPayPaymentStatus::Captured => AttemptStatus::Charged,
            DemoPayPaymentStatus::Voided => AttemptStatus::Voided,
        }
    }
}

impl FromSpecImpl<DemoPayPaymentStatus> for AttemptStatus {
    open spec fn obeys_from_spec() -> bool {
        true
    }

    open spec fn from_spec(v: DemoPayPaymentStatus) -> AttemptStatus {
        attempt_status_of(v)
    }
}

/// DemoPay's reply to a payment, capture or status request.
#[derive(Debug, PartialEq, Eq)]
pub struct DemoPayPaymentsResponse {
    pub status: DemoPayPaymentStatus,
    pub id: String,
    pub amount: Option<StringMinorUnit>,
    pub currency: Option<String>,
}

/// The router data after a DemoPay payment reply: the attempt status is the
/// reply's status mapped, the response is a transaction response carrying
/// DemoPay's payment id, and everything else is unchanged.
pub open spec fn spec_payments_router_data<Req>(
    item: ResponseRouterData<DemoPayPaymentsResponse, Req, PaymentsResponseData>,
) -> RouterData<Req, PaymentsResponseData> {
    RouterData {
        status: attempt_status_of(item.response.status),
        response: Ok(
            PaymentsResponseData::TransactionResponse {
                resource_id: ResponseId::ConnectorTransactionId(item.response.id),
                connector_response_reference_id: None,
            },
        ),
        ..item.data
    }
}

/// Applies a DemoPay payment reply to the router data it answers.
pub fn payments_router_data<Req>(
    item: ResponseRouterData<DemoPayPaymentsResponse, Req, PaymentsResponseData>,
) -> (r: Result<RouterData<Req, PaymentsResponseData>, ConnectorError>)
    ensures
        r == Ok::<RouterData<Req, PaymentsResponseData>, ConnectorError>(
            spec_payments_router_data(item),
        ),
{
    let status = AttemptStatus::from(item.response.status);
    let id = item.response.id;
    Ok(RouterData {
        status,
        response: Ok(
            PaymentsResponseData::TransactionResponse {
                resource_id: ResponseId::ConnectorTransactionId(id),
                connector_response_reference_id: None,
            },
        ),
        ..item.data
    })
}

/// State of a refund as DemoPay reports it.
#[derive(Debug, Clone, Copy, PartialEq, Eq, Structural)]
pub enum RefundStatus {
    Succeeded,
    Failed,
    Processing,
}

impl RefundStatus {
    /// A refund is processing until DemoPay says otherwise.
    pub fn default() -> (r: RefundStatus)
        ensures
            r == RefundStatus::Processing,
    {
        RefundStatus::Processing
    }
}

/// The router's refund status for a DemoPay refund status.
pub open spec fn refund_status_of(item: RefundStatus) -> enums::RefundStatus {
    match item {
        RefundStatus::Succeeded => enums::RefundStatus::Success,
        RefundStatus::Failed => enums::RefundStatus::Failure,
        RefundStatus::Processing => enums::RefundStatus::Pending,
    }
}

impl From<RefundStatus> for enums::RefundStatus {
    fn from(item: RefundStatus) -> (r: Self) {
        match item {
            RefundStatus::Succeeded => enums::RefundStatus::Success,
            RefundStatus::Failed => enums::RefundStatus::Failure,
            RefundStatus::Processing => enums::RefundStatus::Pending,
        }
    }
}

impl FromSpecImpl<RefundStatus> for enums::RefundStatus {
    open spec fn obeys_from_spec() -> bool {
        true
    }

    open spec fn from_spec(v: RefundStatus) -> enums::RefundStatus {
        refund_status_of(v)
    }
}

/// DemoPay's reply to a refund or refund status request.
#[derive(Debug, PartialEq, Eq)]
pub struct RefundResponse {
    pub id: String,
    pub status: RefundStatus,
    pub amount: Option<StringMinorUnit>,
    pub transaction_id: String,
}

/// The router data after a DemoPay refund reply: the response carries the
/// refund id and the mapped refund status; everything else is unchanged.
pub open spec fn spec_refunds_router_data(
    item: ResponseRouterData<RefundResponse, RefundsData, RefundsResponseData>,
) -> RouterData<RefundsData, RefundsResponseData> {
    RouterData {
        response: Ok(
            RefundsResponseData {
                connector_refund_id: item.response.id,
                refund_status: refund_status_of(item.response.status),
            },
        ),
        ..item.data
    }
}

/// Applies DemoPay's reply to a refund request.
pub fn refund_execute_router_data(
    item: ResponseRouterData<RefundResponse, RefundsData, RefundsResponseData>,
) -> (r: Result<RouterData<RefundsData, RefundsResponseData>, ConnectorError>)
    ensures
        r == Ok::<RouterData<RefundsData, RefundsResponseData>, ConnectorError>(
            spec_refunds_router_data(item),
        ),
{
    let refund_status = enums::RefundStatus::from(item.response.status);
    Ok(RouterData {
        response: Ok(RefundsResponseData { connector_refund_id: item.response.id, refund_status }),
        ..item.data
    })
}

/// Applies DemoPay's reply to a refund status request.
pub fn refund_sync_router_data(
    item: ResponseRouterData<RefundResponse, RefundsData, RefundsResponseData>,
) -> (r: Result<RouterData<RefundsData, RefundsResponseData>, ConnectorError>)
    ensures
        r == Ok::<RouterData<RefundsData, RefundsResponseData>, ConnectorError>(
            spec_refunds_router_data(item),
        ),
{
    let refund_status = enums::RefundStatus::from(item.response.status);
    Ok(RouterData {
        response: Ok(RefundsResponseData { connector_refund_id: item.response.id, refund_status }),
        ..item.data
    })
}

/// DemoPay's body for a failed request.
#[derive(Debug, PartialEq, Eq)]
pub struct DemoPayErrorResponse {
    pub status_code: u16,
    pub code: String,
    pub message: String,
    pub reason: Option<String>,
    pub network_advice_code: Option<String>,
    pub network_decline_code: Option<String>,
    pub network_error_message: Option<String>,
}

/// A copy of a converted amount.
fn copy_amount(amount: &StringMinorUnit) -> (r: StringMinorUnit)
    ensures
        r == *amount,
{
    StringMinorUnit { value: amount.value.clone() }
}

/// Whether `r` is what an authorization's wallet request comes to, for the
/// amount string `amount`: only wallet payments are supported, and the wallet
/// must carry a token, which becomes the wallet id; the router's reference id
/// becomes the transaction id.
pub open spec fn payments_request_result(
    amount: Seq<char>,
    data: PaymentsAuthorizeRouterData,
    r: Result<DemoPayPaymentsRequest, ConnectorError>,
) -> bool {
    match data.request.payment_method_data {
        PaymentMethodData::Wallet(wallet) => match wallet.token {
            Some(token) => r matches Ok(req) && req.amount.value@ == amount && req.currency
                == data.request.currency && req.wallet_id == token && req.transaction_id
                == data.connector_request_reference_id,
            None => r matches Err(ConnectorError::MissingRequiredField { field_name })
                && field_name@ == "wallet_id"@,
        },
        _ => r matches Err(ConnectorError::NotImplemented(message)) && message@
            == "Payment method not supported"@,
    }
}

impl DemoPayPaymentsRequest {
    /// The wallet payment request for an authorization.
    pub fn try_from(item: &DemoPayRouterData<&PaymentsAuthorizeRouterData>) -> (r: Result<
        DemoPayPaymentsRequest,
        ConnectorError,
    >)
        ensures
            payments_request_result(item.amount.value@, *item.router_data, r),
    {
        match &item.router_data.request.payment_method_data {
            PaymentMethodData::Wallet(wallet_data) => {
                match &wallet_data.token {
                    Some(token) => Ok(
                        DemoPayPaymentsRequest {
                            amount: copy_amount(&item.amount),
                            currency: item.router_data.request.currency.clone(),
                            wallet_id: token.clone(),
                            transaction_id: item.router_data.connector_request_reference_id.clone(),
                        },
                    ),
                    None => Err(ConnectorError::MissingRequiredField { field_name: "wallet_id" }),
                }
            },
            _ => Err(ConnectorError::NotImplemented(String::from_str("Payment method not supported"))),
        }
    }
}

impl DemoPayCaptureRequest {
    /// The capture request: the converted amount and the router's reference id.
    pub fn try_from(item: &DemoPayRouterData<&PaymentsCaptureRouterData>) -> (r: Result<
        DemoPayCaptureRequest,
        ConnectorError,
    >)
        ensures
            r == Ok::<DemoPayCaptureRequest, ConnectorError>(
                DemoPayCaptureRequest {
                    amount: item.amount,
                    transaction_id: item.router_data.connector_request_reference_id,
                },
            ),
    {
        Ok(
            DemoPayCaptureRequest {
                amount: copy_amount(&item.amount),
                transaction_id: item.router_data.connector_request_reference_id.clone(),
            },
        )
    }
}

impl DemoPayRefundRequest {
    /// The refund request: the converted amount, the payment's connector
    /// transaction id, and the router's reference id as the refund id.
    pub fn try_from<Resp>(item: &DemoPayRouterData<&RouterData<RefundsData, Resp>>) -> (r: Result<
        DemoPayRefundRequest,
        ConnectorError,
    >)
        ensures
            r == Ok::<DemoPayRefundRequest, ConnectorError>(
                DemoPayRefundRequest {
                    amount: item.amount,
                    transaction_id: item.router_data.request.connector_transaction_id,
                    refund_id: item.router_data.connector_request_reference_id,
                },
            ),
    {
        Ok(
            DemoPayRefundRequest {
                amount: copy_amount(&item.amount),
                transaction_id: item.router_data.request.connector_transaction_id.clone(),
                refund_id: item.router_data.connector_request_reference_id.clone(),
            },
        )
    }
}

} // verus!
