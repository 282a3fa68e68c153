//! The router's view of one connector call: the merchant credentials, the
//! request data of the flow, and the response the connector fills in.

use vstd::prelude::*;

use crate::amount::MinorUnit;
use crate::enums::{AttemptStatus, AuthenticationType, CaptureMethod, RefundStatus};
use crate::errors::ConnectorError;

verus! {

/// Merchant credentials for a connector.
#[derive(Debug, PartialEq, Eq)]
pub enum ConnectorAuthType {
    TemporaryAuth,
    HeaderKey { api_key: String },
    BodyKey { api_key: String, key1: String },
    SignatureKey { api_key: String, key1: String, api_secret: String },
    MultiAuthKey { api_key: String, key1: String, api_secret: String, key2: String },
    NoKey,
}

/// Identifier of a transaction as the connector reported it.
#[derive(Debug, PartialEq, Eq)]
pub enum ResponseId {
    ConnectorTransactionId(String),
    EncodedData(String),
    NoResponseId,
}

/// What a payment flow returns on success. The transaction response carries
/// the connector's transaction id; the redirection, mandate, metadata and
/// charge details that the router also knows are never set by DemoPay.
#[derive(Debug, PartialEq, Eq)]
pub enum PaymentsResponseData {
    TransactionResponse { resource_id: ResponseId, connector_response_reference_id: Option<String> },
    TokenizationResponse { token: String },
}

/// What a refund flow returns on success.
#[derive(Debug, PartialEq, Eq)]
pub struct RefundsResponseData {
    pub connector_refund_id: String,
    pub refund_status: RefundStatus,
}

/// A failure reported by the connector, in the router's terms.
#[derive(Debug, PartialEq, Eq)]
pub struct ErrorResponse {
    pub code: String,
    pub message: String,
    pub reason: Option<String>,
    pub status_code: u16,
    pub attempt_status: Option<AttemptStatus>,
    pub connector_transaction_id: Option<String>,
    pub network_advice_code: Option<String>,
    pub network_decline_code: Option<String>,
    pub network_error_message: Option<String>,
}

/// Card details entered by the customer.
#[derive(Debug, PartialEq, Eq)]
pub struct Card {
    pub card_number: String,
    pub card_exp_month: String,
    pub card_exp_year: String,
    pub card_cvc: String,
}

/// Wallet details: the token the wallet issued for the customer.
#[derive(Debug, PartialEq, Eq)]
pub struct Wallet {
    pub token: Option<String>,
}

/// The payment method the customer chose, with the details DemoPay reads.
#[derive(Debug, PartialEq, Eq)]
pub enum PaymentMethodData {
    Card(Card),
    CardRedirect,
    Wallet(Wallet),
    PayLater,
    BankRedirect,
    BankDebit,
    BankTransfer,
    Crypto,
    MandatePayment,
    Reward,
    RealTimePayment,
    MobilePayment,
    Upi,
    Voucher,
    GiftCard,
    OpenBanking,
    CardToken,
    NetworkToken,
    CardDetailsForNetworkTransactionId,
}

/// A token standing for the customer's payment method.
#[derive(Debug, PartialEq, Eq)]
pub enum PaymentMethodToken {
    Token(String),
    ApplePayDecrypt,
    GooglePayDecrypt,
    PazeDecrypt,
}

/// A postal address with the name of the person at it.
#[derive(Debug, PartialEq, Eq)]
pub struct Address {
    pub line1: Option<String>,
    pub line2: Option<String>,
    pub city: Option<String>,
    pub country: Option<String>,
    pub first_name: Option<String>,
    pub last_name: Option<String>,
}

/// The addresses attached to a payment.
#[derive(Debug, PartialEq, Eq)]
pub struct PaymentAddress {
    pub shipping: Option<Address>,
    pub billing: Option<Address>,
    pub payment_method_billing: Option<Address>,
}

impl PaymentAddress {
    /// A payment with no addresses.
    pub fn default() -> (r: PaymentAddress)
        ensures
            r.shipping is None,
            r.billing is None,
            r.payment_method_billing is None,
    {
        PaymentAddress { shipping: None, billing: None, payment_method_billing: None }
    }
}

/// Request data of an authorization.
#[derive(Debug, PartialEq, Eq)]
pub struct PaymentsAuthorizeData {
    pub payment_method_data: PaymentMethodData,
    pub minor_amount: MinorUnit,
    pub currency: String,
    pub confirm: bool,
    pub capture_method: Option<CaptureMethod>,
    pub email: Option<String>,
    pub metadata: Option<String>,
}

/// Request data of a capture: the amount to capture, in minor units, which
/// may be less than the payment's amount.
#[derive(Debug, PartialEq, Eq)]
pub struct PaymentsCaptureData {
    pub amount_to_capture: i64,
    pub minor_payment_amount: MinorUnit,
    pub currency: String,
    pub connector_transaction_id: String,
}

/// Request data of a payment status sync.
#[derive(Debug, PartialEq, Eq)]
pub struct PaymentsSyncData {
    pub connector_transaction_id: ResponseId,
    pub capture_method: Option<CaptureMethod>,
}

/// Request data of a refund or a refund status sync.
#[derive(Debug, PartialEq, Eq)]
pub struct RefundsData {
    pub refund_amount: MinorUnit,
    pub currency: String,
    pub connector_transaction_id: String,
    pub connector_refund_id: Option<String>,
    pub reason: Option<String>,
}

/// Request data of a payment method tokenization.
#[derive(Debug, PartialEq, Eq)]
pub struct PaymentMethodTokenizationData {
    pub payment_method_data: PaymentMethodData,
}

/// One connector call: who pays, with which credentials, the request of the
/// flow, and the response the connector fills in.
#[derive(Debug, PartialEq, Eq)]
pub struct RouterData<Req, Resp> {
    pub status: AttemptStatus,
    pub connector_auth_type: ConnectorAuthType,
    pub auth_type: AuthenticationType,
    pub connector_request_reference_id: String,
    pub customer_id: Option<String>,
    pub payment_method_token: Option<PaymentMethodToken>,
    pub address: PaymentAddress,
    pub request: Req,
    pub response: Result<Resp, ErrorResponse>,
}

pub type PaymentsAuthorizeRouterData = RouterData<PaymentsAuthorizeData, PaymentsResponseData>;

pub type PaymentsCaptureRouterData = RouterData<PaymentsCaptureData, PaymentsResponseData>;

pub type PaymentsSyncRouterData = RouterData<PaymentsSyncData, PaymentsResponseData>;

pub type RefundsRouterData = RouterData<RefundsData, RefundsResponseData>;

pub type TokenizationRouterData = RouterData<PaymentMethodTokenizationData, PaymentsResponseData>;

/// A connector's reply paired with the router data it answers and the HTTP
/// status code it came with.
pub struct ResponseRouterData<R, Req, Resp> {
    pub response: R,
    pub data: RouterData<Req, Resp>,
    pub http_code: u16,
}

/// A field of the payment method's billing address, if there is one.
pub open spec fn billing_field<Req, Resp>(
    data: RouterData<Req, Resp>,
    field: spec_fn(Address) -> Option<String>,
) -> Option<String> {
    match data.address.payment_method_billing {
        Some(address) => field(address),
        None => None,
    }
}

impl<Req, Resp> RouterData<Req, Resp> {
    /// Whether the payment goes through 3-D Secure.
    pub fn is_three_ds(&self) -> (r: bool)
        ensures
            r == (self.auth_type == AuthenticationType::ThreeDs),
    {
        match self.auth_type {
            AuthenticationType::ThreeDs => true,
            AuthenticationType::NoThreeDs => false,
        }
    }

    /// The payment method token; a payment without one is refused.
    pub fn get_payment_method_token(&self) -> (r: Result<&PaymentMethodToken, ConnectorError>)
        ensures
            match self.payment_method_token {
                Some(token) => r == Ok::<&PaymentMethodToken, ConnectorError>(&token),
                None => r matches Err(ConnectorError::MissingRequiredField { field_name })
                    && field_name@ == "payment_method_token"@,
            },
    {
        match &self.payment_method_token {
            Some(token) => Ok(token),
            None => Err(ConnectorError::MissingRequiredField { field_name: "payment_method_token" }),
        }
    }

    /// First line of the billing address.
    pub fn get_optional_billing_line1(&self) -> (r: Option<String>)
        ensures
            r == billing_field(*self, |a: Address| a.line1),
    {
        match &self.address.payment_method_billing {
            Some(address) => address.line1.clone(),
            None => None,
        }
    }

    /// Second line of the billing address.
    pub fn get_optional_billing_line2(&self) -> (r: Option<String>)
        ensures
            r == billing_field(*self, |a: Address| a.line2),
    {
        match &self.address.payment_method_billing {
            Some(address) => address.line2.clone(),
            None => None,
        }
    }

    /// City of the billing address.
    pub fn get_optional_billing_city(&self) -> (r: Option<String>)
        ensures
            r == billing_field(*self, |a: Address| a.city),
    {
        match &self.address.payment_method_billing {
            Some(address) => address.city.clone(),
            None => None,
        }
    }

    /// Country of the billing address.
    pub fn get_optional_billing_country(&self) -> (r: Option<String>)
        ensures
            r == billing_field(*self, |a: Address| a.country),
    {
        match &self.address.payment_method_billing {
            Some(address) => address.country.clone(),
            None => None,
        }
    }

    /// First name on the billing address.
    pub fn get_optional_billing_first_name(&self) -> (r: Option<String>)
        ensures
            r == billing_field(*self, |a: Address| a.first_name),
    {
        match &self.address.payment_method_billing {
            Some(address) => address.first_name.clone(),
            None => None,
        }
    }

    /// Last name on the billing address.
    pub fn get_optional_billing_last_name(&self) -> (r: Option<String>)
        ensures
            r == billing_field(*self, |a: Address| a.last_name),
    {
        match &self.address.payment_method_billing {
            Some(address) => address.last_name.clone(),
            None => None,
        }
    }
}

/// Whether a payment with this capture method is captured at once: yes for
/// automatic capture (also when none is given), no for manual capture, and
/// any other method is not supported.
pub open spec fn auto_capture_result(
    capture_method: Option<CaptureMethod>,
    r: Result<bool, ConnectorError>,
) -> bool {
    match capture_method {
        None | Some(CaptureMethod::Automatic) | Some(CaptureMethod::SequentialAutomatic) => r
            == Ok::<bool, ConnectorError>(true),
        Some(CaptureMethod::Manual) => r == Ok::<bool, ConnectorError>(false),
        _ => r == Err::<bool, ConnectorError>(ConnectorError::CaptureMethodNotSupported),
    }
}

impl PaymentsAuthorizeData {
    /// Whether the payment is captured at once.
    pub fn is_auto_capture(&self) -> (r: Result<bool, ConnectorError>)
        ensures
            auto_capture_result(self.capture_method, r),
    {
        match self.capture_method {
            Some(CaptureMethod::Automatic) | None | Some(CaptureMethod::SequentialAutomatic) => Ok(true),
            Some(CaptureMethod::Manual) => Ok(false),
            Some(_) => Err(ConnectorError::CaptureMethodNotSupported),
        }
    }
}

impl ResponseId {
    /// The connector transaction id, when this is one.
    pub fn get_connector_transaction_id(&self) -> (r: Option<String>)
        ensures
            *self matches ResponseId::ConnectorTransactionId(id) ==> r == Some(id),
            !(self is ConnectorTransactionId) ==> r is None,
    {
        match self {
            ResponseId::ConnectorTransactionId(id) => Some(id.clone()),
            _ => None,
        }
    }
}

} // verus!
