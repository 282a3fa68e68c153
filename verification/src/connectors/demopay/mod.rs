//! The DemoPay connector of the payment router: where each flow's request
//! goes, the credentials it carries, and how DemoPay's replies are read.

pub mod transformers;

use vstd::prelude::*;

use crate::enums::{AttemptStatus, CurrencyUnit, RefundStatus};
use crate::errors::ConnectorError;
use crate::request::{concat_str, masked_header, Connectors, Header};
use crate::router_data::{
    ConnectorAuthType, ErrorResponse, PaymentsAuthorizeRouterData, PaymentsCaptureRouterData,
    PaymentsResponseData, PaymentsSyncRouterData, RefundsRouterData, ResponseId,
};

verus! {

/// The DemoPay connector.
pub struct DemoPay;

/// DemoPay's reply to a payment, capture, refund or status request.
#[derive(Debug, PartialEq, Eq)]
pub struct DemoPayPaymentsResponse {
    pub txn_id: String,
    pub wallet_id: String,
    pub status: String,
}

/// DemoPay's body for a failed request.
#[derive(Debug, PartialEq, Eq)]
pub struct DemoPayErrorResponse {
    pub code: Option<String>,
    pub message: Option<String>,
    pub error: Option<String>,
}

/// What a refund reply comes to: the refund's transaction id and the
/// refund status DemoPay's answer stands for.
#[derive(Debug, PartialEq, Eq)]
pub enum RefundsResponseData {
    TransactionResponse {
        resource_id: ResponseId,
        refund_status: RefundStatus,
        connector_response_reference_id: Option<String>,
    },
}

/// Whether `r` is the authorization header set for the credentials: the
/// API key as a bearer token, kept out of logs; credentials of another kind
/// are refused.
pub open spec fn bearer_header_result(
    auth_type: ConnectorAuthType,
    r: Result<Vec<Header>, ConnectorError>,
) -> bool {
    match auth_type {
        ConnectorAuthType::HeaderKey { api_key } => r matches Ok(v) && v@.len() == 1 && v@[0].name@
            == "Authorization"@ && v@[0].value@ == "Bearer "@ + api_key@ && v@[0].masked,
        _ => r == Err::<Vec<Header>, ConnectorError>(ConnectorError::FailedToObtainAuthType),
    }
}

/// Whether `a` is the text `b`.
fn is_text(a: &String, b: &str) -> (r: bool)
    ensures
        r == (a@ == b@),
{
    let other = String::from_str(b);
    *a == other
}

/// The attempt status an authorization reply stands for, by wallet:
/// `abc` fails, `def` and `xyz` are authorized, any other is pending.
pub open spec fn authorize_status_of(wallet_id: Seq<char>) -> AttemptStatus {
    if wallet_id == "abc"@ {
        AttemptStatus::Failure
    } else if wallet_id == "def"@ || wallet_id == "xyz"@ {
        AttemptStatus::Authorized
    } else {
        AttemptStatus::Pending
    }
}

/// The attempt status a capture reply stands for, by wallet: `abc` and
/// `def` fail, `xyz` is charged, any other is pending.
pub open spec fn capture_status_of(wallet_id: Seq<char>) -> AttemptStatus {
    if wallet_id == "abc"@ || wallet_id == "def"@ {
        AttemptStatus::Failure
    } else if wallet_id == "xyz"@ {
        AttemptStatus::Charged
    } else {
        AttemptStatus::Pending
    }
}

/// The attempt status a status reply stands for.
pub open spec fn sync_status_of(status: Seq<char>) -> AttemptStatus {
    if status == "authorized"@ {
        AttemptStatus::Authorized
    } else if status == "charged"@ {
        AttemptStatus::Charged
    } else if status == "failed"@ {
        AttemptStatus::Failure
    } else {
        AttemptStatus::Pending
    }
}

/// The refund status a refund reply stands for: a success when refunded,
/// a failure otherwise.
pub open spec fn refund_status_of(status: Seq<char>) -> RefundStatus {
    if status == "refunded"@ {
        RefundStatus::Success
    } else {
        RefundStatus::Failure
    }
}

/// Whether `r` is the transaction response of a payment reply, or the
/// failure to read the reply.
pub open spec fn transaction_response_result(
    response: Option<DemoPayPaymentsResponse>,
    r: Result<PaymentsResponseData, ConnectorError>,
) -> bool {
    match response {
        None => r == Err::<PaymentsResponseData, ConnectorError>(
            ConnectorError::ResponseDeserializationFailed,
        ),
        Some(body) => r == Ok::<PaymentsResponseData, ConnectorError>(
            PaymentsResponseData::TransactionResponse {
                resource_id: ResponseId::ConnectorTransactionId(body.txn_id),
                connector_response_reference_id: Some(body.txn_id),
            },
        ),
    }
}

impl DemoPay {
    /// The connector's id.
    pub fn id(&self) -> (r: &'static str)
        ensures
            r@ == "demopay"@,
    {
        "demopay"
    }

    /// DemoPay takes amounts in minor units.
    pub fn get_currency_unit(&self) -> (r: CurrencyUnit)
        ensures
            r == CurrencyUnit::Minor,
    {
        CurrencyUnit::Minor
    }

    /// DemoPay bodies are JSON.
    pub fn common_get_content_type(&self) -> (r: &'static str)
        ensures
            r@ == "application/json"@,
    {
        "application/json"
    }

    /// The authorization header for the merchant's credentials.
    pub fn get_auth_header(&self, auth_type: &ConnectorAuthType) -> (r: Result<Vec<Header>, ConnectorError>)
        ensures
            bearer_header_result(*auth_type, r),
    {
        let token = match auth_type {
            ConnectorAuthType::HeaderKey { api_key } => api_key.clone(),
            _ => return Err(ConnectorError::FailedToObtainAuthType),
        };
        let mut headers: Vec<Header> = Vec::new();
        headers.push(masked_header("Authorization", concat_str("Bearer ", token.as_str())));
        Ok(headers)
    }

    /// Where DemoPay's API lives, as configured.
    pub fn base_url<'a>(&self, connectors: &'a Connectors) -> (r: &'a str)
        ensures
            r@ == connectors.demopay.base_url@,
    {
        connectors.demopay.base_url.as_str()
    }

    /// DemoPay's error reply in the router's terms: the HTTP status code, the
    /// code and message (`unknown` and `Unknown error` when absent), the
    /// error as the reason, and no attempt status, transaction id or network
    /// details. An unreadable body is reported as such.
    pub fn build_error_response(&self, status_code: u16, response: Option<DemoPayErrorResponse>) -> (r:
        Result<ErrorResponse, ConnectorError>)
        ensures
            match response {
                None => r == Err::<ErrorResponse, ConnectorError>(
                    ConnectorError::ResponseDeserializationFailed,
                ),
                Some(body) => r matches Ok(e) && {
                    &&& e.status_code == status_code
                    &&& e.code@ == match body.code {
                        Some(c) => c@,
                        None => "unknown"@,
                    }
                    &&& e.message@ == match body.message {
                        Some(m) => m@,
                        None => "Unknown error"@,
                    }
                    &&& e.reason == body.error
                    &&& e.attempt_status is None
                    &&& e.connector_transaction_id is None
                    &&& e.network_advice_code is None
                    &&& e.network_decline_code is None
                    &&& e.network_error_message is None
                },
            },
    {
        let response = match response {
            Some(body) => body,
            None => return Err(ConnectorError::ResponseDeserializationFailed),
        };
        let code = match response.code {
            Some(c) => c,
            None => String::from_str("unknown"),
        };
        let message = match response.message {
            Some(m) => m,
            None => String::from_str("Unknown error"),
        };
        Ok(
            ErrorResponse {
                status_code,
                code,
                message,
                reason: response.error,
                attempt_status: None,
                connector_transaction_id: None,
                network_advice_code: None,
                network_decline_code: None,
                network_error_message: None,
            },
        )
    }

    /// Where an authorization is sent.
    pub fn authorize_get_url(&self, req: &PaymentsAuthorizeRouterData, connectors: &Connectors) -> (r:
        Result<String, ConnectorError>)
        ensures
            r matches Ok(url) && url@ == connectors.demopay.base_url@ + "/pay"@,
    {
        Ok(concat_str(self.base_url(connectors), "/pay"))
    }

    /// Where a capture is sent.
    pub fn capture_get_url(&self, req: &PaymentsCaptureRouterData, connectors: &Connectors) -> (r:
        Result<String, ConnectorError>)
        ensures
            r matches Ok(url) && url@ == connectors.demopay.base_url@ + "/capture"@,
    {
        Ok(concat_str(self.base_url(connectors), "/capture"))
    }

    /// Where a refund is sent.
    pub fn refund_get_url(&self, req: &RefundsRouterData, connectors: &Connectors) -> (r: Result<
        String,
        ConnectorError,
    >)
        ensures
            r matches Ok(url) && url@ == connectors.demopay.base_url@ + "/refund"@,
    {
        Ok(concat_str(self.base_url(connectors), "/refund"))
    }

    /// Where a status request is sent: the status endpoint of the connector
    /// transaction id, or of the empty id when the request carries none.
    pub fn status_get_url(&self, req: &PaymentsSyncRouterData, connectors: &Connectors) -> (r: Result<
        String,
        ConnectorError,
    >)
        ensures
            r matches Ok(url) && url@ == connectors.demopay.base_url@ + "/status/"@ + match req.request.connector_transaction_id {
                ResponseId::ConnectorTransactionId(id) => id@,
                _ => Seq::<char>::empty(),
            },
    {
        let txn_id = match req.request.connector_transaction_id.get_connector_transaction_id() {
            Some(id) => id,
            None => String::new(),
        };
        let prefix = concat_str(self.base_url(connectors), "/status/");
        Ok(concat_str(prefix.as_str(), txn_id.as_str()))
    }

    /// The attempt status an authorization reply stands for.
    pub fn authorize_status(response: &DemoPayPaymentsResponse) -> (r: AttemptStatus)
        ensures
            r == authorize_status_of(response.wallet_id@),
    {
        if is_text(&response.wallet_id, "abc") {
            AttemptStatus::Failure
        } else if is_text(&response.wallet_id, "def") || is_text(&response.wallet_id, "xyz") {
            AttemptStatus::Authorized
        } else {
            AttemptStatus::Pending
        }
    }

    /// The attempt status a capture reply stands for.
    pub fn capture_status(response: &DemoPayPaymentsResponse) -> (r: AttemptStatus)
        ensures
            r == capture_status_of(response.wallet_id@),
    {
        if is_text(&response.wallet_id, "abc") || is_text(&response.wallet_id, "def") {
            AttemptStatus::Failure
        } else if is_text(&response.wallet_id, "xyz") {
            AttemptStatus::Charged
        } else {
            AttemptStatus::Pending
        }
    }

    /// The attempt status a status reply stands for.
    pub fn sync_status(response: &DemoPayPaymentsResponse) -> (r: AttemptStatus)
        ensures
            r == sync_status_of(response.status@),
    {
        if is_text(&response.status, "authorized") {
            AttemptStatus::Authorized
        } else if is_text(&response.status, "charged") {
            AttemptStatus::Charged
        } else if is_text(&response.status, "failed") {
            AttemptStatus::Failure
        } else {
            AttemptStatus::Pending
        }
    }

    /// The refund status a refund reply stands for.
    pub fn refund_status(response: &DemoPayPaymentsResponse) -> (r: RefundStatus)
        ensures
            r == refund_status_of(response.status@),
    {
        if is_text(&response.status, "refunded") {
            RefundStatus::Success
        } else {
            RefundStatus::Failure
        }
    }

    /// The transaction response of a payment reply.
    fn transaction_response(response: DemoPayPaymentsResponse) -> (r: PaymentsResponseData)
        ensures
            r == (PaymentsResponseData::TransactionResponse {
                resource_id: ResponseId::ConnectorTransactionId(response.txn_id),
                connector_response_reference_id: Some(response.txn_id),
            }),
    {
        PaymentsResponseData::TransactionResponse {
            resource_id: ResponseId::ConnectorTransactionId(response.txn_id.clone()),
            connector_response_reference_id: Some(response.txn_id),
        }
    }

    /// An authorization reply as a transaction response. The status the
    /// wallet stands for is judged and then not reported.
    pub fn authorize_build_response(&self, response: Option<DemoPayPaymentsResponse>) -> (r: Result<
        PaymentsResponseData,
        ConnectorError,
    >)
        ensures
            transaction_response_result(response, r),
    {
        let response = match response {
            Some(body) => body,
            None => return Err(ConnectorError::ResponseDeserializationFailed),
        };
        let _status = Self::authorize_status(&response);
        Ok(Self::transaction_response(response))
    }

    /// A capture reply as a transaction response. The status the wallet
    /// stands for is judged and then not reported.
    pub fn capture_build_response(&self, response: Option<DemoPayPaymentsResponse>) -> (r: Result<
        PaymentsResponseData,
        ConnectorError,
    >)
        ensures
            transaction_response_result(response, r),
    {
        let response = match response {
            Some(body) => body,
            None => return Err(ConnectorError::ResponseDeserializationFailed),
        };
        let _status = Self::capture_status(&response);
        Ok(Self::transaction_response(response))
    }

    /// A status reply as a transaction response. The status DemoPay reports
    /// is judged and then not reported.
    pub fn status_build_response(&self, response: Option<DemoPayPaymentsResponse>) -> (r: Result<
        PaymentsResponseData,
        ConnectorError,
    >)
        ensures
            transaction_response_result(response, r),
    {
        let response = match response {
            Some(body) => body,
            None => return Err(ConnectorError::ResponseDeserializationFailed),
        };
        let _status = Self::sync_status(&response);
        Ok(Self::transaction_response(response))
    }

    /// A refund reply: the refund's transaction id with the refund status
    /// the reply stands for.
    pub fn refund_build_response(&self, response: Option<DemoPayPaymentsResponse>) -> (r: Result<
        RefundsResponseData,
        ConnectorError,
    >)
        ensures
            match response {
                None => r == Err::<RefundsResponseData, ConnectorError>(
                    ConnectorError::ResponseDeserializationFailed,
                ),
                Some(body) => r == Ok::<RefundsResponseData, ConnectorError>(
                    RefundsResponseData::TransactionResponse {
                        resource_id: ResponseId::ConnectorTransactionId(body.txn_id),
                        refund_status: refund_status_of(body.status@),
                        connector_response_reference_id: Some(body.txn_id),
                    },
                ),
            },
    {
        let response = match response {
            Some(body) => body,
            None => return Err(ConnectorError::ResponseDeserializationFailed),
        };
        let status = Self::refund_status(&response);
        Ok(
            RefundsResponseData::TransactionResponse {
                resource_id: ResponseId::ConnectorTransactionId(response.txn_id.clone()),
                refund_status: status,
                connector_response_reference_id: Some(response.txn_id),
            },
        )
    }
}

} // verus!
