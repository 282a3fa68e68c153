//! The DemoPay wallet connector: where each flow's request goes, what it
//! carries, and how DemoPay's replies become router data.

pub mod transformers;

use vstd::prelude::*;

use crate::amount::{convert_amount, int_decimal, MinorUnit, StringMinorUnitForConnector};
use crate::enums::{ConnectorType, CurrencyUnit, Method, PaymentMethod};
use crate::errors::ConnectorError;
use crate::webhooks::{EventClass, IncomingWebhookEvent, IncomingWebhookRequestDetails, ObjectReferenceId};
use crate::request::{
    concat_str, masked_header, plain_header, Connectors, Header, Request, AUTHORIZATION,
    CONTENT_TYPE,
};
use crate::router_data::{
    ConnectorAuthType, ErrorResponse, PaymentsAuthorizeRouterData, PaymentsCaptureRouterData,
    PaymentsSyncRouterData, RefundsRouterData, ResponseId, ResponseRouterData, RouterData,
};
use transformers::{
    payments_request_result, payments_router_data, refund_execute_router_data,
    refund_sync_router_data, spec_payments_router_data, spec_refunds_router_data,
    DemoPayAuthType, DemoPayCaptureRequest, DemoPayErrorResponse, DemoPayPaymentsRequest,
    DemoPayPaymentsResponse, DemoPayRefundRequest, DemoPayRouterData, RefundResponse,
};

verus! {

/// The DemoPay connector. Amounts are sent as decimal strings of minor units.
pub struct Demopay {
    amount_converter: StringMinorUnitForConnector,
}

/// Whether `h` carries DemoPay's credentials: `Authorization: Bearer <key>`,
/// kept out of logs.
pub open spec fn is_bearer_header(api_key: Seq<char>, h: Header) -> bool {
    &&& h.name@ == AUTHORIZATION@
    &&& h.value@ == "Bearer "@ + api_key
    &&& h.masked
}

/// Whether `h` declares a JSON body.
pub open spec fn is_json_content_type_header(h: Header) -> bool {
    &&& h.name@ == CONTENT_TYPE@
    &&& h.value@ == "application/json"@
    &&& !h.masked
}

/// Whether `r` is the authorization header set for the credentials: one
/// bearer header for an API key in a header, a refusal for anything else.
pub open spec fn auth_header_result(
    auth_type: ConnectorAuthType,
    r: Result<Vec<Header>, ConnectorError>,
) -> bool {
    match auth_type {
        ConnectorAuthType::HeaderKey { api_key } => r matches Ok(v) && v@.len() == 1
            && is_bearer_header(api_key@, v@[0]),
        _ => r == Err::<Vec<Header>, ConnectorError>(ConnectorError::FailedToObtainAuthType),
    }
}

/// Whether `headers` are the headers of every DemoPay request for these
/// credentials: the JSON content type, then the bearer header.
pub open spec fn request_headers(auth_type: ConnectorAuthType, headers: Seq<Header>) -> bool {
    &&& auth_type is HeaderKey
    &&& headers.len() == 2
    &&& is_json_content_type_header(headers[0])
    &&& is_bearer_header(auth_type->HeaderKey_api_key@, headers[1])
}

/// Whether `r` is what DemoPay's error body comes to in the router's terms:
/// the HTTP status code of the reply, DemoPay's code, message, reason and
/// network details, and no attempt status or transaction id. An unreadable
/// body is reported as such.
pub open spec fn error_response_result(
    status_code: u16,
    response: Option<DemoPayErrorResponse>,
    r: Result<ErrorResponse, ConnectorError>,
) -> bool {
    match response {
        None => r == Err::<ErrorResponse, ConnectorError>(
            ConnectorError::ResponseDeserializationFailed,
        ),
        Some(body) => r == Ok::<ErrorResponse, ConnectorError>(
            ErrorResponse {
                status_code,
                code: body.code,
                message: body.message,
                reason: body.reason,
                attempt_status: None,
                connector_transaction_id: None,
                network_advice_code: body.network_advice_code,
                network_decline_code: body.network_decline_code,
                network_error_message: body.network_error_message,
            },
        ),
    }
}

/// The router data after a payment reply was read, or the failure to read it.
pub open spec fn payments_reply_result<Req>(
    data: RouterData<Req, crate::router_data::PaymentsResponseData>,
    response: Option<DemoPayPaymentsResponse>,
    status_code: u16,
    r: Result<RouterData<Req, crate::router_data::PaymentsResponseData>, ConnectorError>,
) -> bool {
    match response {
        None => r == Err::<RouterData<Req, crate::router_data::PaymentsResponseData>, ConnectorError>(
            ConnectorError::ResponseDeserializationFailed,
        ),
        Some(body) => r == Ok::<RouterData<Req, crate::router_data::PaymentsResponseData>, ConnectorError>(
            spec_payments_router_data(ResponseRouterData { response: body, data, http_code: status_code }),
        ),
    }
}

/// The refund router data after a refund reply was read, or the failure to read it.
pub open spec fn refunds_reply_result(
    data: RefundsRouterData,
    response: Option<RefundResponse>,
    status_code: u16,
    r: Result<RefundsRouterData, ConnectorError>,
) -> bool {
    match response {
        None => r == Err::<RefundsRouterData, ConnectorError>(
            ConnectorError::ResponseDeserializationFailed,
        ),
        Some(body) => r == Ok::<RefundsRouterData, ConnectorError>(
            spec_refunds_router_data(ResponseRouterData { response: body, data, http_code: status_code }),
        ),
    }
}

/// Public facts about the DemoPay connector.
#[derive(Debug, PartialEq, Eq)]
pub struct ConnectorInfo {
    pub name: &'static str,
    pub description: &'static str,
    pub connector_type: ConnectorType,
    pub connector_id: &'static str,
}

impl Demopay {
    /// The DemoPay connector.
    pub fn new() -> (r: Demopay) {
        Demopay { amount_converter: StringMinorUnitForConnector }
    }

    /// The connector's id.
    pub fn id(&self) -> (r: &'static str)
        ensures
            r@ == "demopay"@,
    {
        "demopay"
    }

    /// DemoPay takes amounts in minor units.
    pub fn get_currency_unit(&self) -> (r: CurrencyUnit)
        ensures
            r == CurrencyUnit::Minor,
    {
        CurrencyUnit::Minor
    }

    /// DemoPay bodies are JSON.
    pub fn common_get_content_type(&self) -> (r: &'static str)
        ensures
            r@ == "application/json"@,
    {
        "application/json"
    }

    /// The content type of every flow's body.
    pub fn get_content_type(&self) -> (r: &'static str)
        ensures
            r@ == "application/json"@,
    {
        self.common_get_content_type()
    }

    /// Where DemoPay's API lives, as configured.
    pub fn base_url<'a>(&self, connectors: &'a Connectors) -> (r: &'a str)
        ensures
            r@ == connectors.demopay.base_url@,
    {
        connectors.demopay.base_url.as_str()
    }

    /// The authorization header for the merchant's credentials.
    pub fn get_auth_header(&self, auth_type: &ConnectorAuthType) -> (r: Result<Vec<Header>, ConnectorError>)
        ensures
            auth_header_result(*auth_type, r),
    {
        let auth = match DemoPayAuthType::try_from(auth_type) {
            Ok(auth) => auth,
            Err(_) => return Err(ConnectorError::FailedToObtainAuthType),
        };
        let value = concat_str("Bearer ", auth.api_key.as_str());
        let mut headers: Vec<Header> = Vec::new();
        headers.push(masked_header(AUTHORIZATION, value));
        Ok(headers)
    }

    /// The headers of every DemoPay request: the JSON content type followed
    /// by the authorization header.
    pub fn build_headers<Req, Resp>(&self, req: &RouterData<Req, Resp>, connectors: &Connectors) -> (r:
        Result<Vec<Header>, ConnectorError>)
        ensures
            req.connector_auth_type is HeaderKey <==> r is Ok,
            r matches Ok(headers) ==> request_headers(req.connector_auth_type, headers@),
            r is Err ==> r == Err::<Vec<Header>, ConnectorError>(
                ConnectorError::FailedToObtainAuthType,
            ),
    {
        let mut header: Vec<Header> = Vec::new();
        header.push(plain_header(CONTENT_TYPE, self.get_content_type()));
        let mut api_key = self.get_auth_header(&req.connector_auth_type)?;
        header.append(&mut api_key);
        Ok(header)
    }

    /// DemoPay's error reply in the router's terms.
    pub fn build_error_response(&self, status_code: u16, response: Option<DemoPayErrorResponse>) -> (r:
        Result<ErrorResponse, ConnectorError>)
        ensures
            error_response_result(status_code, response, r),
    {
        match response {
            None => Err(ConnectorError::ResponseDeserializationFailed),
            Some(body) => Ok(
                ErrorResponse {
                    status_code,
                    code: body.code,
                    message: body.message,
                    reason: body.reason,
                    attempt_status: None,
                    connector_transaction_id: None,
                    network_advice_code: body.network_advice_code,
                    network_decline_code: body.network_decline_code,
                    network_error_message: body.network_error_message,
                },
            ),
        }
    }

    /// Every flow reports DemoPay's error replies the same way.
    pub fn get_error_response(&self, status_code: u16, response: Option<DemoPayErrorResponse>) -> (r:
        Result<ErrorResponse, ConnectorError>)
        ensures
            error_response_result(status_code, response, r),
    {
        self.build_error_response(status_code, response)
    }

    /// Public facts about DemoPay.
    pub fn get_connector_about(&self) -> (r: Option<ConnectorInfo>)
        ensures
            r matches Some(info) && info.name@ == "DemoPay"@ && info.description@
                == "DemoPay is a sample payment connector for demonstration purposes."@
                && info.connector_type == ConnectorType::PaymentProcessor && info.connector_id@
                == "demopay"@,
    {
        Some(
            ConnectorInfo {
                name: "DemoPay",
                description: "DemoPay is a sample payment connector for demonstration purposes.",
                connector_type: ConnectorType::PaymentProcessor,
                connector_id: "demopay",
            },
        )
    }

    /// DemoPay supports wallet payments only.
    pub fn get_supported_payment_methods(&self) -> (r: Option<Vec<PaymentMethod>>)
        ensures
            r matches Some(methods) && methods@ == seq![PaymentMethod::Wallet],
    {
        let mut payment_methods: Vec<PaymentMethod> = Vec::new();
        payment_methods.push(PaymentMethod::Wallet);
        Some(payment_methods)
    }

    /// DemoPay sends no webhooks the router subscribes to.
    pub fn get_supported_webhook_flows(&self) -> (r: Option<Vec<EventClass>>)
        ensures
            r is None,
    {
        None
    }

    /// DemoPay's webhooks are not read: no payment or refund is found in one.
    pub fn get_webhook_object_reference_id(&self, request: &IncomingWebhookRequestDetails) -> (r:
        Result<ObjectReferenceId, ConnectorError>)
        ensures
            r == Err::<ObjectReferenceId, ConnectorError>(ConnectorError::WebhooksNotImplemented),
    {
        Err(ConnectorError::WebhooksNotImplemented)
    }

    /// DemoPay's webhooks are not read: no event kind is found in one.
    pub fn get_webhook_event_type(&self, request: &IncomingWebhookRequestDetails) -> (r: Result<
        IncomingWebhookEvent,
        ConnectorError,
    >)
        ensures
            r == Err::<IncomingWebhookEvent, ConnectorError>(ConnectorError::WebhooksNotImplemented),
    {
        Err(ConnectorError::WebhooksNotImplemented)
    }

    /// DemoPay's webhooks are not read: no resource, to be passed on as
    /// serialised bytes, is taken from one.
    pub fn get_webhook_resource_object(&self, request: &IncomingWebhookRequestDetails) -> (r: Result<
        Vec<u8>,
        ConnectorError,
    >)
        ensures
            r == Err::<Vec<u8>, ConnectorError>(ConnectorError::WebhooksNotImplemented),
    {
        Err(ConnectorError::WebhooksNotImplemented)
    }

    /// Where an authorization is sent.
    pub fn authorize_get_url(&self, req: &PaymentsAuthorizeRouterData, connectors: &Connectors) -> (r:
        Result<String, ConnectorError>)
        ensures
            r matches Ok(url) && url@ == connectors.demopay.base_url@ + "/pay"@,
    {
        Ok(concat_str(self.base_url(connectors), "/pay"))
    }

    /// Where a payment status request is sent: the status endpoint of the
    /// connector transaction id, which the request must carry.
    pub fn psync_get_url(&self, req: &PaymentsSyncRouterData, connectors: &Connectors) -> (r: Result<
        String,
        ConnectorError,
    >)
        ensures
            match req.request.connector_transaction_id {
                ResponseId::ConnectorTransactionId(id) => r matches Ok(url) && url@
                    == connectors.demopay.base_url@ + "/status/"@ + id@,
                _ => r == Err::<String, ConnectorError>(
                    ConnectorError::MissingConnectorTransactionID,
                ),
            },
    {
        match req.request.connector_transaction_id.get_connector_transaction_id() {
            Some(connector_payment_id) => {
                let prefix = concat_str(self.base_url(connectors), "/status/");
                Ok(concat_str(prefix.as_str(), connector_payment_id.as_str()))
            },
            None => Err(ConnectorError::MissingConnectorTransactionID),
        }
    }

    /// Where a capture is sent.
    pub fn capture_get_url(&self, req: &PaymentsCaptureRouterData, connectors: &Connectors) -> (r:
        Result<String, ConnectorError>)
        ensures
            r matches Ok(url) && url@ == connectors.demopay.base_url@ + "/capture"@,
    {
        Ok(concat_str(self.base_url(connectors), "/capture"))
    }

    /// Where a refund is sent.
    pub fn refund_get_url(&self, req: &RefundsRouterData, connectors: &Connectors) -> (r: Result<
        String,
        ConnectorError,
    >)
        ensures
            r matches Ok(url) && url@ == connectors.demopay.base_url@ + "/refund"@,
    {
        Ok(concat_str(self.base_url(connectors), "/refund"))
    }

    /// Where a refund status request is sent: the status endpoint of the
    /// connector refund id, which the request must carry.
    pub fn rsync_get_url(&self, req: &RefundsRouterData, connectors: &Connectors) -> (r: Result<
        String,
        ConnectorError,
    >)
        ensures
            match req.request.connector_refund_id {
                Some(id) => r matches Ok(url) && url@ == connectors.demopay.base_url@
                    + "/status/"@ + id@,
                None => r == Err::<String, ConnectorError>(ConnectorError::MissingConnectorRefundID),
            },
    {
        match &req.request.connector_refund_id {
            Some(refund_id) => {
                let prefix = concat_str(self.base_url(connectors), "/status/");
                Ok(concat_str(prefix.as_str(), refund_id.as_str()))
            },
            None => Err(ConnectorError::MissingConnectorRefundID),
        }
    }

    /// The body of an authorization: the wallet request for the amount
    /// written as a decimal string of minor units.
    pub fn authorize_get_request_body(
        &self,
        req: &PaymentsAuthorizeRouterData,
        connectors: &Connectors,
    ) -> (r: Result<DemoPayPaymentsRequest, ConnectorError>)
        ensures
            payments_request_result(int_decimal(req.request.minor_amount.value as int), *req, r),
    {
        let amount = convert_amount(
            &self.amount_converter,
            req.request.minor_amount,
            req.request.currency.as_str(),
        )?;
        let connector_router_data = DemoPayRouterData::from((amount, req));
        DemoPayPaymentsRequest::try_from(&connector_router_data)
    }

    /// The body of a capture: the amount to capture as a decimal string of
    /// minor units, and the router's reference id.
    pub fn capture_get_request_body(&self, req: &PaymentsCaptureRouterData, connectors: &Connectors) -> (r:
        Result<DemoPayCaptureRequest, ConnectorError>)
        ensures
            r matches Ok(body) && body.amount.value@ == int_decimal(req.request.amount_to_capture as int)
                && body.transaction_id == req.connector_request_reference_id,
    {
        let amount = convert_amount(
            &self.amount_converter,
            MinorUnit::new(req.request.amount_to_capture),
            req.request.currency.as_str(),
        )?;
        let connector_router_data = DemoPayRouterData::from((amount, req));
        DemoPayCaptureRequest::try_from(&connector_router_data)
    }

    /// The body of a refund: the refund amount as a decimal string of minor
    /// units, the payment's transaction id and the router's reference id.
    pub fn refund_get_request_body(&self, req: &RefundsRouterData, connectors: &Connectors) -> (r: Result<
        DemoPayRefundRequest,
        ConnectorError,
    >)
        ensures
            r matches Ok(body) && body.amount.value@ == int_decimal(req.request.refund_amount.value as int)
                && body.transaction_id == req.request.connector_transaction_id && body.refund_id
                == req.connector_request_reference_id,
    {
        let refund_amount = convert_amount(
            &self.amount_converter,
            req.request.refund_amount,
            req.request.currency.as_str(),
        )?;
        let connector_router_data = DemoPayRouterData::from((refund_amount, req));
        DemoPayRefundRequest::try_from(&connector_router_data)
    }

    /// The headers of an authorization.
    pub fn authorize_get_headers(&self, req: &PaymentsAuthorizeRouterData, connectors: &Connectors) -> (r:
        Result<Vec<Header>, ConnectorError>)
        ensures
            req.connector_auth_type is HeaderKey <==> r is Ok,
            r matches Ok(headers) ==> request_headers(req.connector_auth_type, headers@),
            r is Err ==> r == Err::<Vec<Header>, ConnectorError>(
                ConnectorError::FailedToObtainAuthType,
            ),
    {
        self.build_headers(req, connectors)
    }

    /// The headers of a payment status request.
    pub fn psync_get_headers(&self, req: &PaymentsSyncRouterData, connectors: &Connectors) -> (r: Result<
        Vec<Header>,
        ConnectorError,
    >)
        ensures
            req.connector_auth_type is HeaderKey <==> r is Ok,
            r matches Ok(headers) ==> request_headers(req.connector_auth_type, headers@),
            r is Err ==> r == Err::<Vec<Header>, ConnectorError>(
                ConnectorError::FailedToObtainAuthType,
            ),
    {
        self.build_headers(req, connectors)
    }

    /// The headers of a capture.
    pub fn capture_get_headers(&self, req: &PaymentsCaptureRouterData, connectors: &Connectors) -> (r:
        Result<Vec<Header>, ConnectorError>)
        ensures
            req.connector_auth_type is HeaderKey <==> r is Ok,
            r matches Ok(headers) ==> request_headers(req.connector_auth_type, headers@),
            r is Err ==> r == Err::<Vec<Header>, ConnectorError>(
                ConnectorError::FailedToObtainAuthType,
            ),
    {
        self.build_headers(req, connectors)
    }

    /// The headers of a refund or refund status request.
    pub fn refund_get_headers(&self, req: &RefundsRouterData, connectors: &Connectors) -> (r: Result<
        Vec<Header>,
        ConnectorError,
    >)
        ensures
            req.connector_auth_type is HeaderKey <==> r is Ok,
            r matches Ok(headers) ==> request_headers(req.connector_auth_type, headers@),
            r is Err ==> r == Err::<Vec<Header>, ConnectorError>(
                ConnectorError::FailedToObtainAuthType,
            ),
    {
        self.build_headers(req, connectors)
    }

    /// The authorization request: a POST of the wallet request to the pay
    /// endpoint. Credentials of the wrong kind are refused before the body is
    /// built; a body that cannot be built refuses the request.
    pub fn authorize_build_request(&self, req: &PaymentsAuthorizeRouterData, connectors: &Connectors) -> (r:
        Result<Option<Request<DemoPayPaymentsRequest>>, ConnectorError>)
        ensures
            match r {
                Ok(Some(request)) => {
                    &&& request.method == Method::Post
                    &&& request.url@ == connectors.demopay.base_url@ + "/pay"@
                    &&& request.default_headers
                    &&& request_headers(req.connector_auth_type, request.headers@)
                    &&& request.body matches Some(body) && payments_request_result(
                        int_decimal(req.request.minor_amount.value as int),
                        *req,
                        Ok(body),
                    )
                },
                Ok(None) => false,
                Err(e) => if req.connector_auth_type is HeaderKey {
                    payments_request_result(
                        int_decimal(req.request.minor_amount.value as int),
                        *req,
                        Err(e),
                    )
                } else {
                    e == ConnectorError::FailedToObtainAuthType
                },
            },
    {
        let url = self.authorize_get_url(req, connectors)?;
        let headers = self.authorize_get_headers(req, connectors)?;
        let body = self.authorize_get_request_body(req, connectors)?;
        Ok(Some(Request { method: Method::Post, url, default_headers: true, headers, body: Some(body) }))
    }

    /// The payment status request: a GET of the transaction's status
    /// endpoint, with no body.
    pub fn psync_build_request(&self, req: &PaymentsSyncRouterData, connectors: &Connectors) -> (r: Result<
        Option<Request<DemoPayPaymentsRequest>>,
        ConnectorError,
    >)
        ensures
            match r {
                Ok(Some(request)) => {
                    &&& request.method == Method::Get
                    &&& req.request.connector_transaction_id matches ResponseId::ConnectorTransactionId(id)
                        && request.url@ == connectors.demopay.base_url@ + "/status/"@ + id@
                    &&& request.default_headers
                    &&& request_headers(req.connector_auth_type, request.headers@)
                    &&& request.body is None
                },
                Ok(None) => false,
                Err(e) => if req.request.connector_transaction_id is ConnectorTransactionId {
                    e == ConnectorError::FailedToObtainAuthType && !(req.connector_auth_type is HeaderKey)
                } else {
                    e == ConnectorError::MissingConnectorTransactionID
                },
            },
    {
        let url = self.psync_get_url(req, connectors)?;
        let headers = self.psync_get_headers(req, connectors)?;
        Ok(Some(Request { method: Method::Get, url, default_headers: true, headers, body: None }))
    }

    /// The capture request: a POST of the capture body to the capture endpoint.
    pub fn capture_build_request(&self, req: &PaymentsCaptureRouterData, connectors: &Connectors) -> (r:
        Result<Option<Request<DemoPayCaptureRequest>>, ConnectorError>)
        ensures
            req.connector_auth_type is HeaderKey <==> r is Ok,
            match r {
                Ok(Some(request)) => {
                    &&& request.method == Method::Post
                    &&& request.url@ == connectors.demopay.base_url@ + "/capture"@
                    &&& request.default_headers
                    &&& request_headers(req.connector_auth_type, request.headers@)
                    &&& request.body matches Some(body) && body.amount.value@ == int_decimal(
                        req.request.amount_to_capture as int,
                    ) && body.transaction_id == req.connector_request_reference_id
                },
                Ok(None) => false,
                Err(e) => e == ConnectorError::FailedToObtainAuthType,
            },
    {
        let url = self.capture_get_url(req, connectors)?;
        let headers = self.capture_get_headers(req, connectors)?;
        let body = self.capture_get_request_body(req, connectors)?;
        Ok(Some(Request { method: Method::Post, url, default_headers: true, headers, body: Some(body) }))
    }

    /// The refund request: a POST of the refund body to the refund endpoint.
    pub fn refund_build_request(&self, req: &RefundsRouterData, connectors: &Connectors) -> (r: Result<
        Option<Request<DemoPayRefundRequest>>,
        ConnectorError,
    >)
        ensures
            req.connector_auth_type is HeaderKey <==> r is Ok,
            match r {
                Ok(Some(request)) => {
                    &&& request.method == Method::Post
                    &&& request.url@ == connectors.demopay.base_url@ + "/refund"@
                    &&& request.default_headers
                    &&& request_headers(req.connector_auth_type, request.headers@)
                    &&& request.body matches Some(body) && body.amount.value@ == int_decimal(
                        req.request.refund_amount.value as int,
                    ) && body.transaction_id == req.request.connector_transaction_id
                        && body.refund_id == req.connector_request_reference_id
                },
                Ok(None) => false,
                Err(e) => e == ConnectorError::FailedToObtainAuthType,
            },
    {
        let url = self.refund_get_url(req, connectors)?;
        let headers = self.refund_get_headers(req, connectors)?;
        let body = self.refund_get_request_body(req, connectors)?;
        Ok(Some(Request { method: Method::Post, url, default_headers: true, headers, body: Some(body) }))
    }

    /// The refund status request: a GET of the refund's status endpoint,
    /// with no body.
    pub fn rsync_build_request(&self, req: &RefundsRouterData, connectors: &Connectors) -> (r: Result<
        Option<Request<DemoPayRefundRequest>>,
        ConnectorError,
    >)
        ensures
            match r {
                Ok(Some(request)) => {
                    &&& request.method == Method::Get
                    &&& req.request.connector_refund_id matches Some(id) && request.url@
                        == connectors.demopay.base_url@ + "/status/"@ + id@
                    &&& request.default_headers
                    &&& request_headers(req.connector_auth_type, request.headers@)
                    &&& request.body is None
                },
                Ok(None) => false,
                Err(e) => if req.request.connector_refund_id is Some {
                    e == ConnectorError::FailedToObtainAuthType && !(req.connector_auth_type is HeaderKey)
                } else {
                    e == ConnectorError::MissingConnectorRefundID
                },
            },
    {
        let url = self.rsync_get_url(req, connectors)?;
        let headers = self.refund_get_headers(req, connectors)?;
        Ok(Some(Request { method: Method::Get, url, default_headers: true, headers, body: None }))
    }

    /// An authorization's router data after DemoPay's reply.
    pub fn authorize_handle_response(
        &self,
        data: PaymentsAuthorizeRouterData,
        response: Option<DemoPayPaymentsResponse>,
        status_code: u16,
    ) -> (r: Result<PaymentsAuthorizeRouterData, ConnectorError>)
        ensures
            payments_reply_result(data, response, status_code, r),
    {
        match response {
            None => Err(ConnectorError::ResponseDeserializationFailed),
            Some(response) => payments_router_data(ResponseRouterData { response, data, http_code: status_code }),
        }
    }

    /// A payment status request's router data after DemoPay's reply.
    pub fn psync_handle_response(
        &self,
        data: PaymentsSyncRouterData,
        response: Option<DemoPayPaymentsResponse>,
        status_code: u16,
    ) -> (r: Result<PaymentsSyncRouterData, ConnectorError>)
        ensures
            payments_reply_result(data, response, status_code, r),
    {
        match response {
            None => Err(ConnectorError::ResponseDeserializationFailed),
            Some(response) => payments_router_data(ResponseRouterData { response, data, http_code: status_code }),
        }
    }

    /// A capture's router data after DemoPay's reply.
    pub fn capture_handle_response(
        &self,
        data: PaymentsCaptureRouterData,
        response: Option<DemoPayPaymentsResponse>,
        status_code: u16,
    ) -> (r: Result<PaymentsCaptureRouterData, ConnectorError>)
        ensures
            payments_reply_result(data, response, status_code, r),
    {
        match response {
            None => Err(ConnectorError::ResponseDeserializationFailed),
            Some(response) => payments_router_data(ResponseRouterData { response, data, http_code: status_code }),
        }
    }

    /// A refund's router data after DemoPay's reply.
    pub fn refund_handle_response(
        &self,
        data: RefundsRouterData,
        response: Option<RefundResponse>,
        status_code: u16,
    ) -> (r: Result<RefundsRouterData, ConnectorError>)
        ensures
            refunds_reply_result(data, response, status_code, r),
    {
        match response {
            None => Err(ConnectorError::ResponseDeserializationFailed),
            Some(response) => refund_execute_router_data(ResponseRouterData { response, data, http_code: status_code }),
        }
    }

    /// A refund status request's router data after DemoPay's reply.
    pub fn rsync_handle_response(
        &self,
        data: RefundsRouterData,
        response: Option<RefundResponse>,
        status_code: u16,
    ) -> (r: Result<RefundsRouterData, ConnectorError>)
        ensures
            refunds_reply_result(data, response, status_code, r),
    {
        match response {
            None => Err(ConnectorError::ResponseDeserializationFailed),
            Some(response) => refund_sync_router_data(ResponseRouterData { response, data, http_code: status_code }),
        }
    }
}

} // verus!
