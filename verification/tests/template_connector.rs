use demopay::amount::{MinorUnit, StringMinorUnit};
use demopay::connector_template::demopay::transformers::{
    payments_router_data, refund_execute_router_data, refund_sync_router_data, DemoPayAuthType,
    DemoPayCaptureRequest, DemoPayErrorResponse, DemoPayPaymentStatus, DemoPayPaymentsRequest,
    DemoPayPaymentsResponse, DemoPayRefundRequest, DemoPayRouterData, RefundResponse, RefundStatus,
};
use demopay::connector_template::demopay::Demopay;
use demopay::enums::{self, AttemptStatus, AuthenticationType, ConnectorType, CurrencyUnit, Method, PaymentMethod};
use demopay::errors::ConnectorError;
use demopay::webhooks::IncomingWebhookRequestDetails;
use demopay::request::{ConnectorParams, Connectors};
use demopay::router_data::{
    Card, ConnectorAuthType, PaymentAddress, PaymentMethodData, PaymentsAuthorizeData,
    PaymentsAuthorizeRouterData, PaymentsCaptureData, PaymentsCaptureRouterData,
    PaymentsResponseData, PaymentsSyncData, PaymentsSyncRouterData, RefundsData,
    RefundsResponseData, RefundsRouterData, ResponseId, ResponseRouterData, RouterData, Wallet,
};

fn connectors() -> Connectors {
    Connectors { demopay: ConnectorParams { base_url: "https://api.demopay.test".to_string() } }
}

fn header_key() -> ConnectorAuthType {
    ConnectorAuthType::HeaderKey { api_key: "sk_test_1".to_string() }
}

fn router_data<Req, Resp>(request: Req, auth: ConnectorAuthType) -> RouterData<Req, Resp> {
    RouterData {
        status: AttemptStatus::Started,
        connector_auth_type: auth,
        auth_type: AuthenticationType::NoThreeDs,
        connector_request_reference_id: "ref_1".to_string(),
        customer_id: Some("cus_1".to_string()),
        payment_method_token: None,
        address: PaymentAddress::default(),
        request,
        response: Err(demopay::router_data::ErrorResponse {
            code: "pending".to_string(),
            message: "pending".to_string(),
            reason: None,
            status_code: 0,
            attempt_status: None,
            connector_transaction_id: None,
            network_advice_code: None,
            network_decline_code: None,
            network_error_message: None,
        }),
    }
}

fn authorize_data(payment_method_data: PaymentMethodData, amount: i64) -> PaymentsAuthorizeData {
    PaymentsAuthorizeData {
        payment_method_data,
        minor_amount: MinorUnit::new(amount),
        currency: "USD".to_string(),
        confirm: true,
        capture_method: None,
        email: None,
        metadata: None,
    }
}

fn wallet(token: Option<&str>) -> PaymentMethodData {
    PaymentMethodData::Wallet(Wallet { token: token.map(|t| t.to_string()) })
}

fn authorize_router_data(payment_method_data: PaymentMethodData, auth: ConnectorAuthType) -> PaymentsAuthorizeRouterData {
    router_data(authorize_data(payment_method_data, 100), auth)
}

fn refund_router_data(refund_id: Option<&str>, auth: ConnectorAuthType) -> RefundsRouterData {
    router_data(
        RefundsData {
            refund_amount: MinorUnit::new(50),
            currency: "USD".to_string(),
            connector_transaction_id: "txn_9".to_string(),
            connector_refund_id: refund_id.map(|r| r.to_string()),
            reason: Some("requested_by_customer".to_string()),
        },
        auth,
    )
}

fn payments_response(status: DemoPayPaymentStatus) -> DemoPayPaymentsResponse {
    DemoPayPaymentsResponse { status, id: "pay_77".to_string(), amount: None, currency: None }
}

#[test]
fn connector_common_facts() {
    let c = Demopay::new();
    assert_eq!(c.id(), "demopay");
    assert_eq!(c.get_currency_unit(), CurrencyUnit::Minor);
    assert_eq!(c.common_get_content_type(), "application/json");
    assert_eq!(c.get_content_type(), "application/json");
    assert_eq!(c.base_url(&connectors()), "https://api.demopay.test");
}

#[test]
fn auth_type_from_header_key() {
    let auth = DemoPayAuthType::try_from(&header_key()).unwrap();
    assert_eq!(auth.api_key, "sk_test_1");
}

#[test]
fn auth_type_refuses_other_credentials() {
    let body_key = ConnectorAuthType::BodyKey { api_key: "a".to_string(), key1: "b".to_string() };
    assert_eq!(DemoPayAuthType::try_from(&body_key), Err(ConnectorError::FailedToObtainAuthType));
    assert_eq!(DemoPayAuthType::try_from(&ConnectorAuthType::NoKey), Err(ConnectorError::FailedToObtainAuthType));
}

#[test]
fn auth_header_is_masked_bearer_token() {
    let headers = Demopay::new().get_auth_header(&header_key()).unwrap();
    assert_eq!(headers.len(), 1);
    assert_eq!(headers[0].name, "Authorization");
    assert_eq!(headers[0].value, "Bearer sk_test_1");
    assert!(headers[0].masked);
}

#[test]
fn auth_header_refused_without_header_key() {
    assert_eq!(
        Demopay::new().get_auth_header(&ConnectorAuthType::TemporaryAuth),
        Err(ConnectorError::FailedToObtainAuthType)
    );
}

#[test]
fn build_headers_content_type_then_auth() {
    let req = authorize_router_data(wallet(Some("w1")), header_key());
    let headers = Demopay::new().build_headers(&req, &connectors()).unwrap();
    assert_eq!(headers.len(), 2);
    assert_eq!(headers[0].name, "Content-Type");
    assert_eq!(headers[0].value, "application/json");
    assert!(!headers[0].masked);
    assert_eq!(headers[1].value, "Bearer sk_test_1");
}

#[test]
fn payment_status_mapping() {
    assert_eq!(AttemptStatus::from(DemoPayPaymentStatus::Succeeded), AttemptStatus::Charged);
    assert_eq!(AttemptStatus::from(DemoPayPaymentStatus::Failed), AttemptStatus::Failure);
    assert_eq!(AttemptStatus::from(DemoPayPaymentStatus::Processing), AttemptStatus::Pending);
    assert_eq!(AttemptStatus::from(DemoPayPaymentStatus::Authorized), AttemptStatus::Authorized);
    assert_eq!(AttemptStatus::from(DemoPayPaymentStatus::Captured), AttemptStatus::Charged);
    assert_eq!(AttemptStatus::from(DemoPayPaymentStatus::Voided), AttemptStatus::Voided);
    assert_eq!(DemoPayPaymentStatus::default(), DemoPayPaymentStatus::Processing);
}

#[test]
fn refund_status_mapping() {
    assert_eq!(enums::RefundStatus::from(RefundStatus::Succeeded), enums::RefundStatus::Success);
    assert_eq!(enums::RefundStatus::from(RefundStatus::Failed), enums::RefundStatus::Failure);
    assert_eq!(enums::RefundStatus::from(RefundStatus::Processing), enums::RefundStatus::Pending);
    assert_eq!(RefundStatus::default(), RefundStatus::Processing);
}

#[test]
fn wallet_payment_request_from_token() {
    let req = authorize_router_data(wallet(Some("wallet_42")), header_key());
    let data = DemoPayRouterData::from((StringMinorUnit { value: "100".to_string() }, &req));
    let body = DemoPayPaymentsRequest::try_from(&data).unwrap();
    assert_eq!(
        body,
        DemoPayPaymentsRequest {
            amount: StringMinorUnit { value: "100".to_string() },
            currency: "USD".to_string(),
            wallet_id: "wallet_42".to_string(),
            transaction_id: "ref_1".to_string(),
        }
    );
}

#[test]
fn wallet_payment_request_needs_token() {
    let req = authorize_router_data(wallet(None), header_key());
    let data = DemoPayRouterData::from((StringMinorUnit { value: "100".to_string() }, &req));
    assert_eq!(
        DemoPayPaymentsRequest::try_from(&data),
        Err(ConnectorError::MissingRequiredField { field_name: "wallet_id" })
    );
}

#[test]
fn card_payment_not_supported_by_wallet_connector() {
    let card = PaymentMethodData::Card(Card {
        card_number: "4242424242424242".to_string(),
        card_exp_month: "12".to_string(),
        card_exp_year: "2030".to_string(),
        card_cvc: "123".to_string(),
    });
    let req = authorize_router_data(card, header_key());
    let data = DemoPayRouterData::from((StringMinorUnit { value: "100".to_string() }, &req));
    assert_eq!(
        DemoPayPaymentsRequest::try_from(&data),
        Err(ConnectorError::NotImplemented("Payment method not supported".to_string()))
    );
}

#[test]
fn capture_and_refund_requests() {
    let capture: PaymentsCaptureRouterData = router_data(
        PaymentsCaptureData {
            amount_to_capture: 50,
            minor_payment_amount: MinorUnit::new(100),
            currency: "USD".to_string(),
            connector_transaction_id: "txn_9".to_string(),
        },
        header_key(),
    );
    let data = DemoPayRouterData::from((StringMinorUnit { value: "50".to_string() }, &capture));
    assert_eq!(
        DemoPayCaptureRequest::try_from(&data).unwrap(),
        DemoPayCaptureRequest { amount: StringMinorUnit { value: "50".to_string() }, transaction_id: "ref_1".to_string() }
    );
    let refund = refund_router_data(None, header_key());
    let data = DemoPayRouterData::from((StringMinorUnit { value: "50".to_string() }, &refund));
    assert_eq!(
        DemoPayRefundRequest::try_from(&data).unwrap(),
        DemoPayRefundRequest {
            amount: StringMinorUnit { value: "50".to_string() },
            transaction_id: "txn_9".to_string(),
            refund_id: "ref_1".to_string(),
        }
    );
}

#[test]
fn urls_of_each_flow() {
    let c = Demopay::new();
    let conn = connectors();
    let auth_req = authorize_router_data(wallet(Some("w")), header_key());
    assert_eq!(c.authorize_get_url(&auth_req, &conn).unwrap(), "https://api.demopay.test/pay");
    let refund = refund_router_data(Some("rf_3"), header_key());
    assert_eq!(c.refund_get_url(&refund, &conn).unwrap(), "https://api.demopay.test/refund");
    assert_eq!(c.rsync_get_url(&refund, &conn).unwrap(), "https://api.demopay.test/status/rf_3");
    let capture: PaymentsCaptureRouterData = router_data(
        PaymentsCaptureData {
            amount_to_capture: 50,
            minor_payment_amount: MinorUnit::new(100),
            currency: "USD".to_string(),
            connector_transaction_id: "txn_9".to_string(),
        },
        header_key(),
    );
    assert_eq!(c.capture_get_url(&capture, &conn).unwrap(), "https://api.demopay.test/capture");
    let sync: PaymentsSyncRouterData = router_data(
        PaymentsSyncData {
            connector_transaction_id: ResponseId::ConnectorTransactionId("pay_77".to_string()),
            capture_method: None,
        },
        header_key(),
    );
    assert_eq!(c.psync_get_url(&sync, &conn).unwrap(), "https://api.demopay.test/status/pay_77");
}

#[test]
fn status_urls_need_ids() {
    let c = Demopay::new();
    let conn = connectors();
    let sync: PaymentsSyncRouterData = router_data(
        PaymentsSyncData { connector_transaction_id: ResponseId::NoResponseId, capture_method: None },
        header_key(),
    );
    assert_eq!(c.psync_get_url(&sync, &conn), Err(ConnectorError::MissingConnectorTransactionID));
    let refund = refund_router_data(None, header_key());
    assert_eq!(c.rsync_get_url(&refund, &conn), Err(ConnectorError::MissingConnectorRefundID));
}

#[test]
fn payment_and_refund_status_share_endpoint() {
    let c = Demopay::new();
    let conn = connectors();
    let sync: PaymentsSyncRouterData = router_data(
        PaymentsSyncData { connector_transaction_id: ResponseId::ConnectorTransactionId("x1".to_string()), capture_method: None },
        header_key(),
    );
    let refund = refund_router_data(Some("x1"), header_key());
    assert_eq!(c.psync_get_url(&sync, &conn).unwrap(), c.rsync_get_url(&refund, &conn).unwrap());
}

#[test]
fn authorize_request_body_converts_amount() {
    let c = Demopay::new();
    let req = router_data(authorize_data(wallet(Some("w9")), 1999), header_key());
    let body = c.authorize_get_request_body(&req, &connectors()).unwrap();
    assert_eq!(body.amount.value, "1999");
    assert_eq!(body.wallet_id, "w9");
}

#[test]
fn authorize_build_request_posts_body() {
    let c = Demopay::new();
    let req = authorize_router_data(wallet(Some("w1")), header_key());
    let request = c.authorize_build_request(&req, &connectors()).unwrap().unwrap();
    assert_eq!(request.method, Method::Post);
    assert_eq!(request.url, "https://api.demopay.test/pay");
    assert!(request.default_headers);
    assert_eq!(request.headers.len(), 2);
    let body = request.body.unwrap();
    assert_eq!(body.amount.value, "100");
    assert_eq!(body.wallet_id, "w1");
}

#[test]
fn authorize_build_request_checks_credentials_before_body() {
    let c = Demopay::new();
    let req = authorize_router_data(wallet(None), ConnectorAuthType::NoKey);
    assert_eq!(c.authorize_build_request(&req, &connectors()), Err(ConnectorError::FailedToObtainAuthType));
    let req = authorize_router_data(wallet(None), header_key());
    assert_eq!(
        c.authorize_build_request(&req, &connectors()),
        Err(ConnectorError::MissingRequiredField { field_name: "wallet_id" })
    );
}

#[test]
fn sync_build_requests_get_without_body() {
    let c = Demopay::new();
    let sync: PaymentsSyncRouterData = router_data(
        PaymentsSyncData { connector_transaction_id: ResponseId::ConnectorTransactionId("p1".to_string()), capture_method: None },
        header_key(),
    );
    let request = c.psync_build_request(&sync, &connectors()).unwrap().unwrap();
    assert_eq!(request.method, Method::Get);
    assert_eq!(request.url, "https://api.demopay.test/status/p1");
    assert!(request.body.is_none());
    let refund = refund_router_data(Some("r1"), header_key());
    let request = c.rsync_build_request(&refund, &connectors()).unwrap().unwrap();
    assert_eq!(request.method, Method::Get);
    assert_eq!(request.url, "https://api.demopay.test/status/r1");
    assert!(request.body.is_none());
}

#[test]
fn capture_and_refund_build_requests() {
    let c = Demopay::new();
    let capture: PaymentsCaptureRouterData = router_data(
        PaymentsCaptureData {
            amount_to_capture: 50,
            minor_payment_amount: MinorUnit::new(100),
            currency: "USD".to_string(),
            connector_transaction_id: "txn_9".to_string(),
        },
        header_key(),
    );
    let request = c.capture_build_request(&capture, &connectors()).unwrap().unwrap();
    assert_eq!(request.method, Method::Post);
    assert_eq!(request.body.unwrap().amount.value, "50");
    let refund = refund_router_data(None, header_key());
    let request = c.refund_build_request(&refund, &connectors()).unwrap().unwrap();
    assert_eq!(request.url, "https://api.demopay.test/refund");
    assert_eq!(request.body.unwrap().transaction_id, "txn_9");
    let refund = refund_router_data(None, ConnectorAuthType::NoKey);
    assert_eq!(c.refund_build_request(&refund, &connectors()), Err(ConnectorError::FailedToObtainAuthType));
}

#[test]
fn authorize_reply_sets_status_and_transaction() {
    let c = Demopay::new();
    let req = authorize_router_data(wallet(Some("w1")), header_key());
    let after = c
        .authorize_handle_response(req, Some(payments_response(DemoPayPaymentStatus::Authorized)), 200)
        .unwrap();
    assert_eq!(after.status, AttemptStatus::Authorized);
    assert_eq!(
        after.response,
        Ok(PaymentsResponseData::TransactionResponse {
            resource_id: ResponseId::ConnectorTransactionId("pay_77".to_string()),
            connector_response_reference_id: None,
        })
    );
    assert_eq!(after.connector_request_reference_id, "ref_1");
    assert_eq!(after.customer_id, Some("cus_1".to_string()));
}

#[test]
fn unreadable_reply_is_reported() {
    let c = Demopay::new();
    let req = authorize_router_data(wallet(Some("w1")), header_key());
    assert_eq!(c.authorize_handle_response(req, None, 200), Err(ConnectorError::ResponseDeserializationFailed));
    let refund = refund_router_data(None, header_key());
    assert_eq!(c.refund_handle_response(refund, None, 200), Err(ConnectorError::ResponseDeserializationFailed));
}

#[test]
fn sync_and_capture_replies() {
    let c = Demopay::new();
    let sync: PaymentsSyncRouterData = router_data(
        PaymentsSyncData { connector_transaction_id: ResponseId::ConnectorTransactionId("p1".to_string()), capture_method: None },
        header_key(),
    );
    let after = c.psync_handle_response(sync, Some(payments_response(DemoPayPaymentStatus::Succeeded)), 200).unwrap();
    assert_eq!(after.status, AttemptStatus::Charged);
    let capture: PaymentsCaptureRouterData = router_data(
        PaymentsCaptureData {
            amount_to_capture: 50,
            minor_payment_amount: MinorUnit::new(100),
            currency: "USD".to_string(),
            connector_transaction_id: "txn_9".to_string(),
        },
        header_key(),
    );
    let after = c.capture_handle_response(capture, Some(payments_response(DemoPayPaymentStatus::Captured)), 200).unwrap();
    assert_eq!(after.status, AttemptStatus::Charged);
}

#[test]
fn refund_replies_read_alike() {
    let c = Demopay::new();
    let reply = || RefundResponse {
        id: "rf_5".to_string(),
        status: RefundStatus::Succeeded,
        amount: None,
        transaction_id: "txn_9".to_string(),
    };
    let a = c.refund_handle_response(refund_router_data(None, header_key()), Some(reply()), 200).unwrap();
    let b = c.rsync_handle_response(refund_router_data(None, header_key()), Some(reply()), 200).unwrap();
    assert_eq!(a, b);
    assert_eq!(
        a.response,
        Ok(RefundsResponseData { connector_refund_id: "rf_5".to_string(), refund_status: enums::RefundStatus::Success })
    );
    assert_eq!(a.status, AttemptStatus::Started);
}

#[test]
fn response_transformers_directly() {
    let req = authorize_router_data(wallet(Some("w1")), header_key());
    let after = payments_router_data(ResponseRouterData {
        response: payments_response(DemoPayPaymentStatus::Failed),
        data: req,
        http_code: 402,
    })
    .unwrap();
    assert_eq!(after.status, AttemptStatus::Failure);
    let reply = RefundResponse { id: "rf".to_string(), status: RefundStatus::Failed, amount: None, transaction_id: "t".to_string() };
    let a = refund_execute_router_data(ResponseRouterData { response: reply, data: refund_router_data(None, header_key()), http_code: 200 }).unwrap();
    assert_eq!(a.response.unwrap().refund_status, enums::RefundStatus::Failure);
    let reply = RefundResponse { id: "rf".to_string(), status: RefundStatus::Processing, amount: None, transaction_id: "t".to_string() };
    let b = refund_sync_router_data(ResponseRouterData { response: reply, data: refund_router_data(None, header_key()), http_code: 200 }).unwrap();
    assert_eq!(b.response.unwrap().refund_status, enums::RefundStatus::Pending);
}

#[test]
fn error_reply_in_router_terms() {
    let c = Demopay::new();
    let body = DemoPayErrorResponse {
        status_code: 999,
        code: "insufficient_funds".to_string(),
        message: "Not enough money".to_string(),
        reason: Some("wallet empty".to_string()),
        network_advice_code: Some("01".to_string()),
        network_decline_code: None,
        network_error_message: None,
    };
    let e = c.build_error_response(402, Some(body)).unwrap();
    assert_eq!(e.status_code, 402);
    assert_eq!(e.code, "insufficient_funds");
    assert_eq!(e.message, "Not enough money");
    assert_eq!(e.reason, Some("wallet empty".to_string()));
    assert_eq!(e.network_advice_code, Some("01".to_string()));
    assert_eq!(e.attempt_status, None);
    assert_eq!(e.connector_transaction_id, None);
    assert_eq!(c.get_error_response(500, None), Err(ConnectorError::ResponseDeserializationFailed));
}

#[test]
fn connector_specifications() {
    let c = Demopay::new();
    let info = c.get_connector_about().unwrap();
    assert_eq!(info.name, "DemoPay");
    assert_eq!(info.connector_id, "demopay");
    assert_eq!(info.connector_type, ConnectorType::PaymentProcessor);
    assert_eq!(info.description, "DemoPay is a sample payment connector for demonstration purposes.");
    assert_eq!(c.get_supported_payment_methods(), Some(vec![PaymentMethod::Wallet]));
}

#[test]
fn partial_capture_sends_the_amount_to_capture() {
    let c = Demopay::new();
    let capture: PaymentsCaptureRouterData = router_data(
        PaymentsCaptureData {
            amount_to_capture: 50,
            minor_payment_amount: MinorUnit::new(1000),
            currency: "USD".to_string(),
            connector_transaction_id: "txn_9".to_string(),
        },
        header_key(),
    );
    let body = c.capture_get_request_body(&capture, &connectors()).unwrap();
    assert_eq!(body.amount.value, "50");
}

#[test]
fn webhooks_are_not_read() {
    let c = Demopay::new();
    let request = IncomingWebhookRequestDetails {
        method: Method::Post,
        uri: "/webhooks/demopay".to_string(),
        headers: vec![],
        body: b"{\"event\":\"payment.succeeded\"}".to_vec(),
        query_params: String::new(),
    };
    assert_eq!(c.get_webhook_object_reference_id(&request), Err(ConnectorError::WebhooksNotImplemented));
    assert_eq!(c.get_webhook_event_type(&request), Err(ConnectorError::WebhooksNotImplemented));
    assert_eq!(c.get_webhook_resource_object(&request), Err(ConnectorError::WebhooksNotImplemented));
    assert_eq!(c.get_supported_webhook_flows(), None);
}
