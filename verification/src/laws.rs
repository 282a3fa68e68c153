//! Properties that hold across the connector's functions.

use vstd::prelude::*;

use crate::amount::{decimal_value, int_decimal, lemma_int_decimal_round_trip};
use crate::connector_template::demopay as template;
use crate::connector_template::demopay::transformers as template_transformers;
use crate::connectors::demopay as card;
use crate::connectors::demopay::transformers as card_transformers;
use crate::enums::{AttemptStatus, CaptureMethod, RefundStatus};
use crate::errors::ConnectorError;
use crate::request::{Header, AUTHORIZATION};
use crate::router_data::{
    auto_capture_result, Card, ConnectorAuthType,
    PaymentsAuthorizeRouterData, PaymentsResponseData, RefundsData, RefundsResponseData,
    ResponseId, ResponseRouterData, RouterData, TokenizationRouterData,
};
use crate::amount::MinorUnit;

verus! {

/// The amount a wallet payment request carries, read back as a number, is
/// the minor amount of the authorization it was built from.
pub proof fn law_wallet_request_amount_round_trip(
    data: PaymentsAuthorizeRouterData,
    r: Result<template_transformers::DemoPayPaymentsRequest, ConnectorError>,
)
    requires
        template_transformers::payments_request_result(
            int_decimal(data.request.minor_amount.value as int),
            data,
            r,
        ),
        r is Ok,
    ensures
        decimal_value(r->Ok_0.amount.value@) == data.request.minor_amount.value,
{
    lemma_int_decimal_round_trip(data.request.minor_amount.value as int);
}

/// Reading a DemoPay wallet reply changes only the attempt status and the
/// response of the router data; the credentials, reference id, customer,
/// token, addresses and request stay as they were.
pub proof fn law_wallet_reply_keeps_router_data<Req>(
    item: ResponseRouterData<template_transformers::DemoPayPaymentsResponse, Req, PaymentsResponseData>,
)
    ensures
        ({
            let d = template_transformers::spec_payments_router_data(item);
            &&& d.connector_auth_type == item.data.connector_auth_type
            &&& d.auth_type == item.data.auth_type
            &&& d.connector_request_reference_id == item.data.connector_request_reference_id
            &&& d.customer_id == item.data.customer_id
            &&& d.payment_method_token == item.data.payment_method_token
            &&& d.address == item.data.address
            &&& d.request == item.data.request
        }),
{
}

/// A wallet reply sets the same attempt status whatever flow it answers:
/// the status depends on DemoPay's payment status alone.
pub proof fn law_wallet_reply_status_independent_of_flow<Req1, Req2>(
    first: ResponseRouterData<template_transformers::DemoPayPaymentsResponse, Req1, PaymentsResponseData>,
    second: ResponseRouterData<template_transformers::DemoPayPaymentsResponse, Req2, PaymentsResponseData>,
)
    requires
        first.response.status == second.response.status,
    ensures
        template_transformers::spec_payments_router_data(first).status
            == template_transformers::spec_payments_router_data(second).status,
{
}

/// A wallet payment counts as charged exactly when DemoPay reports it
/// succeeded or captured, and as authorized exactly when DemoPay reports it
/// authorized.
pub proof fn law_wallet_charged_iff_succeeded_or_captured(status: template_transformers::DemoPayPaymentStatus)
    ensures
        (template_transformers::attempt_status_of(status) == AttemptStatus::Charged) <==> (status
            == template_transformers::DemoPayPaymentStatus::Succeeded || status
            == template_transformers::DemoPayPaymentStatus::Captured),
        (template_transformers::attempt_status_of(status) == AttemptStatus::Authorized) <==> (status
            == template_transformers::DemoPayPaymentStatus::Authorized),
{
}

/// A wallet refund is a success exactly when DemoPay reports it succeeded.
pub proof fn law_wallet_refund_success_iff_succeeded(status: template_transformers::RefundStatus)
    ensures
        (template_transformers::refund_status_of(status) == RefundStatus::Success) <==> (status
            == template_transformers::RefundStatus::Succeeded),
{
}

/// A refund reply and a refund status reply with the same content leave the
/// router data in the same state.
pub proof fn law_wallet_refund_replies_read_alike(
    data: RouterData<RefundsData, RefundsResponseData>,
    response: Option<template_transformers::RefundResponse>,
    status_code: u16,
    after_refund: Result<RouterData<RefundsData, RefundsResponseData>, ConnectorError>,
    after_sync: Result<RouterData<RefundsData, RefundsResponseData>, ConnectorError>,
)
    requires
        template::refunds_reply_result(data, response, status_code, after_refund),
        template::refunds_reply_result(data, response, status_code, after_sync),
    ensures
        after_refund == after_sync,
{
}

/// Whether two header lists carry the same names, values and masking.
pub open spec fn same_headers(a: Seq<Header>, b: Seq<Header>) -> bool {
    &&& a.len() == b.len()
    &&& forall|i: int|
        0 <= i < a.len() ==> a[i].name@ == b[i].name@ && a[i].value@ == b[i].value@ && a[i].masked
            == b[i].masked
}

/// Both DemoPay connectors accept the same credentials and send the same
/// authorization header for them.
pub proof fn law_connectors_agree_on_auth_header(
    auth_type: ConnectorAuthType,
    wallet: Result<Vec<Header>, ConnectorError>,
    card: Result<Vec<Header>, ConnectorError>,
)
    requires
        template::auth_header_result(auth_type, wallet),
        card::bearer_header_result(auth_type, card),
    ensures
        wallet is Ok <==> card is Ok,
        wallet is Err ==> wallet == card,
        wallet is Ok ==> same_headers(wallet->Ok_0@, card->Ok_0@),
{
    reveal_strlit("Authorization");
    assert(AUTHORIZATION@ == "Authorization"@);
}

/// A card payment is settled at once exactly when its capture method says
/// the payment is captured automatically.
pub proof fn law_card_settle_iff_auto_capture(
    amount: MinorUnit,
    data: PaymentsAuthorizeRouterData,
    r: Result<card_transformers::DemopayPaymentsRequest, ConnectorError>,
)
    requires
        card_transformers::payments_request_result(amount, data, r),
        r is Ok,
    ensures
        auto_capture_result(data.request.capture_method, Ok(r->Ok_0.settle)),
        r->Ok_0.settle <==> (data.request.capture_method is None || data.request.capture_method
            == Some(CaptureMethod::Automatic) || data.request.capture_method == Some(
            CaptureMethod::SequentialAutomatic,
        )),
{
}

/// A card payment reply is a failure exactly when it names an error or an
/// error state, and either way the attempt status is DemoPay's state mapped.
pub proof fn law_card_reply_fails_iff_error<Req>(
    item: ResponseRouterData<card_transformers::DemopayPaymentsResponse, Req, PaymentsResponseData>,
    r: Result<RouterData<Req, PaymentsResponseData>, ConnectorError>,
)
    requires
        card_transformers::payments_router_data_result(item, r),
    ensures
        r is Ok,
        r->Ok_0.response is Err <==> (item.response.error is Some || item.response.error_state is Some),
        r->Ok_0.status == card_transformers::attempt_status_of(item.response.state),
{
}

/// The two-digit year of a card whose year ends in two ASCII characters is
/// those two characters.
pub proof fn law_two_digit_year_of_ascii_year(year: Seq<char>)
    requires
        year.len() >= 2,
        (year[year.len() - 1] as u32) < 0x80,
        (year[year.len() - 2] as u32) < 0x80,
    ensures
        card_transformers::two_digit_year(year) == Some(year.subrange(year.len() - 2, year.len() as int)),
{
}

/// A card tokenization that succeeds sends the card exactly as given: its
/// number, expiry month and security code unchanged whatever their length,
/// the public key of the body-key credentials, and no recurring, intent or
/// strong-authentication choice. A year ending in two ASCII characters is
/// sent as those two characters.
pub proof fn law_card_token_carries_the_card(
    item: TokenizationRouterData,
    r: Result<card_transformers::DemopayTokenRequest, ConnectorError>,
)
    requires
        card_transformers::token_request_result(item, r),
        r is Ok,
    ensures
        item.request.payment_method_data is Card,
        item.connector_auth_type is BodyKey,
        ({
            let c: Card = item.request.payment_method_data->Card_0;
            let body = r->Ok_0;
            let year = c.card_exp_year@;
            &&& body.number@ == c.card_number@
            &&& body.month@ == c.card_exp_month@
            &&& body.cvv@ == c.card_cvc@
            &&& body.pkey@ == item.connector_auth_type->BodyKey_key1@
            &&& body.recurring is None
            &&& body.intent is None
            &&& body.strong_authentication_rule is None
            &&& (year.len() >= 2 && (year[year.len() - 1] as u32) < 0x80 && (year[year.len() - 2]
                as u32) < 0x80) ==> body.year@ == year.subrange(year.len() - 2, year.len() as int)
        }),
{
}

/// A card payment request that succeeds charges the amount it was built
/// from, whatever the capture method, from the payment method token, in the
/// payment's currency, under the router's reference id, for the router's
/// customer and with the payment's metadata.
pub proof fn law_card_payment_charges_the_amount(
    amount: MinorUnit,
    data: PaymentsAuthorizeRouterData,
    r: Result<card_transformers::DemopayPaymentsRequest, ConnectorError>,
)
    requires
        card_transformers::payments_request_result(amount, data, r),
        r is Ok,
    ensures
        data.payment_method_token is Some,
        data.payment_method_token->0 is Token,
        ({
            let body = r->Ok_0;
            &&& body.amount == amount
            &&& body.source@ == data.payment_method_token->0->Token_0@
            &&& body.currency@ == data.request.currency@
            &&& body.handle@ == data.connector_request_reference_id@
            &&& body.customer.handle == data.customer_id
            &&& body.customer.email == data.request.email
            &&& body.metadata == data.request.metadata
        }),
{
}

/// A card payment reply keeps DemoPay's payment handle as the payment's
/// transaction id, whatever its state: a reply with no error becomes a
/// transaction response on that handle, and a reply with an error reports
/// the handle, the error as the reason and the HTTP code.
pub proof fn law_card_reply_keeps_the_handle<Req>(
    item: ResponseRouterData<card_transformers::DemopayPaymentsResponse, Req, PaymentsResponseData>,
    r: Result<RouterData<Req, PaymentsResponseData>, ConnectorError>,
)
    requires
        card_transformers::payments_router_data_result(item, r),
    ensures
        r is Ok,
        (item.response.error is None && item.response.error_state is None) ==> (r->Ok_0.response
            matches Ok(PaymentsResponseData::TransactionResponse { resource_id, connector_response_reference_id })
            && resource_id == ResponseId::ConnectorTransactionId(item.response.handle)
            && connector_response_reference_id == Some(item.response.handle)),
        (item.response.error is Some || item.response.error_state is Some) ==> (r->Ok_0.response
            matches Err(e) && e.connector_transaction_id == Some(item.response.handle) && e.reason
            == item.response.error && e.status_code == item.http_code),
{
}

/// The card connector's states map as DemoPay means them: settled is
/// charged, authorized is authorized, failed is a failure, cancelled is
/// voided, and created and pending are pending. A refund succeeds exactly
/// when it is refunded and fails exactly when it failed.
pub proof fn law_card_states_map_as_named(
    state: card_transformers::DemopayPaymentState,
    refund: card_transformers::RefundState,
)
    ensures
        (card_transformers::attempt_status_of(state) == AttemptStatus::Charged) <==> (state
            == card_transformers::DemopayPaymentState::Settled),
        (card_transformers::attempt_status_of(state) == AttemptStatus::Authorized) <==> (state
            == card_transformers::DemopayPaymentState::Authorized),
        (card_transformers::attempt_status_of(state) == AttemptStatus::Failure) <==> (state
            == card_transformers::DemopayPaymentState::Failed),
        (card_transformers::attempt_status_of(state) == AttemptStatus::Voided) <==> (state
            == card_transformers::DemopayPaymentState::Cancelled),
        (card_transformers::attempt_status_of(state) == AttemptStatus::Pending) <==> (state
            == card_transformers::DemopayPaymentState::Created || state
            == card_transformers::DemopayPaymentState::Pending),
        (card_transformers::refund_status_of(refund) == RefundStatus::Success) <==> (refund
            == card_transformers::RefundState::Refunded),
        (card_transformers::refund_status_of(refund) == RefundStatus::Failure) <==> (refund
            == card_transformers::RefundState::Failed),
{
}

/// A card refund or refund status reply records the refund under DemoPay's
/// refund id, whatever its state, and changes nothing but the response.
pub proof fn law_card_refund_reply_keeps_refund_id(
    item: ResponseRouterData<card_transformers::RefundResponse, RefundsData, RefundsResponseData>,
    r: Result<RouterData<RefundsData, RefundsResponseData>, ConnectorError>,
)
    requires
        r == Ok::<RouterData<RefundsData, RefundsResponseData>, ConnectorError>(
            card_transformers::spec_refunds_router_data(item),
        ),
    ensures
        r->Ok_0.response matches Ok(rr) && rr.connector_refund_id == item.response.id,
        r->Ok_0.status == item.data.status,
        r->Ok_0.request == item.data.request,
        r->Ok_0.connector_request_reference_id == item.data.connector_request_reference_id,
{
}

/// A wallet payment, capture or status reply keeps DemoPay's payment id as
/// the payment's transaction id, whatever the status it reports.
pub proof fn law_wallet_reply_keeps_payment_id<Req>(
    item: ResponseRouterData<template_transformers::DemoPayPaymentsResponse, Req, PaymentsResponseData>,
    r: Result<RouterData<Req, PaymentsResponseData>, ConnectorError>,
)
    requires
        r == Ok::<RouterData<Req, PaymentsResponseData>, ConnectorError>(
            template_transformers::spec_payments_router_data(item),
        ),
    ensures
        r->Ok_0.response matches Ok(PaymentsResponseData::TransactionResponse { resource_id, .. })
            && resource_id == ResponseId::ConnectorTransactionId(item.response.id),
{
}

/// Handling a readable wallet payment reply, in any flow, ends with DemoPay's
/// payment id as the transaction id and the reply's status mapped.
pub proof fn law_wallet_handled_reply_keeps_payment_id<Req>(
    data: RouterData<Req, PaymentsResponseData>,
    body: template_transformers::DemoPayPaymentsResponse,
    status_code: u16,
    r: Result<RouterData<Req, PaymentsResponseData>, ConnectorError>,
)
    requires
        template::payments_reply_result(data, Some(body), status_code, r),
    ensures
        r is Ok,
        r->Ok_0.response matches Ok(PaymentsResponseData::TransactionResponse { resource_id, .. })
            && resource_id == ResponseId::ConnectorTransactionId(body.id),
        r->Ok_0.status == template_transformers::attempt_status_of(body.status),
{
}

/// A wallet refund or refund status reply records the refund under DemoPay's
/// refund id, whatever its status, and never under the payment's id unless
/// DemoPay gave that id to the refund.
pub proof fn law_wallet_refund_reply_keeps_refund_id(
    item: ResponseRouterData<template_transformers::RefundResponse, RefundsData, RefundsResponseData>,
    r: Result<RouterData<RefundsData, RefundsResponseData>, ConnectorError>,
)
    requires
        r == Ok::<RouterData<RefundsData, RefundsResponseData>, ConnectorError>(
            template_transformers::spec_refunds_router_data(item),
        ),
    ensures
        r->Ok_0.response matches Ok(rr) && rr.connector_refund_id == item.response.id,
        r->Ok_0.status == item.data.status,
        r->Ok_0.request == item.data.request,
{
}

/// Handling a readable wallet refund reply, by either refund flow, records
/// DemoPay's refund id and a refund status that is a success exactly when
/// DemoPay says it succeeded.
pub proof fn law_wallet_handled_refund_keeps_refund_id(
    data: RouterData<RefundsData, RefundsResponseData>,
    body: template_transformers::RefundResponse,
    status_code: u16,
    r: Result<RouterData<RefundsData, RefundsResponseData>, ConnectorError>,
)
    requires
        template::refunds_reply_result(data, Some(body), status_code, r),
    ensures
        r is Ok,
        r->Ok_0.response matches Ok(rr) && rr.connector_refund_id == body.id && (rr.refund_status
            == RefundStatus::Success <==> body.status == template_transformers::RefundStatus::Succeeded),
{
}

/// A wallet payment request that succeeds carries the wallet's token as the
/// wallet id, the payment's currency and the router's reference id.
pub proof fn law_wallet_request_carries_the_wallet(
    data: PaymentsAuthorizeRouterData,
    r: Result<template_transformers::DemoPayPaymentsRequest, ConnectorError>,
)
    requires
        template_transformers::payments_request_result(
            int_decimal(data.request.minor_amount.value as int),
            data,
            r,
        ),
        r is Ok,
    ensures
        data.request.payment_method_data is Wallet,
        data.request.payment_method_data->Wallet_0.token == Some(r->Ok_0.wallet_id),
        r->Ok_0.currency@ == data.request.currency@,
        r->Ok_0.transaction_id@ == data.connector_request_reference_id@,
{
}

} // verus!
