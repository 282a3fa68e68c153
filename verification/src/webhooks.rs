//! Incoming webhooks as the router hands them to a connector, and what a
//! connector can make of them.

use vstd::prelude::*;

use crate::enums::Method;
use crate::request::Header;

verus! {

/// An incoming webhook request: its method, URI, headers, raw body and
/// query string.
#[derive(Debug, PartialEq, Eq)]
pub struct IncomingWebhookRequestDetails {
    pub method: Method,
    pub uri: String,
    pub headers: Vec<Header>,
    pub body: Vec<u8>,
    pub query_params: String,
}

/// The payment or refund a webhook is about, by the connector's id.
#[derive(Debug, PartialEq, Eq)]
pub enum ObjectReferenceId {
    PaymentId(String),
    RefundId(String),
}

/// The kind of event a webhook reports.
#[derive(Debug, Clone, Copy, PartialEq, Eq, Structural)]
pub enum IncomingWebhookEvent {
    PaymentIntentSuccess,
    PaymentIntentFailure,
    PaymentIntentProcessing,
    RefundSuccess,
    RefundFailure,
    EventNotSupported,
}

/// The classes of events a connector can send webhooks for.
#[derive(Debug, Clone, Copy, PartialEq, Eq, Structural)]
pub enum EventClass {
    Payments,
    Refunds,
    Disputes,
    Mandates,
    Payouts,
}

} // verus!
