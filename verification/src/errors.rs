//! Errors a connector reports to the router.

use vstd::prelude::*;

verus! {

/// A connector-level failure.
#[derive(Debug, PartialEq, Eq)]
pub enum ConnectorError {
    /// The merchant's credentials are not of the kind the connector needs.
    FailedToObtainAuthType,
    /// The connector's reply could not be read as the expected body.
    ResponseDeserializationFailed,
    /// A field the request needs is absent.
    MissingRequiredField { field_name: &'static str },
    /// The router data holds no connector transaction id.
    MissingConnectorTransactionID,
    /// The router data holds no connector refund id.
    MissingConnectorRefundID,
    /// The requested operation or payment method is not supported.
    NotImplemented(String),
    /// The request could not be encoded.
    RequestEncodingFailed,
    /// The payment's capture method is not supported.
    CaptureMethodNotSupported,
    /// The connector does not read incoming webhooks.
    WebhooksNotImplemented,
}

} // verus!
