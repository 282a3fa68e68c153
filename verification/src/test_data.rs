//! Payments used to exercise the DemoPay wallet connector end to end.

use vstd::prelude::*;

use crate::amount::MinorUnit;
use crate::enums::AuthenticationType;
use crate::router_data::{PaymentAddress, PaymentMethodData, PaymentsAuthorizeData, Wallet};

verus! {

/// What the router is told about a payment besides its request data.
#[derive(Debug, PartialEq, Eq)]
pub struct PaymentInfo {
    pub address: Option<PaymentAddress>,
    pub auth_type: AuthenticationType,
    pub access_token: Option<String>,
    pub connector_meta_data: Option<String>,
    pub return_url: Option<String>,
    pub payment_method_token: Option<String>,
    pub connector_customer: Option<String>,
}

/// A payment with an empty address, without 3-D Secure, and nothing else.
pub fn get_default_payment_info() -> (r: Option<PaymentInfo>)
    ensures
        r matches Some(info) && {
            &&& info.address matches Some(a) && a.shipping is None && a.billing is None
                && a.payment_method_billing is None
            &&& info.auth_type == AuthenticationType::NoThreeDs
            &&& info.access_token is None
            &&& info.connector_meta_data is None
            &&& info.return_url is None
            &&& info.payment_method_token is None
            &&& info.connector_customer is None
        },
{
    Some(
        PaymentInfo {
            address: Some(PaymentAddress::default()),
            auth_type: AuthenticationType::NoThreeDs,
            access_token: None,
            connector_meta_data: None,
            return_url: None,
            payment_method_token: None,
            connector_customer: None,
        },
    )
}

/// Whether `c` is a lowercase hexadecimal digit.
pub open spec fn is_lower_hex(c: char) -> bool {
    ('0' <= c <= '9') || ('a' <= c <= 'f')
}

/// Whether `s` is a random UUID in hyphenated lowercase form:
/// `xxxxxxxx-xxxx-4xxx-Vxxx-xxxxxxxxxxxx`, with V one of `8`, `9`, `a`, `b`.
pub open spec fn is_v4_uuid_text(s: Seq<char>) -> bool {
    &&& s.len() == 36
    &&& s[8] == '-' && s[13] == '-' && s[18] == '-' && s[23] == '-'
    &&& s[14] == '4'
    &&& s[19] == '8' || s[19] == '9' || s[19] == 'a' || s[19] == 'b'
    &&& forall|i: int|
        0 <= i < 36 && i != 8 && i != 13 && i != 18 && i != 23 ==> is_lower_hex(#[trigger] s[i])
}

/// `uuid::Uuid::new_v4().to_string()`: a fresh random UUID, which the uuid
/// crate writes in hyphenated lowercase form with the version and variant
/// bits set. Which UUID comes out is left open: it is random.
#[verifier::external_body]
fn new_wallet_id() -> (s: String)
    ensures
        is_v4_uuid_text(s@),
{
    uuid::Uuid::new_v4().to_string()
}

/// An authorization of 1.00 USD (100 minor units) paid from a wallet whose
/// token is a fresh random UUID, confirmed at once, with nothing else given.
pub fn payment_method_details() -> (r: Option<PaymentsAuthorizeData>)
    ensures
        r matches Some(data) && {
            &&& data.payment_method_data matches PaymentMethodData::Wallet(w) && w.token matches Some(
                t,
            ) && is_v4_uuid_text(t@)
            &&& data.minor_amount.value == 100
            &&& data.currency@ == "USD"@
            &&& data.confirm
            &&& data.capture_method is None
            &&& data.email is None
            &&& data.metadata is None
        },
{
    let wallet_id = new_wallet_id();
    Some(
        PaymentsAuthorizeData {
            payment_method_data: PaymentMethodData::Wallet(Wallet { token: Some(wallet_id) }),
            minor_amount: MinorUnit::new(100),
            currency: String::from_str("USD"),
            confirm: true,
            capture_method: None,
            email: None,
            metadata: None,
        },
    )
}

} // verus!
