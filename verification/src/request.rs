//! Outgoing HTTP requests as a connector describes them.

use vstd::prelude::*;

use crate::enums::Method;

verus! {

/// Name of the header that carries the body's media type.
pub const CONTENT_TYPE: &'static str = "Content-Type";

/// Name of the header that carries the credentials.
pub const AUTHORIZATION: &'static str = "Authorization";

/// One request header; a masked value is kept out of logs.
#[derive(Debug, PartialEq, Eq)]
pub struct Header {
    pub name: String,
    pub value: String,
    pub masked: bool,
}

/// An outgoing request: method, URL, headers in the order the connector
/// gives them, whether the router's default headers are to be attached, and
/// the body that is sent as JSON.
#[derive(Debug, PartialEq, Eq)]
pub struct Request<B> {
    pub method: Method,
    pub url: String,
    pub default_headers: bool,
    pub headers: Vec<Header>,
    pub body: Option<B>,
}

/// Where a connector's API lives.
#[derive(Debug, PartialEq, Eq)]
pub struct ConnectorParams {
    pub base_url: String,
}

/// The router's configuration of the connectors it talks to.
#[derive(Debug, PartialEq, Eq)]
pub struct Connectors {
    pub demopay: ConnectorParams,
}

/// The string `a` followed by `b`.
pub fn concat_str(a: &str, b: &str) -> (r: String)
    ensures
        r@ == a@ + b@,
{
    let mut s = String::from_str(a);
    s.append(b);
    s
}

/// A header whose value is logged as is.
pub fn plain_header(name: &str, value: &str) -> (h: Header)
    ensures
        h.name@ == name@,
        h.value@ == value@,
        !h.masked,
{
    Header { name: String::from_str(name), value: String::from_str(value), masked: false }
}

/// A header whose value is kept out of logs.
pub fn masked_header(name: &str, value: String) -> (h: Header)
    ensures
        h.name@ == name@,
        h.value == value,
        h.masked,
{
    Header { name: String::from_str(name), value, masked: true }
}

} // verus!
