//! A verified model of the DemoPay payment connector: request building,
//! response transformation and status mapping for the DemoPay wallet API.

pub mod amount;
pub mod enums;
pub mod errors;
pub mod router_data;
pub mod request;
pub mod webhooks;
pub mod connector_template;
pub mod connectors;
pub mod test_data;
pub mod laws;
