//! Connectors of the payment router.

pub mod demopay;
