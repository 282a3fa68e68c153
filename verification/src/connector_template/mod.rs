//! The DemoPay wallet connector.

pub mod demopay;
