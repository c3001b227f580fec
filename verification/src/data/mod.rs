//! PayPal data object definitions, grouped by the API they serve.

pub mod common;
pub mod orders;
pub mod payment;
