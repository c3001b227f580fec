//! Endpoint descriptors, grouped by the API they call.

pub mod invoice;
pub mod orders;
pub mod payments;
