//! The Lightning-facing half of the library: bearer credentials bound to
//! invoices, the ecash challenge, and Lightning-address resolution.
pub mod cashu402;
pub mod error;
pub mod l402;
pub mod lightning_address;
