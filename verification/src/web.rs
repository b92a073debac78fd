//! The request-facing layer: the 402 authorization gate and the per-backend
//! credential injection, as decision logic over header values. The HTTP
//! transport around them lives outside the library.
pub mod error;
pub mod mw_add_api_auth;
pub mod mw_l402;
