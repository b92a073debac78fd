//! A payment-gated reverse-proxy library: caveat-restricted bearer tokens
//! bound to Lightning payment hashes, ecash redemption decisions, the
//! HTTP 402 challenge state machine, and per-backend credential injection.
pub mod config;
pub mod crypt;
pub mod error;
pub mod lightning;
pub mod model;
pub mod services;
pub mod utils;
pub mod web;
