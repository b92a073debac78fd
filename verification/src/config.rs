//! Configuration: the process-wide values every component is handed at
//! startup, and the per-backend API table. Reading the environment happens
//! outside the library; the shapes and the table logic live here.
pub mod apis;
pub mod replit;

use vstd::prelude::*;

verus! {

/// The process configuration, built once at startup and passed by reference
/// into every component.
#[allow(non_snake_case)]
pub struct Config {
    pub PWD_KEY: Vec<u8>,
    pub TOKEN_KEY: Vec<u8>,
    pub TOKEN_DURATION_SEC: u64,
    pub MACAROON_KEY: Vec<u8>,
    pub DB_URL: String,
    pub WEB_FOLDER: String,
    pub LIGHTNING_ADDRESS: String,
    pub CASHU_MINT_URL: String,
}

/// A single backend's routing entry.
pub struct ApiConfig {
    pub key: Option<String>,
    pub host: &'static str,
    pub path: &'static str,
}

} // verus!
