//! The upstream provider surface the gateway fronts: each provider's
//! endpoint table and the request and response shapes that cross it. The
//! HTTP clients that carry them live outside the library.
pub mod clipdrop;
pub mod makersuite;
pub mod openai;
