//! Typed failures of the request-facing layer.
use vstd::prelude::*;

use crate::lightning;

verus! {

pub type Result<T> = core::result::Result<T, Error>;

#[derive(Debug)]
pub enum Error {
    InvalidHeaderValue(String),
    InvalidRoute(String),
    Lightning(lightning::error::Error),
}

impl Error {
    /// The status a failure is answered with: a malformed header value or an
    /// unknown backend is the client's error; a Lightning failure keeps its
    /// own classification.
    pub fn status_code(&self) -> (r: u16)
        ensures
            r == match self {
                Error::InvalidHeaderValue(_) => 400u16,
                Error::InvalidRoute(_) => 400u16,
                Error::Lightning(le) => match le {
                    lightning::error::Error::LightningAddressFail => 500u16,
                    _ => 402u16,
                },
            },
    {
        match self {
            Error::InvalidHeaderValue(_) => 400,
            Error::InvalidRoute(_) => 400,
            Error::Lightning(le) => le.status_code(),
        }
    }
}

impl From<lightning::error::Error> for Error {
    fn from(val: lightning::error::Error) -> (r: Self) {
        Error::Lightning(val)
    }
}

impl vstd::std_specs::convert::FromSpecImpl<lightning::error::Error> for Error {
    open spec fn obeys_from_spec() -> bool {
        true
    }

    open spec fn from_spec(val: lightning::error::Error) -> Self {
        Error::Lightning(val)
    }
}

} // verus!
