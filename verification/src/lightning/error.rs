//! Typed failures of the Lightning components.
use vstd::prelude::*;

use crate::crypt;

verus! {

pub type Result<T> = core::result::Result<T, Error>;

#[derive(Debug)]
pub enum Error {
    L402CaveatFail,
    L402AuthHeaderInvalidFail,
    LightningAddressFail,
    Crypt(crypt::Error),
}

impl Error {
    /// The status a failed attempt is answered with: a verification or
    /// redemption failure draws a fresh 402 challenge, while a failure to
    /// resolve the payment address is the gateway's own fault.
    pub fn status_code(&self) -> (r: u16)
        ensures
            r == match self {
                Error::LightningAddressFail => 500u16,
                _ => 402u16,
            },
    {
        match self {
            Error::LightningAddressFail => 500,
            _ => 402,
        }
    }
}

impl From<crypt::Error> for Error {
    fn from(val: crypt::Error) -> (r: Self) {
        Error::Crypt(val)
    }
}

impl vstd::std_specs::convert::FromSpecImpl<crypt::Error> for Error {
    open spec fn obeys_from_spec() -> bool {
        true
    }

    open spec fn from_spec(val: crypt::Error) -> Self {
        Error::Crypt(val)
    }
}

} // verus!
