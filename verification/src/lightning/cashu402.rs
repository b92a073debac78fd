//! The ecash half of the 402 challenge: the mint and price a client may pay
//! at instead of settling the invoice.
use vstd::prelude::*;
use vstd::string::StrSliceExecFns;
use vstd::string::StringExecFns;

use crate::lightning::error::Result;
use crate::utils::{append_dec, spec_dec};

verus! {

pub struct Cashu402Builder {
    pub amount: Option<u64>,
    pub timeout: Option<u64>,
}

impl Cashu402Builder {
    pub fn new() -> (r: Self)
        ensures
            r.amount is None,
            r.timeout is None,
    {
        Self { amount: None, timeout: None }
    }

    pub fn amount(self, amount: u64) -> (r: Self)
        ensures
            r.amount == Some(amount),
            r.timeout == self.timeout,
    {
        Self { amount: Some(amount), ..self }
    }

    /// Builds the ecash challenge for the configured mint; an unset amount
    /// falls back to the default price.
    pub fn build(self, mint_url: String) -> (r: Result<Cashu402>)
        ensures
            r matches Ok(c) && c.mint_url == mint_url && c.amount == (if self.amount is Some {
                self.amount->Some_0
            } else {
                3u64
            }),
    {
        let amount = match self.amount {
            Some(a) => a,
            None => 3,
        };
        Ok(Cashu402 { mint_url, amount })
    }
}

/// The ecash challenge: which mint the gateway redeems at, and the price.
#[derive(Debug)]
pub struct Cashu402 {
    pub mint_url: String,
    pub amount: u64,
}

impl Cashu402 {
    /// The challenge form carried in the `X-Cashu` response header.
    pub fn to_authenticate_string(&self) -> (r: String)
        ensures
            r@ == "Cashu402 mint_url=\""@ + self.mint_url@ + "\", amount=\""@ + spec_dec(
                self.amount as nat,
            ) + "\""@,
    {
        let mut s = "Cashu402 mint_url=\"".to_owned();
        s.append(self.mint_url.as_str());
        s.append("\", amount=\"");
        append_dec(&mut s, self.amount);
        s.append("\"");
        proof {
            assert(s@ =~= "Cashu402 mint_url=\""@ + self.mint_url@ + "\", amount=\""@ + spec_dec(
                self.amount as nat,
            ) + "\""@);
        }
        s
    }
}

} // verus!
