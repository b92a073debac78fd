//! Lightning-address resolution: a `user@domain` address is split, the
//! well-known discovery URL is formed, and the discovery response decides
//! whether the callback endpoint is accepted. The two HTTP round trips
//! themselves happen outside the library; every decision about their
//! content is made here.
use vstd::prelude::*;
use vstd::string::StrSliceExecFns;
use vstd::string::StringExecFns;

use crate::lightning::error::{Error, Result};
use crate::utils::{append_dec, spec_after_first, spec_dec, spec_take_until, split_at_first, str_eq, take_until};

verus! {

/// Splits a `user@domain` address. The user part is everything before the
/// first `@`, the domain everything between the first and a possible second
/// `@`; an address without `@` is a misconfiguration.
pub fn parse_lnaddress(lnaddress: &str) -> (r: Result<(String, String)>)
    ensures
        match r {
            Ok(p) => {
                &&& spec_after_first(lnaddress@, '@') matches Some(rest) && p.1@ == spec_take_until(
                    rest,
                    '@',
                )
                &&& p.0@ == spec_take_until(lnaddress@, '@')
            },
            Err(e) => e is LightningAddressFail && spec_after_first(lnaddress@, '@') is None,
        },
{
    match split_at_first(lnaddress, '@') {
        Some((user, rest)) => {
            let domain = take_until(rest.as_str(), '@');
            Ok((user, domain))
        },
        None => Err(Error::LightningAddressFail),
    }
}

/// A resolved Lightning address; the callback is empty until discovery has
/// reported success.
pub struct LightningAddress {
    pub username: String,
    pub domain: String,
    pub callback: String,
}

impl LightningAddress {
    /// Builds the address from its textual form; discovery has not run yet,
    /// so the callback starts empty.
    pub fn new(lnaddress: &str) -> (r: Result<Self>)
        ensures
            match r {
                Ok(a) => {
                    &&& spec_after_first(lnaddress@, '@') matches Some(rest) && a.domain@
                        == spec_take_until(rest, '@')
                    &&& a.username@ == spec_take_until(lnaddress@, '@')
                    &&& a.callback@ == Seq::<char>::empty()
                },
                Err(e) => e is LightningAddressFail && spec_after_first(lnaddress@, '@') is None,
            },
    {
        let (username, domain) = match parse_lnaddress(lnaddress) {
            Ok(p) => p,
            Err(e) => {
                return Err(e);
            },
        };
        Ok(LightningAddress { username, domain, callback: String::new() })
    }

    /// The discovery URL under the domain's well-known path.
    pub fn well_known_url(&self) -> (r: String)
        ensures
            r@ == "https://"@ + self.domain@ + "/.well-known/lnurlp/"@ + self.username@,
    {
        let mut s = "https://".to_owned();
        s.append(self.domain.as_str());
        s.append("/.well-known/lnurlp/");
        s.append(self.username.as_str());
        proof {
            assert(s@ =~= "https://"@ + self.domain@ + "/.well-known/lnurlp/"@ + self.username@);
        }
        s
    }

    /// Accepts the discovery response only when its status field reports
    /// success, and then records the callback endpoint; anything else leaves
    /// the address unusable.
    pub fn validate_and_set_callback(&mut self, status: &str, callback: String) -> (r: Result<()>)
        ensures
            match r {
                Ok(()) => {
                    &&& status@ == "OK"@
                    &&& final(self).callback == callback
                    &&& final(self).username == old(self).username
                    &&& final(self).domain == old(self).domain
                },
                Err(e) => {
                    &&& e is LightningAddressFail
                    &&& status@ != "OK"@
                    &&& *final(self) == *old(self)
                },
            },
    {
        if str_eq(status, "OK") {
            self.callback = callback;
            Ok(())
        } else {
            Err(Error::LightningAddressFail)
        }
    }

    /// The invoice request URL: the recorded callback with the amount, in
    /// the smallest payable unit, as its query parameter.
    pub fn invoice_request_url(&self, amount_msat: u64) -> (r: String)
        ensures
            r@ == self.callback@ + "?amount="@ + spec_dec(amount_msat as nat),
    {
        let mut s = self.callback.clone();
        s.append("?amount=");
        append_dec(&mut s, amount_msat);
        proof {
            assert(s@ =~= self.callback@ + "?amount="@ + spec_dec(amount_msat as nat));
        }
        s
    }
}

} // verus!
