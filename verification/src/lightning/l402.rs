//! The bearer credential of the 402 flow: a token minted for an invoice's
//! payment hash, presented back by the client together with the payment
//! preimage in an `Authorization` header.
use vstd::prelude::*;
use vstd::string::StrSliceExecFns;
use vstd::string::StringExecFns;

use crate::crypt::macaroon::{
    generate_macaroon, mac_decodes, mac_mint, spec_payment_caveat, token_decodes,
    validate_macaroon, MAX_PAYMENT_HASH_BYTES,
};
use crate::crypt::sha256;
use crate::crypt::sha256_of;
use crate::lightning::error::{Error, Result};
use crate::utils::{hex_decode, spec_hex_decode, spec_split_two, split_once_exact};

verus! {

/// How an `Authorization` header is read: a scheme and a payload separated by
/// one space, the scheme `L402`, the payload a token and a preimage separated
/// by one colon.
pub open spec fn spec_l402_parts(header: Seq<char>) -> Option<(Seq<char>, Seq<char>)> {
    match spec_split_two(header, ' ') {
        Some(p) => if p.0 == "L402"@ {
            spec_split_two(p.1, ':')
        } else {
            None
        },
        None => None,
    }
}

/// A bearer credential: the serialized token, the invoice it was issued with
/// (present only on issuance), and the preimage presented by a client
/// (present only on a client-presented credential).
#[derive(Debug)]
pub struct L402 {
    pub token: String,
    pub invoice: Option<String>,
    pub preimage: Option<String>,
}

impl L402 {
    /// A credential is either freshly issued, carrying its invoice and no
    /// preimage, or client-presented, carrying a preimage and no invoice;
    /// never both and never neither.
    pub open spec fn well_formed(&self) -> bool {
        ||| self.invoice is Some && self.preimage is None
        ||| self.invoice is None && self.preimage is Some
    }
}

pub struct L402Builder {
    pub amount: Option<u64>,
    pub timeout: Option<u64>,
}

impl L402Builder {
    pub fn new() -> (r: Self)
        ensures
            r.amount is None,
            r.timeout is None,
    {
        Self { amount: None, timeout: None }
    }

    pub fn amount(self, amount: u64) -> (r: Self)
        ensures
            r.amount == Some(amount),
            r.timeout == self.timeout,
    {
        Self { amount: Some(amount), ..self }
    }

    pub fn timeout(self, timeout: u64) -> (r: Self)
        ensures
            r.timeout == Some(timeout),
            r.amount == self.amount,
    {
        Self { timeout: Some(timeout), ..self }
    }

    /// The amount to request the challenge invoice for.
    pub fn invoice_amount(&self) -> (r: u64)
        ensures
            r == if self.amount is Some {
                self.amount->Some_0
            } else {
                1000u64
            },
    {
        match self.amount {
            Some(a) => a,
            None => 1000,
        }
    }

    /// The validity window for the issued token.
    pub fn timeout_sec(&self) -> (r: u64)
        ensures
            r == if self.timeout is Some {
                self.timeout->Some_0
            } else {
                86400u64
            },
    {
        match self.timeout {
            Some(t) => t,
            None => 86400,
        }
    }

    /// Builds a freshly issued credential from the invoice obtained for the
    /// challenge: the token is minted for the invoice's own payment hash,
    /// never for one supplied from outside.
    pub fn build(self, pr: &str, key: &[u8]) -> (r: Result<L402>)
        ensures
            match r {
                Ok(l) => {
                    &&& bolt11_payment_hash(pr@) matches Some(h) && l.token@ == mac_mint(
                        key@,
                        spec_payment_caveat(h),
                    )
                    &&& mac_decodes(l.token@)
                    &&& l.invoice matches Some(i) && i@ == pr@
                    &&& l.preimage is None
                    &&& l.well_formed()
                },
                Err(e) => e is LightningAddressFail && bolt11_payment_hash(pr@) is None,
            },
    {
        match invoice_payment_hash(pr) {
            Some(h) => {
                let token = generate_macaroon(h.as_slice(), key);
                Ok(L402 { token, invoice: Some(pr.to_owned()), preimage: None })
            },
            None => Err(Error::LightningAddressFail),
        }
    }
}

/// What parsing a BOLT11 invoice yields for its payment hash, if the text
/// parses at all: a function of the text alone.
pub uninterp spec fn bolt11_payment_hash(pr: Seq<char>) -> Option<Seq<u8>>;

/// Relies on lightning_invoice::Bolt11Invoice::from_str and payment_hash:
/// parsing is deterministic, and a parsed invoice carries a 32-byte payment
/// hash read from the invoice itself.
#[verifier::external_body]
fn invoice_payment_hash(pr: &str) -> (r: Option<Vec<u8>>)
    ensures
        match r {
            Some(h) => bolt11_payment_hash(pr@) == Some(h@) && h@.len() == 32,
            None => bolt11_payment_hash(pr@) is None,
        },
{
    match <lightning_invoice::Bolt11Invoice as core::str::FromStr>::from_str(pr) {
        Ok(inv) => {
            let bytes: &[u8] = inv.payment_hash().as_ref();
            Some(bytes.to_vec())
        },
        Err(_) => None,
    }
}

/// The hash a presented preimage commits to: the preimage is read as hex and
/// hashed with SHA-256.
fn get_preimage_hash(preimage: &str) -> (r: Option<Vec<u8>>)
    ensures
        match r {
            Some(h) => spec_hex_decode(preimage@) matches Some(p) && h@ == sha256_of(p)
                && h@.len() == 32,
            None => spec_hex_decode(preimage@) is None,
        },
{
    match hex_decode(preimage) {
        Some(bytes) => Some(sha256(bytes.as_slice())),
        None => None,
    }
}

impl L402 {
    /// Reconstructs a credential from a client's `Authorization` header. A
    /// header without the `L402` scheme, without exactly one space and one
    /// colon, or whose token part does not parse, is rejected as an invalid
    /// header without touching the token engine.
    pub fn from_auth_header(header: &str) -> (r: Result<L402>)
        ensures
            match r {
                Ok(l) => {
                    &&& spec_l402_parts(header@) matches Some(p)
                    &&& l.token@ == p.0
                    &&& mac_decodes(p.0)
                    &&& l.preimage matches Some(pre) && pre@ == p.1
                    &&& l.invoice is None
                    &&& l.well_formed()
                },
                Err(e) => {
                    &&& e is L402AuthHeaderInvalidFail
                    &&& match spec_l402_parts(header@) {
                        Some(p) => !mac_decodes(p.0),
                        None => true,
                    }
                },
            },
    {
        let (scheme, rest) = match split_once_exact(header, ' ') {
            Some(p) => p,
            None => {
                return Err(Error::L402AuthHeaderInvalidFail);
            },
        };
        if !crate::utils::str_eq(scheme.as_str(), "L402") {
            return Err(Error::L402AuthHeaderInvalidFail);
        }
        let (token, preimage) = match split_once_exact(rest.as_str(), ':') {
            Some(p) => p,
            None => {
                return Err(Error::L402AuthHeaderInvalidFail);
            },
        };
        if !token_decodes(token.as_str()) {
            return Err(Error::L402AuthHeaderInvalidFail);
        }
        Ok(L402 { token, invoice: None, preimage: Some(preimage) })
    }

    /// Verifies a client-presented credential: for a token minted for payment
    /// hash `h`, the answer is affirmative exactly when the presented
    /// preimage is hex whose SHA-256 digest is `h`. A preimage that is not
    /// hex is an invalid header; a failed caveat is a caveat failure.
    pub fn is_valid(&self, key: &[u8]) -> (r: Result<bool>)
        requires
            self.preimage is Some,
        ensures
            match r {
                Ok(b) => {
                    &&& b == true
                    &&& spec_hex_decode(self.preimage->Some_0@) matches Some(p)
                    &&& forall|h: Seq<u8>|
                        h.len() <= MAX_PAYMENT_HASH_BYTES && self.token@ == mac_mint(
                            key@,
                            spec_payment_caveat(h),
                        ) ==> h == sha256_of(spec_hex_decode(self.preimage->Some_0@)->Some_0)
                },
                Err(e) => match e {
                    Error::L402AuthHeaderInvalidFail => spec_hex_decode(
                        self.preimage->Some_0@,
                    ) is None,
                    Error::Crypt(ce) => {
                        &&& ce is MacaroonCaveatFail
                        &&& spec_hex_decode(self.preimage->Some_0@) matches Some(p)
                        &&& forall|h: Seq<u8>|
                            h.len() <= MAX_PAYMENT_HASH_BYTES && self.token@ == mac_mint(
                                key@,
                                spec_payment_caveat(h),
                            ) ==> h != sha256_of(p)
                    },
                    _ => false,
                },
            },
    {
        let preimage = match &self.preimage {
            Some(p) => p,
            None => {
                proof {
                    assert(false);
                }
                return Err(Error::L402AuthHeaderInvalidFail);
            },
        };
        let preimage_hash = match get_preimage_hash(preimage.as_str()) {
            Some(h) => h,
            None => {
                return Err(Error::L402AuthHeaderInvalidFail);
            },
        };
        match validate_macaroon(self.token.as_str(), preimage_hash.as_slice(), key) {
            Ok(b) => Ok(b),
            Err(e) => Err(Error::Crypt(e)),
        }
    }

    /// The challenge form of a freshly issued credential, carried in the
    /// `WWW-Authenticate` response header.
    pub fn to_authenticate_string(&self) -> (r: String)
        requires
            self.invoice is Some,
        ensures
            r@ == "L402 token=\""@ + self.token@ + "\", invoice=\""@ + self.invoice->Some_0@
                + "\""@,
    {
        let mut s = "L402 token=\"".to_owned();
        s.append(self.token.as_str());
        s.append("\", invoice=\"");
        match &self.invoice {
            Some(inv) => s.append(inv.as_str()),
            None => {
                proof {
                    assert(false);
                }
            },
        }
        s.append("\"");
        proof {
            assert(s@ =~= "L402 token=\""@ + self.token@ + "\", invoice=\""@
                + self.invoice->Some_0@ + "\""@);
        }
        s
    }
}

} // verus!
