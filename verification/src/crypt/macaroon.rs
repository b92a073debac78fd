//! The token engine: macaroon-style tokens carrying a single first-party
//! caveat that binds the token to a Lightning payment hash. Minting and
//! signature verification call the macaroon crate through trusted wrappers;
//! everything about the caveat text itself is verified.
//!
//! Tokens bind the payment hash alone: an expiry caveat is deliberately not
//! minted here, so a token's validity window is whatever the issuer's
//! configuration advertises, not something the engine enforces.
use vstd::prelude::*;
use vstd::string::StrSliceExecFns;
use vstd::string::StringExecFns;

use crate::crypt::{Error, Result};
use crate::utils::{hex_encode_lower, lemma_hex_lower_injective, lemma_hex_lower_len, spec_hex_lower};

verus! {

/// The longest caveat text the engine mints or verifies. The token wire
/// format caps each field at 65,535 bytes on reading, and a character takes
/// at most four bytes, so caveats up to this many characters round-trip.
pub const MAX_CAVEAT_CHARS: usize = 16380;

/// The longest payment hash a caveat can carry within `MAX_CAVEAT_CHARS`:
/// the caveat text is a fixed 15-character prefix plus two characters per
/// hash byte.
pub const MAX_PAYMENT_HASH_BYTES: usize = 8182;

/// The serialized token minted under `key` with the single first-party
/// caveat `caveat` (fixed location and identifier).
pub uninterp spec fn mac_mint(key: Seq<u8>, caveat: Seq<char>) -> Seq<char>;

/// Whether a token text parses as a macaroon at all.
pub uninterp spec fn mac_decodes(token: Seq<char>) -> bool;

/// Relies on macaroon::Macaroon::{create, add_first_party_caveat, serialize}:
/// with a fixed location and identifier the minted token is a function of the
/// key and the caveat alone, and what serialize emits deserializes back.
/// Reading back holds only within the wire format's field-size cap, which
/// the bound on the caveat keeps us under.
#[verifier::external_body]
fn mac_mint_token(key: &[u8], caveat: &str) -> (r: String)
    requires
        caveat@.len() <= MAX_CAVEAT_CHARS,
    ensures
        r@ == mac_mint(key@, caveat@),
        mac_decodes(r@),
{
    let mkey = macaroon::MacaroonKey::generate(key);
    let mut m = macaroon::Macaroon::create(Some("location".into()), &mkey, "id".into())
        .expect("token signing failed");
    m.add_first_party_caveat(caveat.into());
    m.serialize(macaroon::Format::V2).expect("token serialization failed")
}

/// Relies on macaroon::Verifier::verify with one exact satisfier: a token
/// minted under `key` with a single first-party caveat verifies exactly when
/// the satisfier equals that caveat. The claim is made only for caveats
/// within the wire format's field-size cap: a longer caveat yields a token
/// the format cannot read back, which this call rejects.
#[verifier::external_body]
fn mac_verify_token(token: &str, key: &[u8], satisfier: &str) -> (r: bool)
    ensures
        forall|c: Seq<char>|
            c.len() <= MAX_CAVEAT_CHARS && token@ == mac_mint(key@, c) ==> (r <==> satisfier@
                == c),
{
    let mkey = macaroon::MacaroonKey::generate(key);
    let m = match macaroon::Macaroon::deserialize(token) {
        Ok(m) => m,
        Err(_) => return false,
    };
    let mut verifier = macaroon::Verifier::default();
    verifier.satisfy_exact(satisfier.into());
    verifier.verify(&m, &mkey, Default::default()).is_ok()
}

/// Relies on macaroon::Macaroon::deserialize: whether the token text parses,
/// a function of the text alone.
#[verifier::external_body]
fn mac_decode_ok(token: &str) -> (r: bool)
    ensures
        r == mac_decodes(token@),
{
    macaroon::Macaroon::deserialize(token).is_ok()
}

/// The caveat text binding a token to a payment hash, with the hash in
/// lower-case hex.
pub open spec fn spec_payment_caveat(hash: Seq<u8>) -> Seq<char> {
    "payment_hash = "@ + spec_hex_lower(hash)
}

fn payment_caveat(hash: &[u8]) -> (r: String)
    ensures
        r@ == spec_payment_caveat(hash@),
{
    let mut s = "payment_hash = ".to_owned();
    let hex = hex_encode_lower(hash);
    s.append(hex.as_str());
    s
}

proof fn lemma_payment_caveat_len(hash: Seq<u8>)
    ensures
        spec_payment_caveat(hash).len() == 15 + 2 * hash.len(),
{
    reveal_strlit("payment_hash = ");
    lemma_hex_lower_len(hash);
}

/// Distinct payment hashes give distinct caveats, so a token minted for one
/// payment hash can never satisfy the caveat of another.
pub proof fn lemma_payment_caveat_injective(h1: Seq<u8>, h2: Seq<u8>)
    ensures
        (spec_payment_caveat(h1) == spec_payment_caveat(h2)) <==> (h1 == h2),
{
    if spec_payment_caveat(h1) == spec_payment_caveat(h2) {
        let p = "payment_hash = "@;
        assert(spec_hex_lower(h1) =~= (p + spec_hex_lower(h1)).skip(p.len() as int));
        assert(spec_hex_lower(h2) =~= (p + spec_hex_lower(h2)).skip(p.len() as int));
        lemma_hex_lower_injective(h1, h2);
    }
}

/// Mints a token bound to `payment_hash` under the process key. The hash
/// must fit in a caveat the token format can read back; every real payment
/// hash is 32 bytes.
pub fn generate_macaroon(payment_hash: &[u8], key: &[u8]) -> (r: String)
    requires
        payment_hash@.len() <= MAX_PAYMENT_HASH_BYTES,
    ensures
        r@ == mac_mint(key@, spec_payment_caveat(payment_hash@)),
        mac_decodes(r@),
{
    proof {
        lemma_payment_caveat_len(payment_hash@);
    }
    let caveat = payment_caveat(payment_hash);
    mac_mint_token(key, caveat.as_str())
}

/// Checks whether a token text parses as a token at all.
pub fn token_decodes(token: &str) -> (r: bool)
    ensures
        r == mac_decodes(token@),
{
    mac_decode_ok(token)
}

/// Verifies a token against the hash of a presented preimage: for a token
/// minted under the same key for a payment hash `h` the format can carry,
/// the check passes exactly when `h` is the presented hash; any failure is
/// the typed caveat failure.
pub fn validate_macaroon(token: &str, preimage_hash: &[u8], key: &[u8]) -> (r: Result<bool>)
    requires
        preimage_hash@.len() <= MAX_PAYMENT_HASH_BYTES,
    ensures
        r is Ok ==> r->Ok_0 == true,
        r is Err ==> r->Err_0 is MacaroonCaveatFail,
        forall|h: Seq<u8>|
            h.len() <= MAX_PAYMENT_HASH_BYTES && token@ == mac_mint(key@, spec_payment_caveat(h))
                ==> ((r is Ok) <==> h == preimage_hash@),
{
    let satisfier = payment_caveat(preimage_hash);
    let ok = mac_verify_token(token, key, satisfier.as_str());
    proof {
        assert forall|h: Seq<u8>|
            h.len() <= MAX_PAYMENT_HASH_BYTES && token@ == mac_mint(
                key@,
                spec_payment_caveat(h),
            ) implies (ok <==> h == preimage_hash@) by {
            lemma_payment_caveat_len(h);
            lemma_payment_caveat_injective(h, preimage_hash@);
        }
    }
    if ok {
        Ok(true)
    } else {
        Err(Error::MacaroonCaveatFail)
    }
}

} // verus!
