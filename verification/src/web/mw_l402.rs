//! The authorization gate: a request must present either an ecash token the
//! gateway can redeem or a bearer credential with the payment preimage; any
//! other request is answered with a 402 challenge carrying both payment
//! paths. This module only decides; the caller performs the melt call and the
//! challenge invoice fetch, and hands their outcomes back.
use vstd::prelude::*;

use crate::crypt::macaroon::{mac_decodes, mac_mint, spec_payment_caveat, MAX_PAYMENT_HASH_BYTES};
use crate::crypt::sha256_of;
use crate::lightning::cashu402::Cashu402;
use crate::lightning::l402::{spec_l402_parts, L402};
use crate::utils::{spec_hex_decode, str_eq};

verus! {

pub const WWW_AUTHENTICATE: &'static str = "www-authenticate";

pub const X_CASHU: &'static str = "x-cashu";

/// The states of one pass of the state machine.
#[derive(Debug)]
pub enum GateState {
    NoCredential,
    EcashPresented,
    BearerPresented,
    Admitted,
    Denied,
}

/// What decoding an `X-Cashu` header yields, if it decodes: the first
/// entry's mint URL and the amount of every proof carried.
pub uninterp spec fn cashu_decoded(header: Seq<char>) -> Option<(Seq<char>, Seq<u64>)>;

/// Relies on moksha_core's TokenV3::deserialize (and its mint and proofs
/// accessors): decoding depends on the header text alone; the wrapper hands
/// back the first entry's mint URL and each proof's amount.
#[verifier::external_body]
fn cashu_decode_header(header: &str) -> (r: Option<(String, Vec<u64>)>)
    ensures
        match r {
            Some(p) => cashu_decoded(header@) == Some((p.0@, p.1@)),
            None => cashu_decoded(header@) is None,
        },
{
    let t = match moksha_core::model::TokenV3::deserialize(header.to_string()) {
        Ok(t) => t,
        Err(_) => return None,
    };
    let mint = match t.mint() {
        Some(m) => m,
        None => return None,
    };
    let amounts = t.proofs().proofs().iter().map(|p| p.amount).collect();
    Some((mint.to_string(), amounts))
}

/// The total value of a bundle of proofs.
pub open spec fn spec_total(amounts: Seq<u64>) -> nat
    decreases amounts.len(),
{
    if amounts.len() == 0 {
        0
    } else {
        (amounts.first() + spec_total(amounts.drop_first())) as nat
    }
}

/// Sums proof amounts; the total of realistic bundles fits far below the
/// 128-bit bound.
fn total_amount(amounts: &Vec<u64>) -> (r: u128)
    ensures
        r == spec_total(amounts@),
{
    let mut sum: u128 = 0;
    let len = amounts.len();
    assert(amounts@.take(0) =~= Seq::<u64>::empty());
    for i in 0..len
        invariant
            len == amounts@.len(),
            sum == spec_total(amounts@.take(i as int)),
            sum <= i * 0xffff_ffff_ffff_ffff,
    {
        proof {
            let prefix = amounts@.take(i + 1);
            assert(prefix.drop_last() =~= amounts@.take(i as int));
            lemma_total_last(prefix);
            assert(i * 0xffff_ffff_ffff_ffff + 0xffff_ffff_ffff_ffff == (i + 1)
                * 0xffff_ffff_ffff_ffff) by (nonlinear_arith);
            assert((i + 1) * 0xffff_ffff_ffff_ffff <= 0xffff_ffff_ffff_ffff_ffff_ffff_ffff_ffff)
                by (nonlinear_arith)
                requires
                    0 <= i + 1 <= 0xffff_ffff_ffff_ffff,
            ;
        }
        sum = sum + amounts[i] as u128;
        assert(sum <= (i + 1) * 0xffff_ffff_ffff_ffff);
    }
    proof {
        assert(amounts@.take(len as int) =~= amounts@);
    }
    sum
}

proof fn lemma_total_last(amounts: Seq<u64>)
    requires
        amounts.len() > 0,
    ensures
        spec_total(amounts) == spec_total(amounts.drop_last()) + amounts.last(),
    decreases amounts.len(),
{
    if amounts.len() == 1 {
        assert(amounts.drop_first() =~= Seq::<u64>::empty());
        assert(amounts.drop_last() =~= Seq::<u64>::empty());
    } else {
        lemma_total_last(amounts.drop_first());
        assert(amounts.drop_first().drop_last() =~= amounts.drop_last().drop_first());
        assert(amounts.drop_first().last() == amounts.last());
        assert(amounts.drop_last().first() == amounts.first());
    }
}

/// The outcome of inspecting an ecash credential before any network call.
#[derive(Debug)]
pub enum CashuCheck {
    RejectMalformed,
    RejectWrongMint,
    RejectAmountTooLow,
    RejectAmountOutOfRange,
    Melt { invoice_amount_msat: u64 },
}

/// Inspects an ecash header against the configured mint and price. A token
/// that does not decode, names another mint, or carries less than the price
/// is rejected here, with no network call; otherwise the gateway is to melt
/// the proofs against an invoice over the total minus the fee reserve.
pub fn check_cashu_header(header: &str, mint_url: &str, required_amount: u64, fee_reserve: u64) -> (r:
    CashuCheck)
    ensures
        match cashu_decoded(header@) {
            None => r is RejectMalformed,
            Some(p) => {
                &&& (p.0 != mint_url@ ==> r is RejectWrongMint)
                &&& (p.0 == mint_url@ && spec_total(p.1) < required_amount
                    ==> r is RejectAmountTooLow)
                &&& (p.0 == mint_url@ && spec_total(p.1) >= required_amount ==> if spec_total(p.1)
                    > fee_reserve && (spec_total(p.1) - fee_reserve) * 1000 <= 0xffff_ffff_ffff_ffff {
                    r matches CashuCheck::Melt { invoice_amount_msat } && invoice_amount_msat == (
                    spec_total(p.1) - fee_reserve) * 1000
                } else {
                    r is RejectAmountOutOfRange
                })
            },
        },
{
    let (mint, amounts) = match cashu_decode_header(header) {
        Some(p) => p,
        None => {
            return CashuCheck::RejectMalformed;
        },
    };
    if !str_eq(mint.as_str(), mint_url) {
        return CashuCheck::RejectWrongMint;
    }
    let total = total_amount(&amounts);
    if total < required_amount as u128 {
        return CashuCheck::RejectAmountTooLow;
    }
    if total <= fee_reserve as u128 {
        return CashuCheck::RejectAmountOutOfRange;
    }
    let net = total - fee_reserve as u128;
    if net > 0xffff_ffff_ffff_ffffu128 / 1000 {
        return CashuCheck::RejectAmountOutOfRange;
    }
    proof {
        assert((spec_total(amounts@) - fee_reserve) * 1000 <= 0xffff_ffff_ffff_ffff)
            by (nonlinear_arith)
            requires
                spec_total(amounts@) > fee_reserve,
                spec_total(amounts@) - fee_reserve <= 0xffff_ffff_ffff_ffffint / 1000,
        ;
    }
    CashuCheck::Melt { invoice_amount_msat: (net as u64) * 1000 }
}

/// Ranks the credentials a request presents: an ecash token takes precedence
/// over a bearer header, and a request with neither carries no credential.
pub fn classify_credentials(cashu_header: Option<&str>, auth_header: Option<&str>) -> (s: GateState)
    ensures
        cashu_header is Some ==> s is EcashPresented,
        cashu_header is None && auth_header is Some ==> s is BearerPresented,
        cashu_header is None && auth_header is None ==> s is NoCredential,
{
    match cashu_header {
        Some(_) => GateState::EcashPresented,
        None => match auth_header {
            Some(_) => GateState::BearerPresented,
            None => GateState::NoCredential,
        },
    }
}

/// Verifies a bearer credential end to end: the header must parse, the token
/// must decode, and for a token minted for payment hash `h` the request is
/// admitted exactly when the presented preimage hashes to `h`. Every failure
/// is a denial, never an admission.
pub fn handle_auth_header(header: &str, key: &[u8]) -> (s: GateState)
    ensures
        s is Admitted || s is Denied,
        match spec_l402_parts(header@) {
            Some(p) => {
                &&& (!mac_decodes(p.0) ==> s is Denied)
                &&& (spec_hex_decode(p.1) is None ==> s is Denied)
                &&& (forall|h: Seq<u8>|
                    h.len() <= MAX_PAYMENT_HASH_BYTES && p.0 == mac_mint(
                        key@,
                        spec_payment_caveat(h),
                    ) && mac_decodes(p.0) ==> ((s is Admitted) <==> (spec_hex_decode(
                        p.1,
                    ) matches Some(pre) && sha256_of(pre) == h)))
            },
            None => s is Denied,
        },
{
    let l402 = match L402::from_auth_header(header) {
        Ok(l) => l,
        Err(_) => {
            return GateState::Denied;
        },
    };
    match l402.is_valid(key) {
        Ok(_) => GateState::Admitted,
        Err(_) => GateState::Denied,
    }
}

/// Settles the decision after a melt attempt: the mint's affirmative answer is
/// the only admission; failure, ambiguity and timeout all deny.
pub fn melt_outcome(melt_succeeded: bool) -> (s: GateState)
    ensures
        (s is Admitted) <==> melt_succeeded,
        !melt_succeeded ==> s is Denied,
{
    if melt_succeeded {
        GateState::Admitted
    } else {
        GateState::Denied
    }
}

/// What the state machine asks its caller to do for one request.
#[derive(Debug)]
pub enum GateAction {
    Admit,
    Melt { invoice_amount_msat: u64 },
    Deny,
}

/// One pass of the 402 state machine over the request's credential headers.
/// No credential denies outright; an ecash credential either fails its local
/// checks or asks for a melt over the computed amount; a bearer credential
/// is admitted exactly when it verifies. Only the bearer path can admit
/// directly: an ecash admission must come back through `melt_outcome`.
pub fn mw_402_decide(
    cashu_header: Option<&str>,
    auth_header: Option<&str>,
    key: &[u8],
    mint_url: &str,
    price: u64,
    fee_reserve: u64,
) -> (a: GateAction)
    ensures
        match cashu_header {
            Some(hdr) => {
                &&& !(a is Admit)
                &&& match cashu_decoded(hdr@) {
                    None => a is Deny,
                    Some(p) => {
                        &&& (p.0 != mint_url@ ==> a is Deny)
                        &&& (p.0 == mint_url@ && spec_total(p.1) < price ==> a is Deny)
                        &&& (a matches GateAction::Melt { invoice_amount_msat } ==> p.0 == mint_url@
                            && spec_total(p.1) >= price && invoice_amount_msat == (spec_total(p.1)
                            - fee_reserve) * 1000)
                        &&& (p.0 == mint_url@ && spec_total(p.1) >= price && spec_total(p.1)
                            > fee_reserve && (spec_total(p.1) - fee_reserve) * 1000
                            <= 0xffff_ffff_ffff_ffff ==> a is Melt)
                    },
                }
            },
            None => match auth_header {
                Some(hdr) => {
                    &&& a is Admit || a is Deny
                    &&& match spec_l402_parts(hdr@) {
                        Some(p) => {
                            &&& (!mac_decodes(p.0) ==> a is Deny)
                            &&& (spec_hex_decode(p.1) is None ==> a is Deny)
                            &&& (forall|h: Seq<u8>|
                                h.len() <= MAX_PAYMENT_HASH_BYTES && p.0 == mac_mint(
                                    key@,
                                    spec_payment_caveat(h),
                                ) && mac_decodes(p.0) ==> ((a is Admit) <==> (spec_hex_decode(
                                    p.1,
                                ) matches Some(pre) && sha256_of(pre) == h)))
                        },
                        None => a is Deny,
                    }
                },
                None => a is Deny,
            },
        },
{
    match cashu_header {
        Some(hdr) => match check_cashu_header(hdr, mint_url, price, fee_reserve) {
            CashuCheck::Melt { invoice_amount_msat } => GateAction::Melt { invoice_amount_msat },
            _ => GateAction::Deny,
        },
        None => match auth_header {
            Some(hdr) => match handle_auth_header(hdr, key) {
                GateState::Admitted => GateAction::Admit,
                _ => GateAction::Deny,
            },
            None => GateAction::Deny,
        },
    }
}

/// A 402 answer: the status and the two challenge headers.
#[derive(Debug)]
pub struct PaymentRequiredResponse {
    pub status: u16,
    pub www_authenticate: String,
    pub x_cashu: String,
}

/// Builds the denial answer: status 402 with the bearer challenge in
/// `WWW-Authenticate` and the ecash challenge in `X-Cashu`, so a client may
/// satisfy either on its next attempt.
pub fn generate_payment_required_response(l402: &L402, cashu: &Cashu402) -> (r:
    PaymentRequiredResponse)
    requires
        l402.invoice is Some,
    ensures
        r.status == 402,
        r.www_authenticate@ == "L402 token=\""@ + l402.token@ + "\", invoice=\""@
            + l402.invoice->Some_0@ + "\""@,
        r.x_cashu@ == "Cashu402 mint_url=\""@ + cashu.mint_url@ + "\", amount=\""@
            + crate::utils::spec_dec(cashu.amount as nat) + "\""@,
{
    PaymentRequiredResponse {
        status: 402,
        www_authenticate: l402.to_authenticate_string(),
        x_cashu: cashu.to_authenticate_string(),
    }
}

} // verus!
