use l402_gateway::crypt::macaroon::generate_macaroon;
use l402_gateway::lightning::cashu402::{Cashu402, Cashu402Builder};
use l402_gateway::lightning::l402::L402;
use l402_gateway::web::mw_l402::{
    check_cashu_header, classify_credentials, generate_payment_required_response,
    handle_auth_header, melt_outcome, mw_402_decide, CashuCheck, GateAction, GateState,
    WWW_AUTHENTICATE, X_CASHU,
};
use sha2::Digest;

const KEY: &[u8] = b"test-macaroon-key-seed";

// A v3 ecash token for mint https://8333.space:3338 carrying proofs of 2 and
// 8 sats (total 10).
const CASHU_TOKEN: &str = "cashuAeyJ0b2tlbiI6W3sibWludCI6Imh0dHBzOi8vODMzMy5zcGFjZTozMzM4IiwicHJvb2ZzIjpbeyJpZCI6IkRTQWw5bnZ2eWZ2YSIsImFtb3VudCI6Miwic2VjcmV0IjoiRWhwZW5uQzlxQjNpRmxXOEZaX3BadyIsIkMiOiIwMmMwMjAwNjdkYjcyN2Q1ODZiYzMxODNhZWNmOTdmY2I4MDBjM2Y0Y2M0NzU5ZjY5YzYyNmM5ZGI1ZDhmNWI1ZDQifSx7ImlkIjoiRFNBbDludnZ5ZnZhIiwiYW1vdW50Ijo4LCJzZWNyZXQiOiJUbVM2Q3YwWVQ1UFVfNUFUVktudWt3IiwiQyI6IjAyYWM5MTBiZWYyOGNiZTVkNzMyNTQxNWQ1YzI2MzAyNmYxNWY5Yjk2N2EwNzljYTk3NzlhYjZlNWMyZGIxMzNhNyJ9XX1dLCJtZW1vIjoiVGhhbmt5b3UuIn0=";

// The wrapper hands mint URLs back in their parsed, normalized form.
const MINT: &str = "https://8333.space:3338/";

fn valid_bearer_header() -> String {
    let mut hasher = sha2::Sha256::new();
    hasher.update([0x01]);
    let h = hasher.finalize().to_vec();
    let token = generate_macaroon(&h, KEY);
    format!("L402 {}:01", token)
}

#[test]
fn no_credentials_is_denied() {
    let a = mw_402_decide(None, None, KEY, MINT, 3, 2);
    assert!(matches!(a, GateAction::Deny));
}

#[test]
fn denial_response_carries_both_challenges() {
    let l402 = L402 {
        token: "T".to_string(),
        invoice: Some("lnbc1pr".to_string()),
        preimage: None,
    };
    let cashu = Cashu402 { mint_url: MINT.to_string(), amount: 3 };
    let resp = generate_payment_required_response(&l402, &cashu);
    assert_eq!(resp.status, 402);
    assert_eq!(resp.www_authenticate, "L402 token=\"T\", invoice=\"lnbc1pr\"");
    assert_eq!(
        resp.x_cashu,
        "Cashu402 mint_url=\"https://8333.space:3338/\", amount=\"3\""
    );
    assert_eq!(WWW_AUTHENTICATE, "www-authenticate");
    assert_eq!(X_CASHU, "x-cashu");
}

#[test]
fn cashu_below_price_rejected_without_melt() {
    // Total is 10; with a price of 11 no melt request may be issued.
    let check = check_cashu_header(CASHU_TOKEN, MINT, 11, 2);
    assert!(matches!(check, CashuCheck::RejectAmountTooLow));
}

#[test]
fn cashu_wrong_mint_rejected_without_melt() {
    let check = check_cashu_header(CASHU_TOKEN, "https://another.mint/", 3, 2);
    assert!(matches!(check, CashuCheck::RejectWrongMint));
}

#[test]
fn cashu_malformed_rejected() {
    let check = check_cashu_header("not-an-ecash-token", MINT, 3, 2);
    assert!(matches!(check, CashuCheck::RejectMalformed));
}

#[test]
fn cashu_melt_amount_is_total_minus_fee_in_msat() {
    let check = check_cashu_header(CASHU_TOKEN, MINT, 3, 2);
    match check {
        CashuCheck::Melt { invoice_amount_msat } => assert_eq!(invoice_amount_msat, 8000),
        other => panic!("expected a melt, got {:?}", other),
    }
}

#[test]
fn gate_requests_melt_for_good_ecash() {
    let a = mw_402_decide(Some(CASHU_TOKEN), None, KEY, MINT, 3, 2);
    match a {
        GateAction::Melt { invoice_amount_msat } => assert_eq!(invoice_amount_msat, 8000),
        other => panic!("expected a melt, got {:?}", other),
    }
}

#[test]
fn ecash_takes_precedence_over_bearer() {
    // A bad ecash token next to a valid bearer header: the ecash path is
    // taken, so no direct admission is allowed.
    let bearer = valid_bearer_header();
    let a = mw_402_decide(Some("garbage"), Some(&bearer), KEY, MINT, 3, 2);
    assert!(matches!(a, GateAction::Deny));
}

#[test]
fn bearer_admitted_through_gate() {
    let bearer = valid_bearer_header();
    let a = mw_402_decide(None, Some(&bearer), KEY, MINT, 3, 2);
    assert!(matches!(a, GateAction::Admit));
}

#[test]
fn bearer_bad_preimage_denied_through_gate() {
    let mut hasher = sha2::Sha256::new();
    hasher.update([0x01]);
    let h = hasher.finalize().to_vec();
    let token = generate_macaroon(&h, KEY);
    let header = format!("L402 {}:02", token);
    let a = mw_402_decide(None, Some(&header), KEY, MINT, 3, 2);
    assert!(matches!(a, GateAction::Deny));
}

#[test]
fn handle_auth_header_states() {
    let bearer = valid_bearer_header();
    assert!(matches!(handle_auth_header(&bearer, KEY), GateState::Admitted));
    assert!(matches!(handle_auth_header("nonsense", KEY), GateState::Denied));
}

#[test]
fn classify_credential_precedence() {
    assert!(matches!(classify_credentials(Some("c"), Some("a")), GateState::EcashPresented));
    assert!(matches!(classify_credentials(None, Some("a")), GateState::BearerPresented));
    assert!(matches!(classify_credentials(None, None), GateState::NoCredential));
}

#[test]
fn melt_outcome_settles_the_gate() {
    assert!(matches!(melt_outcome(true), GateState::Admitted));
    assert!(matches!(melt_outcome(false), GateState::Denied));
}

#[test]
fn cashu_builder_default_price() {
    let c = Cashu402Builder::new().build(MINT.to_string()).unwrap();
    assert_eq!(c.amount, 3);
    assert_eq!(c.mint_url, MINT);
}

#[test]
fn cashu_builder_amount_setter() {
    let c = Cashu402Builder::new().amount(21).build(MINT.to_string()).unwrap();
    assert_eq!(c.amount, 21);
    assert_eq!(
        c.to_authenticate_string(),
        "Cashu402 mint_url=\"https://8333.space:3338/\", amount=\"21\""
    );
}

#[test]
fn cashu_decoding_matches_real_crate() {
    // Guards the decoding boundary: the totals must agree with the crate.
    let parsed = moksha_core::model::TokenV3::deserialize(CASHU_TOKEN.to_string()).unwrap();
    assert_eq!(parsed.total_amount(), 10);
    assert_eq!(parsed.mint().unwrap().to_string(), MINT);
}
