use l402_gateway::crypt::macaroon::generate_macaroon;
use l402_gateway::lightning::l402::{L402, L402Builder};
use sha2::Digest;

const KEY: &[u8] = b"test-macaroon-key-seed";

const INVOICE: &str = "lnbc100p1psj9jhxdqud3jxktt5w46x7unfv9kz6mn0v3jsnp4q0d3p2sfluzdx45tqcsh2pu5qc7lgq0xs578ngs6s0s68ua4h7cvspp5q6rmq35js88zp5dvwrv9m459tnk2zunwj5jalqtyxqulh0l5gflssp5nf55ny5gcrfl30xuhzj3nphgj27rstekmr9fw3ny5989s300gyus9qyysgqcqpcrzjqw2sxwe993h5pcm4dxzpvttgza8zhkqxpgffcrf5v25nwpr3cmfg7z54kuqq8rgqqqqqqqq2qqqqq9qq9qrzjqd0ylaqclj9424x9m8h2vcukcgnm6s56xfgu3j78zyqzhgs4hlpzvznlugqq9vsqqqqqqqlgqqqqqeqq9qrzjqwldmj9dha74df76zhx6l9we0vjdquygcdt3kssupehe64g6yyp5yz5rhuqqwccqqyqqqqlgqqqqjcqq9qrzjqf9e58aguqr0rcun0ajlvmzq3ek63cw2w282gv3z5uupmuwvgjtq2z55qsqqg6qqqyqqqrtnqqqzq3cqygrzjqvphmsywntrrhqjcraumvc4y6r8v4z5v593trte429v4hredj7ms5z52usqq9ngqqqqqqqlgqqqqqqgq9qrzjq2v0vp62g49p7569ev48cmulecsxe59lvaw3wlxm7r982zxa9zzj7z5l0cqqxusqqyqqqqlgqqqqqzsqygarl9fh38s0gyuxjjgux34w75dnc6xp2l35j7es3jd4ugt3lu0xzre26yg5m7ke54n2d5sym4xcmxtl8238xxvw5h5h5j5r6drg6k6zcqj0fcwg";

#[test]
fn from_auth_header_rejects_wrong_scheme() {
    let r = L402::from_auth_header("Bearer sometoken:01");
    assert!(r.is_err());
}

#[test]
fn from_auth_header_rejects_missing_colon() {
    let r = L402::from_auth_header("L402 tokenwithoutpreimage");
    assert!(r.is_err());
}

#[test]
fn from_auth_header_rejects_two_colons() {
    let r = L402::from_auth_header("L402 a:b:c");
    assert!(r.is_err());
}

#[test]
fn from_auth_header_rejects_two_spaces() {
    let r = L402::from_auth_header("L402 a:b extra");
    assert!(r.is_err());
}

#[test]
fn from_auth_header_rejects_empty() {
    assert!(L402::from_auth_header("").is_err());
}

#[test]
fn from_auth_header_rejects_garbage_token() {
    let r = L402::from_auth_header("L402 !!!notamacaroon!!!:0102");
    assert!(r.is_err());
}

#[test]
fn to_authenticate_string_exact() {
    let l402 = L402 {
        token: "TOKENTEXT".to_string(),
        invoice: Some("lnbc1examplepr".to_string()),
        preimage: None,
    };
    assert_eq!(
        l402.to_authenticate_string(),
        "L402 token=\"TOKENTEXT\", invoice=\"lnbc1examplepr\""
    );
}

#[test]
fn builder_defaults() {
    let b = L402Builder::new();
    assert_eq!(b.invoice_amount(), 1000);
    assert_eq!(b.timeout_sec(), 86400);
}

#[test]
fn builder_setters() {
    let b = L402Builder::new().amount(2500).timeout(60);
    assert_eq!(b.invoice_amount(), 2500);
    assert_eq!(b.timeout_sec(), 60);
}

#[test]
fn build_mints_for_the_invoice_own_hash() {
    let l402 = L402Builder::new().build(INVOICE, KEY).unwrap();
    assert_eq!(l402.invoice.as_deref(), Some(INVOICE));
    assert!(l402.preimage.is_none());

    // The payment hash must come from the parsed invoice itself.
    let parsed: lightning_invoice::Bolt11Invoice = INVOICE.parse().unwrap();
    let hash: &[u8] = AsRef::<[u8]>::as_ref(parsed.payment_hash());
    assert_eq!(l402.token, generate_macaroon(hash, KEY));
}

#[test]
fn build_rejects_malformed_invoice() {
    let r = L402Builder::new().build("not-an-invoice", KEY);
    assert!(r.is_err());
}

#[test]
fn issued_credential_challenge_header() {
    let l402 = L402Builder::new().build(INVOICE, KEY).unwrap();
    let challenge = l402.to_authenticate_string();
    assert!(challenge.starts_with("L402 token=\""));
    assert!(challenge.ends_with(&format!("invoice=\"{}\"", INVOICE)));
}

#[test]
fn hash_roundtrip_through_digest() {
    // Guards the hashing boundary: the library must agree with SHA-256.
    let mut hasher = sha2::Sha256::new();
    hasher.update([0x01]);
    let h = hasher.finalize().to_vec();
    assert_eq!(
        hex::encode(&h),
        "4bf5122f344554c53bde2ebb8cd2b7e3d1600ad631c385a5d7cce23c7785459a"
    );
}
