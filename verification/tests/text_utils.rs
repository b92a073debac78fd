use l402_gateway::lightning::error::Error as LightningError;
use l402_gateway::lightning::lightning_address::{parse_lnaddress, LightningAddress};
use l402_gateway::web::error::Error as WebError;
use l402_gateway::model::{Balance, Op};
use l402_gateway::services::clipdrop::ClipdropEndpoints;
use l402_gateway::services::makersuite::MakerSuiteEndpoints;
use l402_gateway::services::openai::OpenAIEndpoints;
use l402_gateway::utils::{b64u_decode, b64u_encode, hex_decode, hex_encode_lower, str_eq, u64_to_dec};

#[test]
fn hex_encode_exact() {
    assert_eq!(hex_encode_lower(&[0xbe, 0xef]), "beef");
    assert_eq!(hex_encode_lower(&[]), "");
    assert_eq!(hex_encode_lower(&[0x00, 0x0f, 0xf0]), "000ff0");
}

#[test]
fn hex_decode_both_cases() {
    assert_eq!(hex_decode("beef"), Some(vec![0xbe, 0xef]));
    assert_eq!(hex_decode("BEEF"), Some(vec![0xbe, 0xef]));
    assert_eq!(hex_decode(""), Some(vec![]));
}

#[test]
fn hex_decode_rejects_bad_input() {
    assert!(hex_decode("abc").is_none());
    assert!(hex_decode("zz").is_none());
    assert!(hex_decode("0g").is_none());
}

#[test]
fn hex_round_trip_matches_reference() {
    let data: Vec<u8> = (0u8..=255).collect();
    let encoded = hex_encode_lower(&data);
    assert_eq!(encoded, hex::encode(&data));
    assert_eq!(hex_decode(&encoded), Some(data));
}

#[test]
fn decimal_rendering_exact() {
    assert_eq!(u64_to_dec(0), "0");
    assert_eq!(u64_to_dec(7), "7");
    assert_eq!(u64_to_dec(1000), "1000");
    assert_eq!(u64_to_dec(u64::MAX), "18446744073709551615");
}

#[test]
fn string_equality_by_view() {
    assert!(str_eq("abc", "abc"));
    assert!(!str_eq("abc", "abd"));
    assert!(!str_eq("abc", "abcd"));
    assert!(str_eq("", ""));
}

#[test]
fn b64u_known_value() {
    assert_eq!(b64u_encode("Hello, world!"), "SGVsbG8sIHdvcmxkIQ");
}

#[test]
fn b64u_round_trip() {
    let encoded = b64u_encode("some config value");
    assert_eq!(b64u_decode(&encoded).unwrap(), "some config value");
}

#[test]
fn b64u_decode_rejects_garbage() {
    assert!(b64u_decode("%%%").is_err());
}

#[test]
fn lnaddress_parses_user_and_domain() {
    let (user, domain) = parse_lnaddress("satoshi@example.org").unwrap();
    assert_eq!(user, "satoshi");
    assert_eq!(domain, "example.org");
}

#[test]
fn lnaddress_takes_first_two_parts() {
    let (user, domain) = parse_lnaddress("a@b@c").unwrap();
    assert_eq!(user, "a");
    assert_eq!(domain, "b");
}

#[test]
fn lnaddress_without_at_fails() {
    assert!(parse_lnaddress("nodomain").is_err());
}

#[test]
fn lightning_address_urls() {
    let mut addr = LightningAddress::new("satoshi@example.org").unwrap();
    assert_eq!(addr.well_known_url(), "https://example.org/.well-known/lnurlp/satoshi");
    assert!(addr.validate_and_set_callback("OK", "https://example.org/pay".to_string()).is_ok());
    assert_eq!(addr.invoice_request_url(8000), "https://example.org/pay?amount=8000");
}

#[test]
fn lightning_address_rejects_bad_status() {
    let mut addr = LightningAddress::new("satoshi@example.org").unwrap();
    assert!(addr.validate_and_set_callback("ERROR", "https://x".to_string()).is_err());
    assert_eq!(addr.callback, "");
}

#[test]
fn op_renders_sql_operators() {
    assert_eq!(Op::Eq.as_str(), "=");
    assert_eq!(Op::Ne.as_str(), "!=");
    assert_eq!(Op::Gt.as_str(), ">");
    assert_eq!(Op::Ge.as_str(), ">=");
    assert_eq!(Op::Lt.as_str(), "<");
    assert_eq!(Op::Le.as_str(), "<=");
}

#[test]
fn balance_shape() {
    let b = Balance {
        token: "t".to_string(),
        invoice: "i".to_string(),
        balance_msat: 1000,
        created_at: 1,
        updated_at: 2,
    };
    assert_eq!(b.balance_msat, 1000);
}

#[test]
fn endpoint_paths() {
    assert_eq!(OpenAIEndpoints::ModelList.path(), "/v1/models");
    assert_eq!(OpenAIEndpoints::ChatCompletions.path(), "/v1/chat/completions");
    assert_eq!(OpenAIEndpoints::Embeddings.path(), "/v1/embeddings");
    assert_eq!(OpenAIEndpoints::ImageGenerations.path(), "/v1/images/generations");
    assert_eq!(OpenAIEndpoints::ModelRetrieve.pricing(), 1000);
    assert_eq!(ClipdropEndpoints::ImageCreation.path(), "/text-to-image/v1");
    assert_eq!(ClipdropEndpoints::ImageCreation.pricing(), 1000);
    assert_eq!(
        MakerSuiteEndpoints::GenerateText.path(),
        "/v1beta2/models/text-bison-001:generateText"
    );
    assert_eq!(
        MakerSuiteEndpoints::EmbedText.path(),
        "/v1beta2/models/embedding-gecko-001:embedText"
    );
}

#[test]
fn error_status_codes() {
    assert_eq!(LightningError::L402CaveatFail.status_code(), 402);
    assert_eq!(LightningError::L402AuthHeaderInvalidFail.status_code(), 402);
    assert_eq!(LightningError::LightningAddressFail.status_code(), 500);
    assert_eq!(WebError::InvalidRoute("x".to_string()).status_code(), 400);
    assert_eq!(WebError::InvalidHeaderValue("x".to_string()).status_code(), 400);
    assert_eq!(
        WebError::Lightning(LightningError::L402CaveatFail).status_code(),
        402
    );
}
