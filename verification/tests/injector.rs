use l402_gateway::config::apis::{ApiParams, ApisConfigBuilder};
use l402_gateway::config::replit::ReplitApiParams;
use l402_gateway::web::error::Error;
use l402_gateway::web::mw_add_api_auth::{
    add_auth, auth_scheme_for, first_path_segment, AuthScheme,
};

fn full_config() -> l402_gateway::config::apis::ApisConfig {
    ApisConfigBuilder::new()
        .openai(Some("OPENAI-KEY".to_string()))
        .clipdrop(Some("CLIPDROP-KEY".to_string()))
        .palm(Some("PALM-KEY".to_string()))
        .replicate(Some("REPLICATE-KEY".to_string()))
        .anthropic(Some("ANTHROPIC-KEY".to_string()))
        .scenario(Some("SCENARIO-KEY".to_string()))
        .build()
}

#[test]
fn openai_request_gets_bearer_and_loses_host() {
    let cfg = full_config();
    let ins = add_auth("/openai/v1/models", &cfg).unwrap();
    assert!(ins.remove_host);
    assert!(ins.new_path_and_query.is_none());
    assert_eq!(ins.headers.len(), 1);
    assert_eq!(ins.headers[0].0, "authorization");
    assert_eq!(ins.headers[0].1, "Bearer OPENAI-KEY");
    // The admitted request is forwarded to the backend's configured host.
    let params = cfg.get_params("openai").unwrap();
    assert_eq!(params.host, "api.openai.com");
    assert_eq!(params.path, "/openai");
}

#[test]
fn unknown_backend_is_invalid_route() {
    let cfg = full_config();
    let r = add_auth("/unknownbackend/x", &cfg);
    assert!(matches!(r, Err(Error::InvalidRoute(_))));
}

#[test]
fn unconfigured_backend_is_invalid_route() {
    let cfg = ApisConfigBuilder::new().openai(Some("K".to_string())).build();
    let r = add_auth("/clipdrop/text-to-image/v1", &cfg);
    assert!(matches!(r, Err(Error::InvalidRoute(_))));
}

#[test]
fn clipdrop_gets_x_api_key() {
    let cfg = full_config();
    let ins = add_auth("/clipdrop/text-to-image/v1", &cfg).unwrap();
    assert_eq!(ins.headers.len(), 1);
    assert_eq!(ins.headers[0].0, "x-api-key");
    assert_eq!(ins.headers[0].1, "CLIPDROP-KEY");
}

#[test]
fn palm_key_rides_as_query_parameter() {
    let cfg = full_config();
    let ins = add_auth("/palm/v1beta2/models?client=1", &cfg).unwrap();
    assert!(ins.headers.is_empty());
    assert_eq!(
        ins.new_path_and_query.as_deref(),
        Some("/palm/v1beta2/models?key=PALM-KEY")
    );
}

#[test]
fn replicate_gets_token_header() {
    let cfg = full_config();
    let ins = add_auth("/replicate/v1/predictions", &cfg).unwrap();
    assert_eq!(ins.headers[0].1, "Token REPLICATE-KEY");
}

#[test]
fn anthropic_gets_key_and_version_headers() {
    let cfg = full_config();
    let ins = add_auth("/anthropic/v1/complete", &cfg).unwrap();
    assert_eq!(ins.headers.len(), 2);
    assert_eq!(ins.headers[0].0, "x-api-key");
    assert_eq!(ins.headers[0].1, "ANTHROPIC-KEY");
    assert_eq!(ins.headers[1].0, "anthropic-version");
    assert_eq!(ins.headers[1].1, "2023-06-01");
}

#[test]
fn scenario_gets_basic_header() {
    let cfg = full_config();
    let ins = add_auth("/scenario/v1/models", &cfg).unwrap();
    assert_eq!(ins.headers[0].1, "Basic SCENARIO-KEY");
}

#[test]
fn replit_gets_bearer_from_dynamic_params() {
    let mut rp = ReplitApiParams::new();
    rp.set_params(ApiParams::new().key("REPLIT-KEY".to_string()).timeout(Some(99)));
    let cfg = ApisConfigBuilder::new().replit(Some(rp)).build();
    let ins = add_auth("/replit/v1/completion", &cfg).unwrap();
    assert_eq!(ins.headers[0].1, "Bearer REPLIT-KEY");
}

#[test]
fn replit_unconfigured_is_invalid_route() {
    let cfg = full_config();
    let r = add_auth("/replit/v1/completion", &cfg);
    assert!(matches!(r, Err(Error::InvalidRoute(_))));
}

#[test]
fn bing_has_no_mounted_backend() {
    let cfg = full_config();
    assert!(matches!(add_auth("/bing/search", &cfg), Err(Error::InvalidRoute(_))));
}

#[test]
fn strategy_table_spot_checks() {
    assert!(matches!(auth_scheme_for("openai"), Some(AuthScheme::Bearer)));
    assert!(matches!(auth_scheme_for("palm"), Some(AuthScheme::KeyQueryParam)));
    assert!(matches!(auth_scheme_for("scenario"), Some(AuthScheme::Basic)));
    assert!(matches!(auth_scheme_for("bing"), Some(AuthScheme::Bing)));
    assert!(auth_scheme_for("nosuch").is_none());
}

#[test]
fn first_path_segment_edges() {
    assert_eq!(first_path_segment("/openai/v1/models"), "openai");
    assert_eq!(first_path_segment("/openai"), "openai");
    assert_eq!(first_path_segment("openai/v1"), "v1");
    assert_eq!(first_path_segment("plain"), "");
    assert_eq!(first_path_segment(""), "");
    assert_eq!(first_path_segment("/"), "");
}

#[test]
fn builder_mounts_only_supplied_keys() {
    let cfg = ApisConfigBuilder::new()
        .openai(Some("K".to_string()))
        .clipdrop(None)
        .build();
    assert!(cfg.openai.is_some());
    assert!(cfg.clipdrop.is_none());
    assert!(cfg.get_params("clipdrop").is_none());
    assert!(cfg.get_params("nonsense").is_none());
    let p = cfg.get_params("openai").unwrap();
    assert_eq!(p.key, "K");
    assert_eq!(p.host, "api.openai.com");
}

#[test]
fn api_params_builder_chain() {
    let p = ApiParams::new()
        .key("K".to_string())
        .host("h.example")
        .path("/h")
        .timeout(Some(7));
    assert_eq!(p.key, "K");
    assert_eq!(p.host, "h.example");
    assert_eq!(p.path, "/h");
    assert_eq!(p.timeout, Some(7));
    assert!(!p.is_expired(7));
    assert!(p.is_expired(8));
    assert!(!ApiParams::new().is_expired(i64::MAX));
}

#[test]
fn replit_params_refresh_cycle() {
    let mut rp = ReplitApiParams::new();
    assert!(!rp.needs_refresh(0));
    rp.set_params(ApiParams::new().key("A".to_string()).timeout(Some(10)));
    assert_eq!(rp.get_key(), "A");
    assert!(!rp.needs_refresh(10));
    assert!(rp.needs_refresh(11));
}
