//! Per-backend credential injection: once a request has been admitted, the
//! first path segment picks the backend, and that backend's strategy says
//! exactly which credential headers or query parameter to attach before the
//! request is forwarded. An unknown segment is rejected before any upstream
//! contact; the inbound `Host` header is always dropped.
use vstd::prelude::*;
use vstd::string::StrSliceExecFns;
use vstd::string::StringExecFns;

use crate::config::apis::{lemma_route_literals, ApisConfig};
use crate::utils::{
    spec_after_first, spec_take_until, split_at_first, str_eq, take_until,
};
use crate::web::error::{Error, Result};

verus! {

broadcast use vstd::string::group_string_axioms;

/// The backend a request targets: the segment after the first slash, up to
/// the next one; empty when the path has no slash at all.
pub open spec fn spec_first_path_segment(path: Seq<char>) -> Seq<char> {
    match spec_after_first(path, '/') {
        Some(rest) => spec_take_until(rest, '/'),
        None => Seq::empty(),
    }
}

/// Extracts the first path segment of a request path.
pub fn first_path_segment(path: &str) -> (r: String)
    ensures
        r@ == spec_first_path_segment(path@),
{
    match split_at_first(path, '/') {
        Some((_, rest)) => take_until(rest.as_str(), '/'),
        None => String::new(),
    }
}

/// The closed set of credential-injection strategies.
#[derive(Debug, Clone, Copy)]
pub enum AuthScheme {
    Bearer,
    Basic,
    XApiKey,
    KeyQueryParam,
    Token,
    Anthropic,
    Bing,
}

/// The strategy table: which injection strategy each backend uses. A route
/// outside the table has none.
pub fn auth_scheme_for(route: &str) -> (r: Option<AuthScheme>)
    ensures
        route@ == "openai"@ ==> r == Some(AuthScheme::Bearer),
        route@ == "clipdrop"@ ==> r == Some(AuthScheme::XApiKey),
        route@ == "palm"@ ==> r == Some(AuthScheme::KeyQueryParam),
        route@ == "replicate"@ ==> r == Some(AuthScheme::Token),
        route@ == "anthropic"@ ==> r == Some(AuthScheme::Anthropic),
        route@ == "stability"@ ==> r == Some(AuthScheme::Bearer),
        route@ == "goose"@ ==> r == Some(AuthScheme::Bearer),
        route@ == "cohere"@ ==> r == Some(AuthScheme::Bearer),
        route@ == "ai21"@ ==> r == Some(AuthScheme::Bearer),
        route@ == "together"@ ==> r == Some(AuthScheme::Bearer),
        route@ == "scenario"@ ==> r == Some(AuthScheme::Basic),
        route@ == "perplexity"@ ==> r == Some(AuthScheme::Bearer),
        route@ == "anyscale"@ ==> r == Some(AuthScheme::Bearer),
        route@ == "bing"@ ==> r == Some(AuthScheme::Bing),
        !(route@ == "openai"@ || route@ == "clipdrop"@ || route@ == "palm"@ || route@
            == "replicate"@ || route@ == "anthropic"@ || route@ == "stability"@ || route@
            == "goose"@ || route@ == "cohere"@ || route@ == "ai21"@ || route@ == "together"@
            || route@ == "scenario"@ || route@ == "perplexity"@ || route@ == "anyscale"@ || route@
            == "bing"@) ==> r is None,
{
    proof {
        lemma_route_literals();
    }
    if str_eq(route, "openai") {
        Some(AuthScheme::Bearer)
    } else if str_eq(route, "clipdrop") {
        Some(AuthScheme::XApiKey)
    } else if str_eq(route, "palm") {
        Some(AuthScheme::KeyQueryParam)
    } else if str_eq(route, "replicate") {
        Some(AuthScheme::Token)
    } else if str_eq(route, "anthropic") {
        Some(AuthScheme::Anthropic)
    } else if str_eq(route, "stability") {
        Some(AuthScheme::Bearer)
    } else if str_eq(route, "goose") {
        Some(AuthScheme::Bearer)
    } else if str_eq(route, "cohere") {
        Some(AuthScheme::Bearer)
    } else if str_eq(route, "ai21") {
        Some(AuthScheme::Bearer)
    } else if str_eq(route, "together") {
        Some(AuthScheme::Bearer)
    } else if str_eq(route, "scenario") {
        Some(AuthScheme::Basic)
    } else if str_eq(route, "perplexity") {
        Some(AuthScheme::Bearer)
    } else if str_eq(route, "anyscale") {
        Some(AuthScheme::Bearer)
    } else if str_eq(route, "bing") {
        Some(AuthScheme::Bing)
    } else {
        None
    }
}

/// A bearer credential header.
pub fn bearer_auth(auth: &str) -> (r: (String, String))
    ensures
        r.0@ == "authorization"@,
        r.1@ == "Bearer "@ + auth@,
{
    let mut v = "Bearer ".to_owned();
    v.append(auth);
    ("authorization".to_owned(), v)
}

/// A basic credential header; the credential is attached as configured.
pub fn basic_auth(auth: &str) -> (r: (String, String))
    ensures
        r.0@ == "authorization"@,
        r.1@ == "Basic "@ + auth@,
{
    let mut v = "Basic ".to_owned();
    v.append(auth);
    ("authorization".to_owned(), v)
}

/// An `x-api-key` credential header.
pub fn x_api_key_auth(auth: &str) -> (r: (String, String))
    ensures
        r.0@ == "x-api-key"@,
        r.1@ == auth@,
{
    ("x-api-key".to_owned(), auth.to_owned())
}

/// A token credential header.
pub fn token_auth(auth: &str) -> (r: (String, String))
    ensures
        r.0@ == "authorization"@,
        r.1@ == "Token "@ + auth@,
{
    let mut v = "Token ".to_owned();
    v.append(auth);
    ("authorization".to_owned(), v)
}

/// The subscription-key header some search backends expect.
pub fn bing_auth(auth: &str) -> (r: (String, String))
    ensures
        r.0@ == "Ocp-Apim-Subscription-Key"@,
        r.1@ == auth@,
{
    ("Ocp-Apim-Subscription-Key".to_owned(), auth.to_owned())
}

/// Rewrites the request path so the key rides as its only query parameter;
/// any query the client sent is dropped.
pub fn key_query_param_auth(path_and_query: &str, auth: &str) -> (r: String)
    ensures
        r@ == spec_take_until(path_and_query@, '?') + "?key="@ + auth@,
{
    let mut s = take_until(path_and_query, '?');
    s.append("?key=");
    s.append(auth);
    proof {
        assert(s@ =~= spec_take_until(path_and_query@, '?') + "?key="@ + auth@);
    }
    s
}

/// What the caller must do to the admitted request before forwarding it.
#[derive(Debug)]
pub struct AuthInstruction {
    pub remove_host: bool,
    pub headers: Vec<(String, String)>,
    pub new_path_and_query: Option<String>,
}

/// A single credential header, the host header dropped, the path untouched.
pub open spec fn spec_header_instruction(
    ins: AuthInstruction,
    name: Seq<char>,
    value: Seq<char>,
) -> bool {
    &&& ins.remove_host
    &&& ins.new_path_and_query is None
    &&& ins.headers@.len() == 1
    &&& ins.headers@[0].0@ == name
    &&& ins.headers@[0].1@ == value
}

/// Chooses and applies the injection strategy for the backend the path
/// names: the request is forwarded only with the exact credential material
/// of a configured backend, and an unknown or unconfigured segment is
/// rejected as an invalid route before any upstream call.
pub fn add_auth(path_and_query: &str, cfg: &ApisConfig) -> (r: Result<AuthInstruction>)
    ensures
        ({
            let seg = spec_first_path_segment(path_and_query@);
            &&& (seg == "replit"@ ==> match cfg.replit {
                Some(rp) => r matches Ok(ins) && spec_header_instruction(
                    ins,
                    "authorization"@,
                    "Bearer "@ + rp.params.key@,
                ),
                None => r matches Err(e) && e is InvalidRoute,
            })
            &&& (seg == "openai"@ ==> match cfg.openai {
                Some(p) => r matches Ok(ins) && spec_header_instruction(
                    ins,
                    "authorization"@,
                    "Bearer "@ + p.key@,
                ),
                None => r matches Err(e) && e is InvalidRoute,
            })
            &&& (seg == "stability"@ ==> match cfg.stability {
                Some(p) => r matches Ok(ins) && spec_header_instruction(
                    ins,
                    "authorization"@,
                    "Bearer "@ + p.key@,
                ),
                None => r matches Err(e) && e is InvalidRoute,
            })
            &&& (seg == "goose"@ ==> match cfg.goose {
                Some(p) => r matches Ok(ins) && spec_header_instruction(
                    ins,
                    "authorization"@,
                    "Bearer "@ + p.key@,
                ),
                None => r matches Err(e) && e is InvalidRoute,
            })
            &&& (seg == "cohere"@ ==> match cfg.cohere {
                Some(p) => r matches Ok(ins) && spec_header_instruction(
                    ins,
                    "authorization"@,
                    "Bearer "@ + p.key@,
                ),
                None => r matches Err(e) && e is InvalidRoute,
            })
            &&& (seg == "ai21"@ ==> match cfg.ai21 {
                Some(p) => r matches Ok(ins) && spec_header_instruction(
                    ins,
                    "authorization"@,
                    "Bearer "@ + p.key@,
                ),
                None => r matches Err(e) && e is InvalidRoute,
            })
            &&& (seg == "together"@ ==> match cfg.together {
                Some(p) => r matches Ok(ins) && spec_header_instruction(
                    ins,
                    "authorization"@,
                    "Bearer "@ + p.key@,
                ),
                None => r matches Err(e) && e is InvalidRoute,
            })
            &&& (seg == "perplexity"@ ==> match cfg.perplexity {
                Some(p) => r matches Ok(ins) && spec_header_instruction(
                    ins,
                    "authorization"@,
                    "Bearer "@ + p.key@,
                ),
                None => r matches Err(e) && e is InvalidRoute,
            })
            &&& (seg == "anyscale"@ ==> match cfg.anyscale {
                Some(p) => r matches Ok(ins) && spec_header_instruction(
                    ins,
                    "authorization"@,
                    "Bearer "@ + p.key@,
                ),
                None => r matches Err(e) && e is InvalidRoute,
            })
            &&& (seg == "scenario"@ ==> match cfg.scenario {
                Some(p) => r matches Ok(ins) && spec_header_instruction(
                    ins,
                    "authorization"@,
                    "Basic "@ + p.key@,
                ),
                None => r matches Err(e) && e is InvalidRoute,
            })
            &&& (seg == "clipdrop"@ ==> match cfg.clipdrop {
                Some(p) => r matches Ok(ins) && spec_header_instruction(
                    ins,
                    "x-api-key"@,
                    p.key@,
                ),
                None => r matches Err(e) && e is InvalidRoute,
            })
            &&& (seg == "replicate"@ ==> match cfg.replicate {
                Some(p) => r matches Ok(ins) && spec_header_instruction(
                    ins,
                    "authorization"@,
                    "Token "@ + p.key@,
                ),
                None => r matches Err(e) && e is InvalidRoute,
            })
            &&& (seg == "anthropic"@ ==> match cfg.anthropic {
                Some(p) => r matches Ok(ins) && {
                    &&& ins.remove_host
                    &&& ins.new_path_and_query is None
                    &&& ins.headers@.len() == 2
                    &&& ins.headers@[0].0@ == "x-api-key"@
                    &&& ins.headers@[0].1@ == p.key@
                    &&& ins.headers@[1].0@ == "anthropic-version"@
                    &&& ins.headers@[1].1@ == "2023-06-01"@
                },
                None => r matches Err(e) && e is InvalidRoute,
            })
            &&& (seg == "palm"@ ==> match cfg.palm {
                Some(p) => r matches Ok(ins) && {
                    &&& ins.remove_host
                    &&& ins.headers@.len() == 0
                    &&& ins.new_path_and_query matches Some(q) && q@ == spec_take_until(
                        path_and_query@,
                        '?',
                    ) + "?key="@ + p.key@
                },
                None => r matches Err(e) && e is InvalidRoute,
            })
            &&& (seg == "bing"@ ==> (r matches Err(e) && e is InvalidRoute))
            &&& (!(seg == "openai"@ || seg == "clipdrop"@ || seg == "palm"@ || seg == "replicate"@
                || seg == "anthropic"@ || seg == "stability"@ || seg == "goose"@ || seg
                == "cohere"@ || seg == "ai21"@ || seg == "together"@ || seg == "scenario"@ || seg
                == "perplexity"@ || seg == "anyscale"@ || seg == "replit"@ || seg == "bing"@)
                ==> (r matches Err(e) && e is InvalidRoute))
        }),
{
    proof {
        lemma_route_literals();
    }
    let seg = first_path_segment(path_and_query);
    if str_eq(seg.as_str(), "replit") {
        match &cfg.replit {
            Some(rp) => {
                let mut headers: Vec<(String, String)> = Vec::new();
                headers.push(bearer_auth(rp.params.key.as_str()));
                Ok(AuthInstruction { remove_host: true, headers, new_path_and_query: None })
            },
            None => Err(Error::InvalidRoute("No replit config found".to_owned())),
        }
    } else {
        let params = match cfg.get_params(seg.as_str()) {
            Some(p) => p,
            None => {
                return Err(Error::InvalidRoute("No key found for this route".to_owned()));
            },
        };
        let scheme = match auth_scheme_for(seg.as_str()) {
            Some(s) => s,
            None => {
                return Err(Error::InvalidRoute("No auth found for this route".to_owned()));
            },
        };
        let mut headers: Vec<(String, String)> = Vec::new();
        match scheme {
            AuthScheme::Bearer => {
                headers.push(bearer_auth(params.key.as_str()));
                Ok(AuthInstruction { remove_host: true, headers, new_path_and_query: None })
            },
            AuthScheme::Basic => {
                headers.push(basic_auth(params.key.as_str()));
                Ok(AuthInstruction { remove_host: true, headers, new_path_and_query: None })
            },
            AuthScheme::XApiKey => {
                headers.push(x_api_key_auth(params.key.as_str()));
                Ok(AuthInstruction { remove_host: true, headers, new_path_and_query: None })
            },
            AuthScheme::Token => {
                headers.push(token_auth(params.key.as_str()));
                Ok(AuthInstruction { remove_host: true, headers, new_path_and_query: None })
            },
            AuthScheme::Anthropic => {
                headers.push(x_api_key_auth(params.key.as_str()));
                headers.push(("anthropic-version".to_owned(), "2023-06-01".to_owned()));
                Ok(AuthInstruction { remove_host: true, headers, new_path_and_query: None })
            },
            AuthScheme::Bing => {
                headers.push(bing_auth(params.key.as_str()));
                Ok(AuthInstruction { remove_host: true, headers, new_path_and_query: None })
            },
            AuthScheme::KeyQueryParam => {
                let q = key_query_param_auth(path_and_query, params.key.as_str());
                Ok(
                    AuthInstruction {
                        remove_host: true,
                        headers,
                        new_path_and_query: Some(q),
                    },
                )
            },
        }
    }
}

} // verus!
