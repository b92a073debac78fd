//! The per-backend API table: which upstream providers are mounted, each
//! with its key, host, path prefix and optional key expiry. A provider is
//! present exactly when its key was supplied.
use vstd::prelude::*;

use crate::config::replit::ReplitApiParams;
use crate::utils::str_eq;

verus! {

broadcast use vstd::string::group_string_axioms;

/// One backend's parameters.
#[derive(Debug, Clone)]
pub struct ApiParams {
    pub key: String,
    pub host: &'static str,
    pub path: &'static str,
    pub timeout: Option<i64>,
}

impl ApiParams {
    pub fn new() -> (r: Self)
        ensures
            r.key@ == Seq::<char>::empty(),
            r.host@ == Seq::<char>::empty(),
            r.path@ == Seq::<char>::empty(),
            r.timeout is None,
    {
        proof {
            reveal_strlit("");
        }
        Self { key: String::new(), host: "", path: "", timeout: None }
    }

    pub fn key(self, key: String) -> (r: Self)
        ensures
            r == (ApiParams { key, ..self }),
    {
        Self { key, ..self }
    }

    pub fn set_key(&mut self, key: String)
        ensures
            *final(self) == (ApiParams { key, ..*old(self) }),
    {
        self.key = key;
    }

    pub fn host(self, host: &'static str) -> (r: Self)
        ensures
            r == (ApiParams { host, ..self }),
    {
        Self { host, ..self }
    }

    pub fn path(self, path: &'static str) -> (r: Self)
        ensures
            r == (ApiParams { path, ..self }),
    {
        Self { path, ..self }
    }

    pub fn timeout(self, timeout: Option<i64>) -> (r: Self)
        ensures
            r == (ApiParams { timeout, ..self }),
    {
        Self { timeout, ..self }
    }

    /// Whether the key's recorded expiry has passed at the given time; a
    /// backend without an expiry never expires.
    pub fn is_expired(&self, now: i64) -> (r: bool)
        ensures
            r == match self.timeout {
                Some(t) => now > t,
                None => false,
            },
    {
        match self.timeout {
            Some(t) => now > t,
            None => false,
        }
    }
}

fn clone_params(p: &Option<ApiParams>) -> (r: Option<ApiParams>)
    ensures
        r == *p,
{
    match p {
        Some(q) => Some(
            ApiParams { key: q.key.clone(), host: q.host, path: q.path, timeout: q.timeout },
        ),
        None => None,
    }
}

/// The route names of the backend table, pinned down far enough that any
/// two of them are distinguishable.
pub(crate) proof fn lemma_route_literals()
    ensures
        "openai"@.len() == 6 && "openai"@[0] == 'o',
        "clipdrop"@.len() == 8 && "clipdrop"@[0] == 'c',
        "palm"@.len() == 4 && "palm"@[0] == 'p',
        "replicate"@.len() == 9 && "replicate"@[0] == 'r',
        "anthropic"@.len() == 9 && "anthropic"@[0] == 'a',
        "stability"@.len() == 9 && "stability"@[0] == 's',
        "goose"@.len() == 5 && "goose"@[0] == 'g',
        "cohere"@.len() == 6 && "cohere"@[0] == 'c',
        "ai21"@.len() == 4 && "ai21"@[0] == 'a',
        "together"@.len() == 8 && "together"@[0] == 't',
        "scenario"@.len() == 8 && "scenario"@[0] == 's',
        "perplexity"@.len() == 10 && "perplexity"@[0] == 'p',
        "anyscale"@.len() == 8 && "anyscale"@[0] == 'a',
        "replit"@.len() == 6 && "replit"@[0] == 'r',
        "bing"@.len() == 4 && "bing"@[0] == 'b',
{
    reveal_strlit("openai");
    reveal_strlit("clipdrop");
    reveal_strlit("palm");
    reveal_strlit("replicate");
    reveal_strlit("anthropic");
    reveal_strlit("stability");
    reveal_strlit("goose");
    reveal_strlit("cohere");
    reveal_strlit("ai21");
    reveal_strlit("together");
    reveal_strlit("scenario");
    reveal_strlit("perplexity");
    reveal_strlit("anyscale");
    reveal_strlit("replit");
    reveal_strlit("bing");
}

/// The table of mounted backends.
#[derive(Debug)]
pub struct ApisConfig {
    pub openai: Option<ApiParams>,
    pub clipdrop: Option<ApiParams>,
    pub palm: Option<ApiParams>,
    pub replicate: Option<ApiParams>,
    pub anthropic: Option<ApiParams>,
    pub stability: Option<ApiParams>,
    pub goose: Option<ApiParams>,
    pub cohere: Option<ApiParams>,
    pub ai21: Option<ApiParams>,
    pub together: Option<ApiParams>,
    pub scenario: Option<ApiParams>,
    pub perplexity: Option<ApiParams>,
    pub anyscale: Option<ApiParams>,
    pub replit: Option<ReplitApiParams>,
}

impl ApisConfig {
    /// Looks a route segment up in the table; a segment that names no
    /// mounted backend has no parameters.
    pub fn get_params(&self, route: &str) -> (r: Option<ApiParams>)
        ensures
            route@ == "openai"@ ==> r == self.openai,
            route@ == "clipdrop"@ ==> r == self.clipdrop,
            route@ == "palm"@ ==> r == self.palm,
            route@ == "replicate"@ ==> r == self.replicate,
            route@ == "anthropic"@ ==> r == self.anthropic,
            route@ == "stability"@ ==> r == self.stability,
            route@ == "goose"@ ==> r == self.goose,
            route@ == "cohere"@ ==> r == self.cohere,
            route@ == "ai21"@ ==> r == self.ai21,
            route@ == "together"@ ==> r == self.together,
            route@ == "scenario"@ ==> r == self.scenario,
            route@ == "perplexity"@ ==> r == self.perplexity,
            route@ == "anyscale"@ ==> r == self.anyscale,
            !(route@ == "openai"@ || route@ == "clipdrop"@ || route@ == "palm"@ || route@
                == "replicate"@ || route@ == "anthropic"@ || route@ == "stability"@ || route@
                == "goose"@ || route@ == "cohere"@ || route@ == "ai21"@ || route@ == "together"@
                || route@ == "scenario"@ || route@ == "perplexity"@ || route@ == "anyscale"@)
                ==> r is None,
    {
        proof {
            lemma_route_literals();
        }
        if str_eq(route, "openai") {
            clone_params(&self.openai)
        } else if str_eq(route, "clipdrop") {
            clone_params(&self.clipdrop)
        } else if str_eq(route, "palm") {
            clone_params(&self.palm)
        } else if str_eq(route, "replicate") {
            clone_params(&self.replicate)
        } else if str_eq(route, "anthropic") {
            clone_params(&self.anthropic)
        } else if str_eq(route, "stability") {
            clone_params(&self.stability)
        } else if str_eq(route, "goose") {
            clone_params(&self.goose)
        } else if str_eq(route, "cohere") {
            clone_params(&self.cohere)
        } else if str_eq(route, "ai21") {
            clone_params(&self.ai21)
        } else if str_eq(route, "together") {
            clone_params(&self.together)
        } else if str_eq(route, "scenario") {
            clone_params(&self.scenario)
        } else if str_eq(route, "perplexity") {
            clone_params(&self.perplexity)
        } else if str_eq(route, "anyscale") {
            clone_params(&self.anyscale)
        } else {
            None
        }
    }
}

/// Builds the table: each provider method mounts its backend exactly when a
/// key is supplied for it.
#[derive(Debug)]
pub struct ApisConfigBuilder {
    pub openai: Option<ApiParams>,
    pub clipdrop: Option<ApiParams>,
    pub palm: Option<ApiParams>,
    pub replicate: Option<ApiParams>,
    pub anthropic: Option<ApiParams>,
    pub stability: Option<ApiParams>,
    pub goose: Option<ApiParams>,
    pub cohere: Option<ApiParams>,
    pub ai21: Option<ApiParams>,
    pub together: Option<ApiParams>,
    pub scenario: Option<ApiParams>,
    pub perplexity: Option<ApiParams>,
    pub anyscale: Option<ApiParams>,
    pub replit: Option<ReplitApiParams>,
}

impl ApisConfigBuilder {
    pub fn new() -> (r: Self)
        ensures
            r.openai is None,
            r.clipdrop is None,
            r.palm is None,
            r.replicate is None,
            r.anthropic is None,
            r.stability is None,
            r.goose is None,
            r.cohere is None,
            r.ai21 is None,
            r.together is None,
            r.scenario is None,
            r.perplexity is None,
            r.anyscale is None,
            r.replit is None,
    {
        Self {
            openai: None,
            clipdrop: None,
            palm: None,
            replicate: None,
            anthropic: None,
            stability: None,
            goose: None,
            cohere: None,
            ai21: None,
            together: None,
            scenario: None,
            perplexity: None,
            anyscale: None,
            replit: None,
        }
    }

    pub fn openai(self, key: Option<String>) -> (r: Self)
        ensures
            key is None ==> r == self,
            key matches Some(k) ==> {
                &&& r.openai matches Some(p) && p.key == k && p.host@ == "api.openai.com"@
                    && p.path@ == "/openai"@ && p.timeout is None
                &&& r == (ApisConfigBuilder { openai: r.openai, ..self })
            },
    {
        match key {
            Some(k) => Self {
                openai: Some(
                    ApiParams::new().key(k).host("api.openai.com").path("/openai").timeout(None),
                ),
                ..self
            },
            None => self,
        }
    }

    pub fn clipdrop(self, key: Option<String>) -> (r: Self)
        ensures
            key is None ==> r == self,
            key matches Some(k) ==> {
                &&& r.clipdrop matches Some(p) && p.key == k && p.host@ == "clipdrop-api.co"@
                    && p.path@ == "/clipdrop"@ && p.timeout is None
                &&& r == (ApisConfigBuilder { clipdrop: r.clipdrop, ..self })
            },
    {
        match key {
            Some(k) => Self {
                clipdrop: Some(
                    ApiParams::new().key(k).host("clipdrop-api.co").path("/clipdrop").timeout(None),
                ),
                ..self
            },
            None => self,
        }
    }

    pub fn palm(self, key: Option<String>) -> (r: Self)
        ensures
            key is None ==> r == self,
            key matches Some(k) ==> {
                &&& r.palm matches Some(p) && p.key == k && p.host@
                    == "generativelanguage.googleapis.com"@ && p.path@ == "/palm"@
                    && p.timeout is None
                &&& r == (ApisConfigBuilder { palm: r.palm, ..self })
            },
    {
        match key {
            Some(k) => Self {
                palm: Some(
                    ApiParams::new().key(k).host("generativelanguage.googleapis.com").path(
                        "/palm",
                    ).timeout(None),
                ),
                ..self
            },
            None => self,
        }
    }

    pub fn replicate(self, key: Option<String>) -> (r: Self)
        ensures
            key is None ==> r == self,
            key matches Some(k) ==> {
                &&& r.replicate matches Some(p) && p.key == k && p.host@ == "api.replicate.com"@
                    && p.path@ == "/replicate"@ && p.timeout is None
                &&& r == (ApisConfigBuilder { replicate: r.replicate, ..self })
            },
    {
        match key {
            Some(k) => Self {
                replicate: Some(
                    ApiParams::new().key(k).host("api.replicate.com").path("/replicate").timeout(
                        None,
                    ),
                ),
                ..self
            },
            None => self,
        }
    }

    pub fn anthropic(self, key: Option<String>) -> (r: Self)
        ensures
            key is None ==> r == self,
            key matches Some(k) ==> {
                &&& r.anthropic matches Some(p) && p.key == k && p.host@ == "api.anthropic.com"@
                    && p.path@ == "/anthropic"@ && p.timeout is None
                &&& r == (ApisConfigBuilder { anthropic: r.anthropic, ..self })
            },
    {
        match key {
            Some(k) => Self {
                anthropic: Some(
                    ApiParams::new().key(k).host("api.anthropic.com").path("/anthropic").timeout(
                        None,
                    ),
                ),
                ..self
            },
            None => self,
        }
    }

    pub fn stability(self, key: Option<String>) -> (r: Self)
        ensures
            key is None ==> r == self,
            key matches Some(k) ==> {
                &&& r.stability matches Some(p) && p.key == k && p.host@ == "api.stability.ai"@
                    && p.path@ == "/stability"@ && p.timeout is None
                &&& r == (ApisConfigBuilder { stability: r.stability, ..self })
            },
    {
        match key {
            Some(k) => Self {
                stability: Some(
                    ApiParams::new().key(k).host("api.stability.ai").path("/stability").timeout(
                        None,
                    ),
                ),
                ..self
            },
            None => self,
        }
    }

    pub fn goose(self, key: Option<String>) -> (r: Self)
        ensures
            key is None ==> r == self,
            key matches Some(k) ==> {
                &&& r.goose matches Some(p) && p.key == k && p.host@ == "api.goose.ai"@ && p.path@
                    == "/goose"@ && p.timeout is None
                &&& r == (ApisConfigBuilder { goose: r.goose, ..self })
            },
    {
        match key {
            Some(k) => Self {
                goose: Some(
                    ApiParams::new().key(k).host("api.goose.ai").path("/goose").timeout(None),
                ),
                ..self
            },
            None => self,
        }
    }

    pub fn cohere(self, key: Option<String>) -> (r: Self)
        ensures
            key is None ==> r == self,
            key matches Some(k) ==> {
                &&& r.cohere matches Some(p) && p.key == k && p.host@ == "api.cohere.ai"@
                    && p.path@ == "/cohere"@ && p.timeout is None
                &&& r == (ApisConfigBuilder { cohere: r.cohere, ..self })
            },
    {
        match key {
            Some(k) => Self {
                cohere: Some(
                    ApiParams::new().key(k).host("api.cohere.ai").path("/cohere").timeout(None),
                ),
                ..self
            },
            None => self,
        }
    }

    pub fn ai21(self, key: Option<String>) -> (r: Self)
        ensures
            key is None ==> r == self,
            key matches Some(k) ==> {
                &&& r.ai21 matches Some(p) && p.key == k && p.host@ == "api.ai21.com"@ && p.path@
                    == "/ai21"@ && p.timeout is None
                &&& r == (ApisConfigBuilder { ai21: r.ai21, ..self })
            },
    {
        match key {
            Some(k) => Self {
                ai21: Some(ApiParams::new().key(k).host("api.ai21.com").path("/ai21").timeout(None)),
                ..self
            },
            None => self,
        }
    }

    pub fn together(self, key: Option<String>) -> (r: Self)
        ensures
            key is None ==> r == self,
            key matches Some(k) ==> {
                &&& r.together matches Some(p) && p.key == k && p.host@ == "api.together.xyz"@
                    && p.path@ == "/together"@ && p.timeout is None
                &&& r == (ApisConfigBuilder { together: r.together, ..self })
            },
    {
        match key {
            Some(k) => Self {
                together: Some(
                    ApiParams::new().key(k).host("api.together.xyz").path("/together").timeout(
                        None,
                    ),
                ),
                ..self
            },
            None => self,
        }
    }

    pub fn scenario(self, key: Option<String>) -> (r: Self)
        ensures
            key is None ==> r == self,
            key matches Some(k) ==> {
                &&& r.scenario matches Some(p) && p.key == k && p.host@ == "api.cloud.scenario.gg"@
                    && p.path@ == "/scenario"@ && p.timeout is None
                &&& r == (ApisConfigBuilder { scenario: r.scenario, ..self })
            },
    {
        match key {
            Some(k) => Self {
                scenario: Some(
                    ApiParams::new().key(k).host("api.cloud.scenario.gg").path("/scenario").timeout(
                        None,
                    ),
                ),
                ..self
            },
            None => self,
        }
    }

    pub fn perplexity(self, key: Option<String>) -> (r: Self)
        ensures
            key is None ==> r == self,
            key matches Some(k) ==> {
                &&& r.perplexity matches Some(p) && p.key == k && p.host@ == "api.perplexity.ai"@
                    && p.path@ == "/perplexity"@ && p.timeout is None
                &&& r == (ApisConfigBuilder { perplexity: r.perplexity, ..self })
            },
    {
        match key {
            Some(k) => Self {
                perplexity: Some(
                    ApiParams::new().key(k).host("api.perplexity.ai").path("/perplexity").timeout(
                        None,
                    ),
                ),
                ..self
            },
            None => self,
        }
    }

    pub fn anyscale(self, key: Option<String>) -> (r: Self)
        ensures
            key is None ==> r == self,
            key matches Some(k) ==> {
                &&& r.anyscale matches Some(p) && p.key == k && p.host@
                    == "api.endpoints.anyscale.com"@ && p.path@ == "/anyscale"@ && p.timeout is None
                &&& r == (ApisConfigBuilder { anyscale: r.anyscale, ..self })
            },
    {
        match key {
            Some(k) => Self {
                anyscale: Some(
                    ApiParams::new().key(k).host("api.endpoints.anyscale.com").path(
                        "/anyscale",
                    ).timeout(None),
                ),
                ..self
            },
            None => self,
        }
    }

    pub fn replit(self, replit: Option<ReplitApiParams>) -> (r: Self)
        ensures
            replit is None ==> r == self,
            replit is Some ==> r.replit == replit && r == (
            ApisConfigBuilder { replit: r.replit, ..self }),
    {
        match replit {
            Some(rp) => Self { replit: Some(rp), ..self },
            None => self,
        }
    }

    pub fn build(self) -> (r: ApisConfig)
        ensures
            r.openai == self.openai,
            r.clipdrop == self.clipdrop,
            r.palm == self.palm,
            r.replicate == self.replicate,
            r.anthropic == self.anthropic,
            r.stability == self.stability,
            r.goose == self.goose,
            r.cohere == self.cohere,
            r.ai21 == self.ai21,
            r.together == self.together,
            r.scenario == self.scenario,
            r.perplexity == self.perplexity,
            r.anyscale == self.anyscale,
            r.replit == self.replit,
    {
        ApisConfig {
            openai: self.openai,
            clipdrop: self.clipdrop,
            palm: self.palm,
            replicate: self.replicate,
            anthropic: self.anthropic,
            stability: self.stability,
            goose: self.goose,
            cohere: self.cohere,
            ai21: self.ai21,
            together: self.together,
            scenario: self.scenario,
            perplexity: self.perplexity,
            anyscale: self.anyscale,
            replit: self.replit,
        }
    }
}

} // verus!
