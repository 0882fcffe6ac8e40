//! Transport configuration and the client handle.
//!
//! Construction resolves each setting from the explicit configuration, else
//! from the caller-supplied environment snapshot, else from a hard default;
//! it fails fast, before any request is built, when no API key resolves from
//! any source.  No network contact happens here: the resolved client is a
//! plain immutable value that every facade shares.

use vstd::prelude::*;

verus! {

use vstd::string::StringExecFns;
use crate::agents::AgentAPI;
use crate::errors::Error;
use crate::memory::MemoryAPI;
use crate::tasks::TaskAPI;
use crate::errors::ErrorV;
use crate::request::DescriptorView;
use crate::request::Method;
use crate::request::RequestDescriptor;
use crate::request::append_query_string;
use crate::request::url_of;
use crate::text::strip_leading_slashes;
use crate::text::strip_trailing_slashes;
use crate::text::trim_leading_slashes;
use crate::text::trim_trailing_slashes;

/// Configuration for the client, each field optional.
#[derive(Debug, Clone)]
pub struct ClientConfig {
    /// API key. When absent, the `BLACKROAD_API_KEY` environment value is used.
    pub api_key: Option<String>,
    /// Base URL. When absent, the `BLACKROAD_API_URL` environment value is
    /// used, and failing that a fixed production URL.
    pub base_url: Option<String>,
    /// Request timeout in seconds. Defaults to 30.
    pub timeout_secs: Option<u64>,
    /// Maximum retry attempts. Defaults to 3.
    pub max_retries: Option<u32>,
}

impl Default for ClientConfig {
    fn default() -> (r: Self)
        ensures
            r.api_key is None,
            r.base_url is None,
            r.timeout_secs is None,
            r.max_retries is None,
    {
        ClientConfig { api_key: None, base_url: None, timeout_secs: None, max_retries: None }
    }
}

/// A candidate API key, with an empty value counting as absent: the
/// configuration invariant wants a non-empty key.
pub open spec fn nonempty_key(o: Option<String>) -> Option<Seq<char>> {
    match o {
        Some(k) => if k@.len() > 0 {
            Some(k@)
        } else {
            None
        },
        None => None,
    }
}

/// The API key that construction resolves: the explicit one, else the
/// environment one, else none; an empty value never resolves.
pub open spec fn resolved_api_key(config: ClientConfig, env_api_key: Option<String>) -> Option<
    Seq<char>,
> {
    match nonempty_key(config.api_key) {
        Some(k) => Some(k),
        None => nonempty_key(env_api_key),
    }
}

/// The base URL that construction resolves, trailing slashes stripped:
/// the explicit one, else the environment one, else the fixed default.
pub open spec fn resolved_base_url(config: ClientConfig, env_base_url: Option<String>) -> Seq<
    char,
> {
    strip_trailing_slashes(
        match config.base_url {
            Some(u) => u@,
            None => match env_base_url {
                Some(u) => u@,
                None => "https://api.blackroad.io/v1"@,
            },
        },
    )
}

/// The timeout that construction resolves.
pub open spec fn resolved_timeout_secs(config: ClientConfig) -> u64 {
    match config.timeout_secs {
        Some(t) => t,
        None => 30,
    }
}

/// The retry count that construction resolves: the explicit count raised to
/// at least one attempt (the configuration invariant), else 3.
pub open spec fn resolved_max_retries(config: ClientConfig) -> u32 {
    match config.max_retries {
        Some(m) => if m >= 1 {
            m
        } else {
            1
        },
        None => 3,
    }
}

/// The error construction fails with when no API key is available.
pub open spec fn missing_key_error() -> ErrorV {
    ErrorV::Authentication(
        "API key required. Set BLACKROAD_API_KEY environment variable or pass api_key in config."@,
    )
}

/// The resolved, immutable client handle shared by all facades.
#[derive(Debug)]
pub struct BlackRoadClient {
    pub api_key: String,
    pub base_url: String,
    pub timeout_secs: u64,
    pub max_retries: u32,
}

impl Clone for BlackRoadClient {
    fn clone(&self) -> (r: Self)
        ensures
            r == *self,
    {
        BlackRoadClient {
            api_key: self.api_key.clone(),
            base_url: self.base_url.clone(),
            timeout_secs: self.timeout_secs,
            max_retries: self.max_retries,
        }
    }
}

impl BlackRoadClient {
    /// The configuration invariant of a constructed client: a non-empty API
    /// key, a base URL without a trailing slash, and at least one attempt.
    pub open spec fn wf(&self) -> bool {
        &&& self.api_key@.len() > 0
        &&& (self.base_url@.len() == 0 || self.base_url@.last() != '/')
        &&& self.max_retries >= 1
    }

    /// Creates a client from an explicit configuration and a snapshot of the
    /// two environment values (`BLACKROAD_API_KEY`, `BLACKROAD_API_URL`).
    ///
    /// Each setting resolves explicit value first, environment second, hard
    /// default third; an empty key counts as absent, and the retry count is
    /// raised to at least one attempt.  Construction fails, with an
    /// authentication error and before any network contact, exactly when no
    /// API key resolves.
    pub fn new(config: ClientConfig, env_api_key: Option<String>, env_base_url: Option<String>) -> (r:
        Result<BlackRoadClient, Error>)
        ensures
            r is Err <==> resolved_api_key(config, env_api_key) is None,
            r matches Err(e) ==> e@ == missing_key_error(),
            r matches Ok(c) ==> {
                &&& Some(c.api_key@) == resolved_api_key(config, env_api_key)
                &&& c.base_url@ == resolved_base_url(config, env_base_url)
                &&& c.timeout_secs == resolved_timeout_secs(config)
                &&& c.max_retries == resolved_max_retries(config)
                &&& c.wf()
            },
    {
        let explicit_key: Option<String> = match config.api_key {
            Some(k) => if k.as_str().is_empty() {
                None
            } else {
                Some(k)
            },
            None => None,
        };
        let resolved_key: Option<String> = match explicit_key {
            Some(k) => Some(k),
            None => match env_api_key {
                Some(k) => if k.as_str().is_empty() {
                    None
                } else {
                    Some(k)
                },
                None => None,
            },
        };
        let api_key: String = match resolved_key {
            Some(k) => k,
            None => {
                return Err(
                    Error::Authentication(
                        String::from_str(
                            "API key required. Set BLACKROAD_API_KEY environment variable or pass api_key in config.",
                        ),
                    ),
                );
            },
        };
        let ghost base_candidate: Seq<char> = match &config.base_url {
            Some(u) => u@,
            None => match &env_base_url {
                Some(u) => u@,
                None => "https://api.blackroad.io/v1"@,
            },
        };
        let base_source: String = match config.base_url {
            Some(u) => u,
            None => match env_base_url {
                Some(u) => u,
                None => String::from_str("https://api.blackroad.io/v1"),
            },
        };
        let base_url: String = trim_trailing_slashes(base_source.as_str());
        let timeout_secs: u64 = match config.timeout_secs {
            Some(t) => t,
            None => 30,
        };
        let max_retries: u32 = match config.max_retries {
            Some(m) => if m >= 1 {
                m
            } else {
                1
            },
            None => 3,
        };
        proof {
            crate::text::lemma_strip_trailing_slashes(base_candidate);
        }
        Ok(BlackRoadClient { api_key, base_url, timeout_secs, max_retries })
    }

    /// The agents facade, sharing this client.
    pub fn agents(&self) -> (r: AgentAPI)
        ensures
            r.client == *self,
    {
        AgentAPI::new(self.clone())
    }

    /// The tasks facade, sharing this client.
    pub fn tasks(&self) -> (r: TaskAPI)
        ensures
            r.client == *self,
    {
        TaskAPI::new(self.clone())
    }

    /// The memory facade, sharing this client.
    pub fn memory(&self) -> (r: MemoryAPI)
        ensures
            r.client == *self,
    {
        MemoryAPI::new(self.clone())
    }

    /// The full URL for a request: base URL, one joining slash, the endpoint
    /// with leading slashes stripped, then the percent-encoded query string.
    pub fn request_url(&self, desc: &RequestDescriptor) -> (r: String)
        ensures
            r@ == url_of(self.base_url@, desc.path@, desc@.query),
    {
        proof {
            reveal_strlit("/");
        }
        let mut url: String = self.base_url.clone();
        url.append("/");
        url.append(trim_leading_slashes(desc.path.as_str()));
        append_query_string(&mut url, &desc.query);
        proof {
            assert(url@ =~= url_of(self.base_url@, desc.path@, desc@.query));
        }
        url
    }

    /// The three fixed headers attached to every request.
    pub fn headers(&self) -> (r: Vec<(String, String)>)
        ensures
            r@.len() == 3,
            r@[0].0@ == "Authorization"@,
            r@[0].1@ == "Bearer "@ + self.api_key@,
            r@[1].0@ == "Content-Type"@,
            r@[1].1@ == "application/json"@,
            r@[2].0@ == "User-Agent"@,
            r@[2].1@ == "blackroad-rust/1.0.0"@,
    {
        let mut auth: String = String::from_str("Bearer ");
        auth.append(self.api_key.as_str());
        let mut out: Vec<(String, String)> = Vec::new();
        out.push((String::from_str("Authorization"), auth));
        out.push((String::from_str("Content-Type"), String::from_str("application/json")));
        out.push((String::from_str("User-Agent"), String::from_str("blackroad-rust/1.0.0")));
        out
    }

    /// The request that checks the service's health status.
    pub fn health(&self) -> (r: RequestDescriptor)
        ensures
            r@ == health_desc(),
    {
        let r = RequestDescriptor {
            method: Method::Get,
            path: String::from_str("/health"),
            query: Vec::new(),
            body: None,
            envelope: None,
        };
        proof {
            assert(r@.query =~= health_desc().query);
        }
        r
    }

    /// The request that asks for the service's version; the interesting part
    /// of the response arrives under the `version` key.
    pub fn version(&self) -> (r: RequestDescriptor)
        ensures
            r@ == version_desc(),
    {
        let r = RequestDescriptor {
            method: Method::Get,
            path: String::from_str("/version"),
            query: Vec::new(),
            body: None,
            envelope: Some(String::from_str("version")),
        };
        proof {
            assert(r@.query =~= version_desc().query);
        }
        r
    }
}

/// The health-check request.
pub open spec fn health_desc() -> DescriptorView {
    DescriptorView {
        method: Method::Get,
        path: "/health"@,
        query: Seq::empty(),
        body: None,
        envelope: None,
    }
}

/// The version request.
pub open spec fn version_desc() -> DescriptorView {
    DescriptorView {
        method: Method::Get,
        path: "/version"@,
        query: Seq::empty(),
        body: None,
        envelope: Some("version"@),
    }
}

/// For every configuration, the stored base URL never ends in a slash, so
/// every composed request URL has exactly one slash at the join point:
/// `'/'` stands right after the base, with no `'/'` directly before it nor
/// (from the endpoint side) directly after it.
pub proof fn lemma_urls_have_no_double_slash_at_join(
    config: ClientConfig,
    env_base_url: Option<String>,
    path: Seq<char>,
    query: Seq<(Seq<char>, Seq<char>)>,
)
    ensures
        ({
            let base = resolved_base_url(config, env_base_url);
            let url = url_of(base, path, query);
            &&& url[base.len() as int] == '/'
            &&& base.len() > 0 ==> url[base.len() - 1] != '/'
            &&& strip_leading_slashes(path).len() > 0 ==> url[base.len() as int + 1] != '/'
        }),
{
    let base = resolved_base_url(config, env_base_url);
    let stripped = strip_leading_slashes(path);
    let url = url_of(base, path, query);
    crate::text::lemma_strip_trailing_slashes(
        match config.base_url {
            Some(u) => u@,
            None => match env_base_url {
                Some(u) => u@,
                None => "https://api.blackroad.io/v1"@,
            },
        },
    );
    crate::text::lemma_strip_leading_slashes(path);
    assert(url[base.len() as int] == '/');
    if base.len() > 0 {
        assert(url[base.len() - 1] == base.last());
    }
    if stripped.len() > 0 {
        assert(url[base.len() as int + 1] == stripped.first());
    }
}

} // verus!
