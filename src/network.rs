use crate::error::CargoError;
use crate::package::{SourceId, SourceKind};
use crate::registry::{RegistryConfig, opt_view};
use vstd::prelude::*;

verus! {

/// The index used when neither an argument nor the configuration names one.
pub open spec fn default_index() -> Seq<char> {
    "https://github.com/rust-lang/crates.io-index"@
}

/// The first of two candidates that is present.
pub fn prefer(first: Option<String>, second: Option<String>) -> (r: Option<String>)
    ensures
        r == if first is Some {
            first
        } else {
            second
        },
{
    match first {
        Some(v) => Some(v),
        None => second,
    }
}

/// What url's parser makes of `s`: its serialization, or none where it is no URL.
pub uninterp spec fn parsed_url(s: Seq<char>) -> Option<Seq<char>>;

/// Relies on url::Url::parse, and on the serialization of what it returns.
#[verifier::external_body]
fn parse_url(s: &str) -> (r: Option<String>)
    ensures
        opt_view(r) == parsed_url(s@),
{
    match url::Url::parse(s) {
        Ok(u) => Some(u.into_string()),
        Err(_) => None,
    }
}

/// The registry an operation talks to, and the token it authenticates with.
#[derive(Debug)]
pub struct RegistryTarget {
    pub token: Option<String>,
    pub index: String,
    pub source_id: SourceId,
}

/// The effective index: the argument, else the configured one, else the default.
pub open spec fn index_spec(index: Option<String>, config: RegistryConfig) -> Seq<char> {
    match index {
        Some(i) => i@,
        None => match config.index {
            Some(i) => i@,
            None => default_index(),
        },
    }
}

/// Resolves the token and the index from the arguments over the
/// configuration, and the registry source that the index names.
pub fn registry(token: Option<String>, index: Option<String>, config: RegistryConfig) -> (r: Result<
    RegistryTarget,
    CargoError,
>)
    ensures
        parsed_url(index_spec(index, config)) is None <==> r is Err,
        r is Err ==> r->Err_0 is InvalidIndexUrl,
        r is Ok ==> {
            let t = r->Ok_0;
            &&& t.token == if token is Some {
                token
            } else {
                config.token
            }
            &&& t.index@ == index_spec(index, config)
            &&& t.source_id.kind == SourceKind::Registry
            &&& Some(t.source_id.url@) == parsed_url(index_spec(index, config))
        },
{
    let RegistryConfig { index: index_config, token: token_config } = config;
    let token = prefer(token, token_config);
    let index = match prefer(index, index_config) {
        Some(i) => i,
        None => String::from_str("https://github.com/rust-lang/crates.io-index"),
    };
    match parse_url(index.as_str()) {
        Some(url) => Ok(
            RegistryTarget { token, index, source_id: SourceId { kind: SourceKind::Registry, url } },
        ),
        None => Err(CargoError::InvalidIndexUrl(index)),
    }
}

/// Settings of a transfer handle.
#[derive(Debug)]
pub struct HttpSettings {
    /// Seconds allowed to connect.
    pub connect_timeout: u64,
    /// Bytes per second under which a transfer counts as stalled.
    pub low_speed_limit: u32,
    /// Seconds a transfer may stay stalled.
    pub low_speed_time: u64,
    pub proxy: Option<String>,
}

/// Settings of a new transfer handle: refused when network access is not
/// allowed; 30 s to connect and at least 10 bytes/s over any 30 s, both
/// windows replaced by the timeout where one is set.
pub fn http_handle(network_allowed: bool, proxy: Option<String>, timeout: Option<i64>) -> (r: Result<
    HttpSettings,
    CargoError,
>)
    ensures
        !network_allowed <==> r is Err,
        r is Err ==> r->Err_0 is NetworkDisabled,
        r is Ok ==> {
            let h = r->Ok_0;
            &&& h.low_speed_limit == 10
            &&& h.proxy == proxy
            &&& timeout is None ==> h.connect_timeout == 30 && h.low_speed_time == 30
            &&& timeout is Some ==> h.connect_timeout == timeout->0 as u64 && h.low_speed_time
                == timeout->0 as u64
        },
{
    if !network_allowed {
        return Err(CargoError::NetworkDisabled);
    }
    let mut h = HttpSettings { connect_timeout: 30, low_speed_limit: 10, low_speed_time: 30, proxy };
    match timeout {
        Some(t) => {
            h.connect_timeout = t as u64;
            h.low_speed_time = t as u64;
        },
        None => {},
    }
    Ok(h)
}

/// The explicit proxy: the configured one, else the version-control tool's.
pub fn http_proxy(configured: Option<String>, vcs_configured: Option<String>) -> (r: Option<String>)
    ensures
        r == if configured is Some {
            configured
        } else {
            vcs_configured
        },
{
    prefer(configured, vcs_configured)
}

/// Whether a proxy is in use: an explicit one, or one of the proxy
/// environment variables (whether each is set is given in `env_set`).
pub fn http_proxy_exists(explicit: &Option<String>, env_set: &[bool]) -> (r: bool)
    ensures
        r == (explicit is Some || exists|i: int| 0 <= i < env_set@.len() && #[trigger] env_set@[i]),
{
    if explicit.is_some() {
        return true;
    }
    let mut i: usize = 0;
    while i < env_set.len()
        invariant
            i <= env_set@.len(),
            forall|k: int| 0 <= k < i ==> !#[trigger] env_set@[k],
        decreases env_set@.len() - i,
    {
        if env_set[i] {
            return true;
        }
        i = i + 1;
    }
    false
}

/// What `str::parse::<i64>` makes of `s`.
pub uninterp spec fn parsed_i64(s: Seq<char>) -> Option<i64>;

/// Relies on str::parse for i64.
#[verifier::external_body]
fn parse_i64(s: &str) -> (r: Option<i64>)
    ensures
        r == parsed_i64(s@),
{
    s.parse::<i64>().ok()
}

/// The transfer timeout in seconds: the configured one, else the value of the
/// environment variable where it reads as an integer.
pub fn http_timeout(configured: Option<i64>, env_value: Option<&str>) -> (r: Option<i64>)
    ensures
        configured is Some ==> r == configured,
        configured is None && env_value is None ==> r is None,
        configured is None && env_value is Some ==> r == parsed_i64(env_value->0@),
{
    match configured {
        Some(t) => Some(t),
        None => match env_value {
            Some(s) => parse_i64(s),
            None => None,
        },
    }
}

/// The entries stored under `registry` when logging in: the configured index,
/// if any, then the token.
pub fn registry_login(index: Option<String>, token: String) -> (r: Vec<(String, String)>)
    ensures
        index is Some ==> r@.len() == 2 && r@[0].0@ == "index"@ && r@[0].1 == index->0 && r@[1].0@
            == "token"@ && r@[1].1 == token,
        index is None ==> r@.len() == 1 && r@[0].0@ == "token"@ && r@[0].1 == token,
{
    let mut r: Vec<(String, String)> = Vec::new();
    match index {
        Some(i) => r.push((String::from_str("index"), i)),
        None => {},
    }
    r.push((String::from_str("token"), token));
    r
}

} // verus!
