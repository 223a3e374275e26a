//! Resolves the manager endpoint that the client asks for a worker
//! assignment.
//!
//! The resolved URL is used verbatim. There is deliberately no fallback to the
//! public endpoint when a configured manager is unreachable: silently
//! redirecting a self-hosted or staging deployment at production would make a
//! misconfigured client look healthy.
use vstd::prelude::*;
use vstd::string::*;
use crate::error::{OddSocketsError, Result, opt_text};
use crate::text::{owned, str_eq, trim, trimmed, trim_end_char, trimmed_end};
use crate::types::constants;

verus! {

/// Environment variable consulted when no manager URL was configured.
pub const MANAGER_URL_ENV_VAR: &'static str = "ODDSOCKETS_MANAGER_URL";

/// The scheme and the host of `text` as the `url` crate parses it, or nothing
/// when it does not parse as an absolute URL.
pub uninterp spec fn url_scheme_host(text: Seq<char>) -> Option<(Seq<char>, Option<Seq<char>>)>;

/// `url::Url::parse(text)`, keeping `scheme()` and `host_str()` of the result.
#[verifier::external_body]
fn parse_scheme_host(text: &str) -> (r: Option<(String, Option<String>)>)
    ensures
        match r {
            Some((scheme, host)) => url_scheme_host(text@) == Some((scheme@, opt_text(host))),
            None => url_scheme_host(text@) is None,
        },
{
    match url::Url::parse(text) {
        Ok(parsed) => Some((parsed.scheme().to_string(), parsed.host_str().map(|h| h.to_string()))),
        Err(_) => None,
    }
}

/// `value` trimmed of surrounding whitespace and of trailing slashes.
pub open spec fn normalized(value: Seq<char>) -> Seq<char> {
    trimmed_end(trimmed(value), '/')
}

/// Whether a parse result names an absolute `http`/`https` URL with a host.
pub open spec fn is_http_url(parsed: Option<(Seq<char>, Option<Seq<char>>)>) -> bool {
    match parsed {
        Some((scheme, host)) => (scheme == "http"@ || scheme == "https"@) && match host {
            Some(h) => h.len() > 0,
            None => false,
        },
        None => false,
    }
}

/// The view of a parse result.
pub open spec fn parsed_view(parsed: Option<(String, Option<String>)>) -> Option<
    (Seq<char>, Option<Seq<char>>),
> {
    match parsed {
        Some((scheme, host)) => Some((scheme@, opt_text(host))),
        None => None,
    }
}

/// The outcome of validating `value`, whose normalized form parsed to
/// `parsed`.
pub open spec fn validated(
    value: Seq<char>,
    parsed: Option<(Seq<char>, Option<Seq<char>>)>,
    r: Result<String>,
) -> bool {
    if is_http_url(parsed) {
        r matches Ok(url) && url@ == normalized(value)
    } else {
        r matches Err(OddSocketsError::InvalidConfiguration { message }) && message@
            == "Invalid managerUrl: "@ + value
    }
}

/// Accepts `value` when its normalized form parsed (`parsed`) as an
/// absolute `http`/`https` URL with a host; returns that normalized form.
pub fn accept_manager_url(value: &str, parsed: Option<(String, Option<String>)>) -> (r: Result<
    String,
>)
    ensures
        validated(value@, parsed_view(parsed), r),
{
    let is_http = match &parsed {
        Some((scheme, host)) => (str_eq(scheme.as_str(), "http") || str_eq(
            scheme.as_str(),
            "https",
        )) && match host {
            Some(h) => !h.as_str().is_empty(),
            None => false,
        },
        None => false,
    };
    if !is_http {
        return Err(
            OddSocketsError::InvalidConfiguration {
                message: owned("Invalid managerUrl: ").concat(value),
            },
        );
    }
    let t = trim(value);
    Ok(trim_end_char(t.as_str(), '/'))
}

/// Validates a manager URL and returns it without surrounding whitespace and
/// trailing slashes.
pub fn validate_manager_url(value: &str) -> (r: Result<String>)
    ensures
        validated(value@, url_scheme_host(normalized(value@)), r),
{
    let t = trim(value);
    let n = trim_end_char(t.as_str(), '/');
    let parsed = parse_scheme_host(n.as_str());
    accept_manager_url(value, parsed)
}

/// The text of an optional string slice.
pub open spec fn opt_str(s: Option<&str>) -> Option<Seq<char>> {
    match s {
        Some(t) => Some(t@),
        None => None,
    }
}

/// The manager URL chosen: the configured value, else the environment's,
/// else the built-in default; blank values count as absent.
pub open spec fn chosen_manager_url(configured: Option<Seq<char>>, environment: Option<Seq<char>>) -> Seq<char> {
    match configured {
        Some(c) if trimmed(c).len() > 0 => trimmed(c),
        _ => match environment {
            Some(e) if trimmed(e).len() > 0 => trimmed(e),
            _ => constants::DEFAULT_MANAGER_URL@,
        },
    }
}

/// Resolves the manager URL from the configured value and the value of the
/// `ODDSOCKETS_MANAGER_URL` environment variable (either may be absent), then
/// validates it.
pub fn resolve_manager_url(configured: Option<&str>, environment: Option<&str>) -> (r: Result<String>)
    ensures
        validated(
            chosen_manager_url(opt_str(configured), opt_str(environment)),
            url_scheme_host(normalized(chosen_manager_url(opt_str(configured), opt_str(environment)))),
            r,
        ),
{
    let from_config = match configured {
        Some(c) => {
            let t = trim(c);
            if !t.as_str().is_empty() { Some(t) } else { None }
        },
        None => None,
    };
    let candidate = match from_config {
        Some(t) => t,
        None => {
            let from_env = match environment {
                Some(e) => {
                    let t = trim(e);
                    if !t.as_str().is_empty() { Some(t) } else { None }
                },
                None => None,
            };
            match from_env {
                Some(t) => t,
                None => owned(constants::DEFAULT_MANAGER_URL),
            }
        },
    };
    validate_manager_url(candidate.as_str())
}

/// Holds the single manager endpoint this client talks to.
#[derive(Debug, Clone)]
pub struct ManagerDiscovery {
    manager_url: String,
}

impl ManagerDiscovery {
    /// The manager URL, without trailing slashes.
    pub closed spec fn url(&self) -> Seq<char> {
        self.manager_url@
    }

    /// Creates a discovery service for the configured manager URL and the
    /// value of the environment variable, if any.
    pub fn new(configured: Option<&str>, environment: Option<&str>) -> (r: Result<ManagerDiscovery>)
        ensures
            ({
                let chosen = chosen_manager_url(opt_str(configured), opt_str(environment));
                match r {
                    Ok(d) => is_http_url(url_scheme_host(normalized(chosen))) && d.url() == normalized(chosen),
                    Err(e) => !is_http_url(url_scheme_host(normalized(chosen))) && (e matches OddSocketsError::InvalidConfiguration { message } && message@ == "Invalid managerUrl: "@ + chosen),
                }
            }),
    {
        match resolve_manager_url(configured, environment) {
            Ok(manager_url) => Ok(ManagerDiscovery { manager_url }),
            Err(e) => Err(e),
        }
    }

    /// The manager URL this instance was built with.
    pub fn discover_manager_url(&self) -> (r: Result<String>)
        ensures
            r matches Ok(u) && u@ == self.url(),
    {
        Ok(self.manager_url.clone())
    }

    /// Returns the manager URL this instance was built with.
    pub fn manager_url(&self) -> (r: &str)
        ensures
            r@ == self.url(),
    {
        self.manager_url.as_str()
    }
}

} // verus!

verus! {

/// A configured manager URL is used as given (trimmed); the environment and
/// the built-in default apply only when nothing was configured.
pub proof fn lemma_configured_url_wins(configured: Seq<char>, environment: Option<Seq<char>>)
    requires
        trimmed(configured).len() > 0,
    ensures
        chosen_manager_url(Some(configured), environment) == trimmed(configured),
{
}

/// With nothing configured anywhere, the built-in default is chosen.
pub proof fn lemma_default_when_unconfigured()
    ensures
        chosen_manager_url(None, None) == constants::DEFAULT_MANAGER_URL@,
{
}

/// A validated manager URL never ends with a slash.
pub proof fn lemma_normalized_no_trailing_slash(value: Seq<char>)
    ensures
        normalized(value).len() == 0 || normalized(value).last() != '/',
{
    let t = trimmed(value);
    crate::text::lemma_trimmed_end_last(t, '/');
}

} // verus!
