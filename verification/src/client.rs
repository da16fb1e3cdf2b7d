use vstd::prelude::*;

use crate::error::CliError;
use crate::text::{trim_end_slashes, trim_trailing_slashes};

verus! {

#[verifier::external_type_specification]
#[verifier::external_body]
pub struct ExHttpClient(reqwest::Client);

#[verifier::external_type_specification]
#[verifier::external_body]
pub struct ExHttpError(reqwest::Error);

/// The API that requests go to when no other is set.
pub open spec fn default_base_url() -> Seq<char> {
    "https://world.openfoodfacts.net"@
}

/// The base URL that requests go to: the one set, or else the default,
/// without the `/` characters at its end.
pub open spec fn base_url_for(setting: Option<Seq<char>>) -> Seq<char> {
    match setting {
        Some(s) => trim_trailing_slashes(s),
        None => trim_trailing_slashes(default_base_url()),
    }
}

/// The `User-Agent` header that requests carry, for a program version.
pub open spec fn user_agent_for(version: Seq<char>) -> Seq<char> {
    "openfoodfacts-cli/"@ + version + " (https://github.com/alfredvc/openfoodfacts-cli)"@
}

/// The base URL that requests go to, from the setting of `OFF_BASE_URL`
/// (`None` where it is not set).
pub fn resolve_base_url(setting: Option<String>) -> (r: String)
    ensures
        r@ == base_url_for(match setting {
            Some(s) => Some(s@),
            None => None,
        }),
{
    match setting {
        Some(s) => trim_end_slashes(s.as_str()),
        None => trim_end_slashes("https://world.openfoodfacts.net"),
    }
}

/// The `User-Agent` header for a program version.
pub fn user_agent(version: &str) -> (r: String)
    ensures
        r@ == user_agent_for(version@),
{
    let mut s = String::from_str("openfoodfacts-cli/");
    s.append(version);
    s.append(" (https://github.com/alfredvc/openfoodfacts-cli)");
    s
}

/// Builds reqwest's asynchronous client with the given `User-Agent` header,
/// by `reqwest::Client::builder().user_agent(..).build()`. A client that is
/// built comes with a ghost record of the header value it was given, which is
/// what the contract states. Nothing is stated of whether building succeeds:
/// it reads the system's resolver and proxy settings and sets up TLS, any of
/// which may fail.
#[verifier::external_body]
fn build_http_client(user_agent: &String) -> (r: Result<(reqwest::Client, Ghost<Seq<char>>), reqwest::Error>)
    ensures
        r matches Ok((_, agent)) ==> agent@ == user_agent@,
{
    match reqwest::Client::builder().user_agent(user_agent.as_str()).build() {
        Ok(client) => Ok((client, Ghost(user_agent@))),
        Err(e) => Err(e),
    }
}

/// The canonical reason phrase of an HTTP status code, as the `http` crate's
/// table of status codes gives it.
pub uninterp spec fn canonical_reason(code: u16) -> Option<Seq<char>>;

/// The reason phrase of a status code, by reqwest's
/// `StatusCode::from_u16(code)` and `canonical_reason()`. The contract names
/// the result: it is the entry of the code in the `http` crate's table.
#[verifier::external_body]
fn status_reason(code: u16) -> (r: Option<String>)
    requires
        100 <= code <= 999,
    ensures
        match r {
            Some(s) => canonical_reason(code) == Some(s@),
            None => canonical_reason(code) is None,
        },
{
    match reqwest::StatusCode::from_u16(code) {
        Ok(status) => match status.canonical_reason() {
            Some(reason) => Some(reason.to_string()),
            None => None,
        },
        Err(_) => None,
    }
}

/// Checks the HTTP status of the answer to a request of `path`. 429 and 403
/// are the rate limit; 404 is not found; any other status outside 200-299 is
/// an API error that carries the status and its reason phrase.
pub fn check_status(path: &str, status: u16) -> (r: Result<(), CliError>)
    requires
        100 <= status <= 999,
    ensures
        (status == 429 || status == 403) ==> r == Err::<(), CliError>(CliError::RateLimited),
        status == 404 ==> (r matches Err(CliError::NotFound { path: p }) && p@ == path@),
        (status != 429 && status != 403 && status != 404 && !(200 <= status < 300)) ==> (r matches Err(
            CliError::Api { status: s, reason },
        ) && s == status && match reason {
            Some(t) => canonical_reason(status) == Some(t@),
            None => canonical_reason(status) is None,
        }),
        (200 <= status < 300) ==> r is Ok,
{
    if status == 429 || status == 403 {
        Err(CliError::RateLimited)
    } else if status == 404 {
        Err(CliError::NotFound { path: String::from_str(path) })
    } else if !(200 <= status && status < 300) {
        Err(CliError::Api { status, reason: status_reason(status) })
    } else {
        Ok(())
    }
}

/// The client that talks to the Open Food Facts API.
pub struct ApiClient {
    inner: reqwest::Client,
    agent: Ghost<Seq<char>>,
    base_url: String,
}

impl View for ApiClient {
    /// A client is known by the base URL that its requests go to.
    type V = Seq<char>;

    closed spec fn view(&self) -> Seq<char> {
        self.base_url@
    }
}

impl ApiClient {
    /// Sets up the client: the base URL from the setting of `OFF_BASE_URL`
    /// (`None` where it is not set), and an HTTP client that sends the
    /// `User-Agent` header for `version`.
    pub fn new(base_url_setting: Option<String>, version: &str) -> (r: Result<ApiClient, CliError>)
        ensures
            r matches Ok(c) ==> c@ == base_url_for(match base_url_setting {
                Some(s) => Some(s@),
                None => None,
            }),
            r matches Ok(c) ==> c.sent_user_agent() == user_agent_for(version@),
            r matches Err(e) ==> e == CliError::HttpClient,
    {
        let base_url = resolve_base_url(base_url_setting);
        let agent = user_agent(version);
        match build_http_client(&agent) {
            Ok((inner, agent)) => Ok(ApiClient { inner, agent, base_url }),
            Err(_) => Err(CliError::HttpClient),
        }
    }

    /// The `User-Agent` header that the HTTP client was built to send with
    /// every request.
    pub closed spec fn sent_user_agent(&self) -> Seq<char> {
        self.agent@
    }

    /// The base URL that requests go to.
    pub fn base_url(&self) -> (r: &String)
        ensures
            r@ == self@,
    {
        &self.base_url
    }

    /// The HTTP client that this client holds, set up by [`ApiClient::new`].
    pub closed spec fn http_client(&self) -> reqwest::Client {
        self.inner
    }

    /// The HTTP client that requests are sent with: the one this client holds.
    pub fn http(&self) -> (r: &reqwest::Client)
        ensures
            *r == self.http_client(),
    {
        &self.inner
    }

    /// The URL of a request of `path`.
    pub fn request_url(&self, path: &str) -> (r: String)
        ensures
            r@ == self@ + path@,
    {
        let mut url = self.base_url.clone();
        url.append(path);
        url
    }
}

} // verus!
