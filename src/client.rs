//! Session state, registry endpoints and request construction.
use vstd::prelude::*;
use vstd::string::StringExecFns;
use crate::error::{ApiError, ErrorModel};
use crate::json::{json_quoted, quote};

verus! {

/// Whether `s` parses as an HTTP URI.
pub uninterp spec fn uri_valid(s: Seq<char>) -> bool;

/// Relies on `FromStr` for `chrootable_https::Uri` (http's `Uri`): it accepts
/// exactly the strings that are URIs.
#[verifier::external_body]
fn parse_uri(s: &str) -> (r: bool)
    ensures
        r == uri_valid(s@),
{
    s.parse::<chrootable_https::Uri>().is_ok()
}

/// A character that may stand in an HTTP header value: http admits every byte
/// from 32 up but 127, and the tab; a character outside ASCII is written in
/// such bytes alone.
pub open spec fn header_char_ok(c: char) -> bool {
    (c as u32 >= 32 && c as u32 != 127) || c == '\t'
}

/// Whether `s` is a valid HTTP header value.
pub open spec fn header_value_valid(s: Seq<char>) -> bool {
    forall|i: int| 0 <= i < s.len() ==> #[trigger] header_char_ok(s[i])
}

/// Relies on `chrootable_https::header::HeaderValue::from_str`, which accepts a
/// string exactly when each of its bytes is a tab, or from 32 up but not 127.
#[verifier::external_body]
fn header_value_ok(s: &str) -> (r: bool)
    ensures
        r == header_value_valid(s@),
{
    chrootable_https::header::HeaderValue::from_str(s).is_ok()
}

/// A sample drawn from `rand::distributions::Alphanumeric`: an ASCII letter or digit.
pub open spec fn is_alphanumeric(c: char) -> bool {
    ('a' <= c && c <= 'z') || ('A' <= c && c <= 'Z') || ('0' <= c && c <= '9')
}

/// Relies on sampling `rand::distributions::Alphanumeric` with `rand::thread_rng`,
/// which yields one byte among the ASCII letters and digits.
#[verifier::external_body]
fn random_alphanumeric() -> (r: char)
    ensures
        is_alphanumeric(r),
{
    rand::Rng::sample(&mut rand::thread_rng(), rand::distributions::Alphanumeric) as char
}

/// Relies on `String::push`, which appends one character.
#[verifier::external_body]
fn push_char(s: &mut String, c: char)
    ensures
        final(s)@ == old(s)@.push(c),
{
    s.push(c)
}

/// The length of a session token drawn by `Client::random_session`.
pub const SESSION_TOKEN_LEN: usize = 32;

/// The HTTP method of a request.
#[derive(Clone, Copy, Debug, PartialEq, Eq, Structural)]
pub enum Method {
    Get,
    Post,
}

/// One HTTP header.
#[derive(Clone, Debug, PartialEq, Eq)]
pub struct Header {
    pub name: String,
    pub value: String,
}

/// A request ready for the transport: method, URL, headers in order, body.
#[derive(Clone, Debug, PartialEq, Eq)]
pub struct ApiRequest {
    pub method: Method,
    pub url: String,
    pub headers: Vec<Header>,
    pub body: String,
}

/// The mathematical value of an `ApiRequest`.
pub struct RequestModel {
    pub method: Method,
    pub url: Seq<char>,
    pub headers: Seq<(Seq<char>, Seq<char>)>,
    pub body: Seq<char>,
}

/// The view of a header: name and value.
pub open spec fn header_model(h: Header) -> (Seq<char>, Seq<char>) {
    (h.name@, h.value@)
}

impl View for ApiRequest {
    type V = RequestModel;

    open spec fn view(&self) -> RequestModel {
        RequestModel {
            method: self.method,
            url: self.url@,
            headers: self.headers@.map_values(|h: Header| header_model(h)),
            body: self.body@,
        }
    }
}

/// The header that carries the session token.
pub open spec fn auth_header(token: Seq<char>) -> (Seq<char>, Seq<char>) {
    ("Auth"@, token)
}

/// The header that announces a JSON body.
pub open spec fn content_type_header() -> (Seq<char>, Seq<char>) {
    ("Content-Type"@, "application/json; charset=utf-8"@)
}

/// The headers of a request: `Auth` when a token is set, then `Content-Type`
/// when there is a body.
pub open spec fn headers_spec(session: Option<Seq<char>>, body: Seq<char>) -> Seq<(Seq<char>, Seq<char>)> {
    let auth = match session {
        Some(t) => seq![auth_header(t)],
        None => Seq::empty(),
    };
    if body.len() > 0 {
        auth.push(content_type_header())
    } else {
        auth
    }
}

/// The request built for `method`, `url` and `body` in a session with token
/// `session`; a token that cannot stand in a header fails the build.
pub open spec fn request_spec(session: Option<Seq<char>>, method: Method, url: Seq<char>, body: Seq<char>) -> Result<RequestModel, ErrorModel> {
    if session matches Some(t) && !header_value_valid(t) {
        Err(ErrorModel::RequestBuild)
    } else {
        Ok(RequestModel { method, url, headers: headers_spec(session, body), body })
    }
}

/// A GET or POST request to `url`: the URL must parse first.
pub open spec fn call_spec(session: Option<Seq<char>>, method: Method, url: Seq<char>, body: Seq<char>) -> Result<RequestModel, ErrorModel> {
    if !uri_valid(url) {
        Err(ErrorModel::InvalidUrl)
    } else {
        request_spec(session, method, url, body)
    }
}

/// The JSON body of a publish request for the module source `code`.
pub open spec fn publish_body_spec(code: Seq<char>) -> Seq<char> {
    "{\"code\":"@ + json_quoted(code) + "}"@
}

/// The view of an optional string.
pub open spec fn opt_view(s: Option<String>) -> Option<Seq<char>> {
    match s {
        Some(t) => Some(t@),
        None => None,
    }
}

/// The view of a built request, or of the error that stopped it.
pub open spec fn built_view(r: Result<ApiRequest, ApiError>) -> Result<RequestModel, ErrorModel> {
    match r {
        Ok(q) => Ok(q@),
        Err(e) => Err(e@),
    }
}

/// The URL of the session-verification endpoint under `base`.
pub open spec fn whoami_url_spec(base: Seq<char>) -> Seq<char> {
    base + "/api/v0/whoami"@
}

/// The URL of the publish endpoint for module `name` under `base`.
pub open spec fn publish_url_spec(base: Seq<char>, name: Seq<char>) -> Seq<char> {
    base + "/api/v0/publish/"@ + name
}

/// The URL of the download endpoint for `module` at `version` under `base`.
pub open spec fn download_url_spec(base: Seq<char>, module: Seq<char>, version: Seq<char>) -> Seq<char> {
    base + "/api/v0/dl/"@ + module + "/"@ + version
}

/// The URL of the metadata endpoint for `module` under `base`.
pub open spec fn info_url_spec(base: Seq<char>, module: Seq<char>) -> Seq<char> {
    base + "/api/v0/info/"@ + module
}

/// Session state of a registry client: the registry's base address and the
/// token that proves the caller's identity, once one is set.
pub struct Client {
    server: String,
    session: Option<String>,
}

/// The mathematical value of a `Client`: base address and session token.
pub struct ClientModel {
    pub server: Seq<char>,
    pub session: Option<Seq<char>>,
}

impl View for Client {
    type V = ClientModel;

    closed spec fn view(&self) -> ClientModel {
        ClientModel { server: self.server@, session: opt_view(self.session) }
    }
}

/// The JSON body of a publish request: an object whose one member `code`
/// holds the module source.
pub fn publish_body(code: &str) -> (r: String)
    ensures
        r@ == publish_body_spec(code@),
{
    let mut b = String::from_str("{\"code\":");
    let q = quote(code);
    b.append(q.as_str());
    b.append("}");
    b
}

impl Client {
    /// A client for the registry at `server`, with no session token.
    pub fn new(server: String) -> (r: Client)
        ensures
            r@.server == server@,
            r@.session is None,
    {
        Client { server, session: None }
    }

    /// Stores `session` as the token sent with every later request,
    /// replacing any earlier one.
    pub fn authenticate(&mut self, session: String)
        ensures
            final(self)@.server == old(self)@.server,
            final(self)@.session == Some(session@),
    {
        self.session = Some(session);
    }

    /// A fresh session token: `SESSION_TOKEN_LEN` characters, each an ASCII
    /// letter or digit drawn at random.
    pub fn random_session() -> (r: String)
        ensures
            r@.len() == SESSION_TOKEN_LEN,
            forall|i: int| 0 <= i < r@.len() ==> #[trigger] is_alphanumeric(r@[i]),
    {
        let mut s = String::new();
        let mut n: usize = 0;
        while n < SESSION_TOKEN_LEN
            invariant
                n <= SESSION_TOKEN_LEN,
                s@.len() == n,
                forall|i: int| 0 <= i < s@.len() ==> #[trigger] is_alphanumeric(s@[i]),
            decreases SESSION_TOKEN_LEN - n,
        {
            let c = random_alphanumeric();
            push_char(&mut s, c);
            n = n + 1;
        }
        s
    }

    /// Assembles a request: `Auth` carries the session token when one is set,
    /// and `Content-Type` announces a body that is not empty.
    pub fn request(&self, method: Method, url: String, body: String) -> (r: Result<ApiRequest, ApiError>)
        ensures
            built_view(r) == request_spec(self@.session, method, url@, body@),
    {
        let mut headers: Vec<Header> = Vec::new();
        match &self.session {
            Some(t) => {
                if !header_value_ok(t.as_str()) {
                    return Err(ApiError::RequestBuild);
                }
                headers.push(Header { name: String::from_str("Auth"), value: t.clone() });
            },
            None => {},
        }
        if !body.as_str().is_empty() {
            headers.push(Header {
                name: String::from_str("Content-Type"),
                value: String::from_str("application/json; charset=utf-8"),
            });
        }
        let r = ApiRequest { method, url, headers, body };
        assert(r@.headers =~= headers_spec(self@.session, body@));
        Ok(r)
    }

    /// A GET request to `url`, with no body.
    pub fn get(&self, url: &str) -> (r: Result<ApiRequest, ApiError>)
        ensures
            built_view(r) == call_spec(self@.session, Method::Get, url@, Seq::empty()),
    {
        if !parse_uri(url) {
            return Err(ApiError::InvalidUrl);
        }
        self.request(Method::Get, String::from_str(url), String::new())
    }

    /// A POST request to `url` that sends the JSON text `body`.
    pub fn post(&self, url: &str, body: String) -> (r: Result<ApiRequest, ApiError>)
        ensures
            built_view(r) == call_spec(self@.session, Method::Post, url@, body@),
    {
        if !parse_uri(url) {
            return Err(ApiError::InvalidUrl);
        }
        self.request(Method::Post, String::from_str(url), body)
    }

    /// The request that asks the registry whose session this is.
    pub fn verify_session_request(&self) -> (r: Result<ApiRequest, ApiError>)
        ensures
            built_view(r) == call_spec(self@.session, Method::Get, whoami_url_spec(self@.server), Seq::empty()),
    {
        let url = self.whoami_url();
        self.get(url.as_str())
    }

    /// The request that publishes the module source `code` under `name`.
    pub fn publish_request(&self, name: &str, code: &str) -> (r: Result<ApiRequest, ApiError>)
        ensures
            built_view(r) == call_spec(self@.session, Method::Post, publish_url_spec(self@.server, name@), publish_body_spec(code@)),
    {
        let url = self.publish_url(name);
        self.post(url.as_str(), publish_body(code))
    }

    /// The request that downloads `module` at `version`.
    pub fn download_request(&self, module: &str, version: &str) -> (r: Result<ApiRequest, ApiError>)
        ensures
            built_view(r) == call_spec(self@.session, Method::Get, download_url_spec(self@.server, module@, version@), Seq::empty()),
    {
        let url = self.download_url(module, version);
        self.get(url.as_str())
    }

    /// The request that asks for the metadata of `module`.
    pub fn query_request(&self, module: &str) -> (r: Result<ApiRequest, ApiError>)
        ensures
            built_view(r) == call_spec(self@.session, Method::Get, info_url_spec(self@.server, module@), Seq::empty()),
    {
        let url = self.info_url(module);
        self.get(url.as_str())
    }

    /// The URL of the session-verification endpoint.
    pub fn whoami_url(&self) -> (r: String)
        ensures
            r@ == whoami_url_spec(self@.server),
    {
        let mut u = self.server.clone();
        u.append("/api/v0/whoami");
        u
    }

    /// The URL under which the module `name` is published.
    pub fn publish_url(&self, name: &str) -> (r: String)
        ensures
            r@ == publish_url_spec(self@.server, name@),
    {
        let mut u = self.server.clone();
        u.append("/api/v0/publish/");
        u.append(name);
        u
    }

    /// The URL from which `module` at `version` is downloaded.
    pub fn download_url(&self, module: &str, version: &str) -> (r: String)
        ensures
            r@ == download_url_spec(self@.server, module@, version@),
    {
        let mut u = self.server.clone();
        u.append("/api/v0/dl/");
        u.append(module);
        u.append("/");
        u.append(version);
        u
    }

    /// The URL of the metadata of `module`.
    pub fn info_url(&self, module: &str) -> (r: String)
        ensures
            r@ == info_url_spec(self@.server, module@),
    {
        let mut u = self.server.clone();
        u.append("/api/v0/info/");
        u.append(module);
        u
    }
}

/// Once a session token is set (`Client::authenticate` sets it), every request
/// built carries it in an `Auth` header; with no token set, no request carries
/// an `Auth` header.
pub proof fn lemma_auth_header(token: Seq<char>, method: Method, url: Seq<char>, body: Seq<char>)
    requires
        header_value_valid(token),
    ensures
        request_spec(Some(token), method, url, body) matches Ok(q) && q.headers.contains(auth_header(token)),
        request_spec(None, method, url, body) matches Ok(q)
            && forall|i: int| 0 <= i < q.headers.len() ==> #[trigger] q.headers[i].0 != "Auth"@,
{
    let q = request_spec(Some(token), method, url, body)->Ok_0;
    assert(q.headers[0] == auth_header(token));
    let n = request_spec(None, method, url, body)->Ok_0;
    assert forall|i: int| 0 <= i < n.headers.len() implies #[trigger] n.headers[i].0 != "Auth"@ by {
        assert(n.headers[i] == content_type_header());
        reveal_strlit("Auth");
        reveal_strlit("Content-Type");
        assert("Auth"@.len() != "Content-Type"@.len());
    }
}

} // verus!
