//! The client configuration and the preparation of one request: building
//! the URL, merging headers, attaching the authentication header, choosing
//! the effective timeout, seeding the diagnostic context, and arming the
//! retry engine. What a prepared request holds is stated exactly; the
//! transport only has to send it and hand each outcome back.

use vstd::prelude::*;

use crate::auth::AuthHandle;
use crate::context::{Context, CtxModel, CtxValue};
use crate::errors::{detail_map, ClassifiedError};
use crate::executor::{ExecModel, Executor};
use crate::headers::HeaderSet;
use crate::kinds::ErrorKind;
use crate::text::trim_trailing;
use crate::urls::{built_url_spec, build_url, opt_params_view, parse_url_root, root_text_spec,
    url_parse_spec, UrlModel, UrlRoot};

verus! {

/// An HTTP method.
#[derive(Clone, Copy, Debug, PartialEq, Eq, Structural)]
pub enum Method {
    Get,
    Post,
    Put,
    Delete,
    Head,
}

impl Method {
    /// The method's name on the wire.
    pub open spec fn name_spec(self) -> Seq<char> {
        match self {
            Method::Get => "GET"@,
            Method::Post => "POST"@,
            Method::Put => "PUT"@,
            Method::Delete => "DELETE"@,
            Method::Head => "HEAD"@,
        }
    }

    /// The method's name on the wire.
    pub fn as_str(&self) -> (r: &'static str)
        ensures
            r@ == self.name_spec(),
    {
        match self {
            Method::Get => "GET",
            Method::Post => "POST",
            Method::Put => "PUT",
            Method::Delete => "DELETE",
            Method::Head => "HEAD",
        }
    }
}

/// The mathematical value of a client configuration.
pub ghost struct ClientModel {
    pub url: UrlModel,
    pub timeout: u64,
    pub headers: Map<Seq<char>, Seq<char>>,
    pub auth: Option<AuthHandle>,
    pub ssl_verify: bool,
    pub retry_number: u64,
    pub retry_delay: u64,
}

/// Whether an optional caller context is well-formed.
pub open spec fn opt_ctx_ref_wf(context: Option<&Context>) -> bool {
    match context {
        Some(c) => c.wf(),
        None => true,
    }
}

/// The view of an optional caller context.
pub open spec fn opt_ctx_ref_view(context: Option<&Context>) -> Option<Map<Seq<char>, CtxModel>> {
    match context {
        Some(c) => Some(c@),
        None => None,
    }
}

/// The configuration a fresh client starts from: the parsed base URL, a
/// ten-second timeout, the client's initial headers, no authentication,
/// SSL verification on, ten attempts, thirty seconds between attempts.
pub open spec fn default_model(url: UrlModel, headers: Map<Seq<char>, Seq<char>>) -> ClientModel {
    ClientModel {
        url,
        timeout: 10,
        headers,
        auth: None,
        ssl_verify: true,
        retry_number: 10,
        retry_delay: 30,
    }
}

/// The error a constructor returns for a base URL that does not parse:
/// the invalid-URL kind, the parser's own error text in the message, and
/// the caller's context with the given URL in the details.
pub open spec fn invalid_url_model(
    url_root: Seq<char>,
    parse_err: Seq<char>,
    context: Option<Map<Seq<char>, CtxModel>>,
) -> crate::errors::ErrorModel {
    crate::errors::ErrorModel {
        kind: ErrorKind::InvalidUrl,
        message: "Failed to parse URL: "@ + parse_err,
        details: Some(detail_map(context).insert("url"@, CtxModel::Str(url_root))),
    }
}

/// Read access to a client's configuration.
pub trait BaseClient: Sized {
    /// The configuration the client holds.
    spec fn model(&self) -> ClientModel;

    /// Well-formed: the held header set binds each name once.
    spec fn wf_client(&self) -> bool;

    /// The base URL all requests start from.
    fn url_root(&self) -> (r: &UrlRoot)
        requires
            self.wf_client(),
        ensures
            r@ == self.model().url,
    ;

    /// The default timeout, in seconds.
    fn timeout(&self) -> (r: &u64)
        requires
            self.wf_client(),
        ensures
            *r == self.model().timeout,
    ;

    /// The default headers.
    fn headers(&self) -> (r: &HeaderSet)
        requires
            self.wf_client(),
        ensures
            r@ == self.model().headers,
            r.wf(),
    ;

    /// The authentication scheme, if one was set.
    fn auth(&self) -> (r: Option<&AuthHandle>)
        requires
            self.wf_client(),
        ensures
            match r {
                Some(a) => self.model().auth == Some(*a),
                None => self.model().auth is None,
            },
    ;

    /// Whether SSL certificates are verified.
    fn ssl_verify(&self) -> (r: bool)
        requires
            self.wf_client(),
        ensures
            r == self.model().ssl_verify,
    ;

    /// The number of attempts a request may take.
    fn retry_number(&self) -> (r: u64)
        requires
            self.wf_client(),
        ensures
            r == self.model().retry_number,
    ;

    /// The seconds slept between attempts.
    fn retry_delay(&self) -> (r: u64)
        requires
            self.wf_client(),
        ensures
            r == self.model().retry_delay,
    ;
}

/// Building a client and adjusting its configuration.
pub trait ClientBuilder: BaseClient {
    /// The headers a fresh client of this flavour starts with.
    spec fn initial_headers() -> Map<Seq<char>, Seq<char>>;

    /// A client for the given base URL, with the defaults of
    /// [`default_model`]. The base URL is taken with trailing slashes
    /// trimmed; where it does not parse, the invalid-URL kind is returned,
    /// its details carrying the caller's context and the given URL.
    fn new(url_root: &str, context: Option<&Context>) -> (r: Result<Self, ClassifiedError>)
        requires
            opt_ctx_ref_wf(context),
        ensures
            match r {
                Ok(c) => {
                    &&& url_parse_spec(trim_trailing(url_root@, '/')) matches Ok(u)
                        && c.model() == default_model(u, Self::initial_headers())
                    &&& c.wf_client()
                },
                Err(e) => {
                    &&& url_parse_spec(trim_trailing(url_root@, '/')) matches Err(msg)
                        && e@ == invalid_url_model(url_root@, msg, opt_ctx_ref_view(context))
                    &&& e.wf()
                },
            },
    ;

    /// Sets the default timeout, in seconds.
    fn set_timeout(self, timeout: u64) -> (r: Self)
        requires
            self.wf_client(),
        ensures
            r.wf_client(),
            r.model() == (ClientModel { timeout, ..self.model() }),
    ;

    /// Merges the given headers into the default headers; on a shared name
    /// the given value wins.
    fn set_headers(self, headers: HeaderSet) -> (r: Self)
        requires
            self.wf_client(),
            headers.wf(),
        ensures
            r.wf_client(),
            r.model() == (ClientModel {
                headers: self.model().headers.union_prefer_right(headers@),
                ..self.model()
            }),
    ;

    /// Sets the authentication scheme.
    fn set_auth(self, auth: AuthHandle) -> (r: Self)
        requires
            self.wf_client(),
        ensures
            r.wf_client(),
            r.model() == (ClientModel { auth: Some(auth), ..self.model() }),
    ;

    /// Switches SSL certificate verification on or off.
    fn set_ssl_verify(self, ssl_verify: bool) -> (r: Self)
        requires
            self.wf_client(),
        ensures
            r.wf_client(),
            r.model() == (ClientModel { ssl_verify, ..self.model() }),
    ;

    /// Sets the number of attempts a request may take; zero attempts are
    /// rejected by contract.
    fn set_retry_number(self, retry_number: u64) -> (r: Self)
        requires
            self.wf_client(),
            retry_number > 0,
        ensures
            r.wf_client(),
            r.model() == (ClientModel { retry_number, ..self.model() }),
    ;

    /// Sets the seconds slept between attempts.
    fn set_retry_delay(self, retry_delay: u64) -> (r: Self)
        requires
            self.wf_client(),
        ensures
            r.wf_client(),
            r.model() == (ClientModel { retry_delay, ..self.model() }),
    ;
}

/// Everything the transport needs to run one request: the built URL, the
/// method, the merged headers, the authentication header to attach, the
/// body, the effective timeout, the SSL flag, and the armed retry engine.
#[derive(Debug)]
pub struct PreparedRequest {
    pub url: String,
    pub method: Method,
    pub headers: HeaderSet,
    pub auth_header: Option<(String, String)>,
    pub body: Option<String>,
    pub timeout: u64,
    pub ssl_verify: bool,
    pub executor: Executor,
}

/// The view of optional header overrides.
pub open spec fn opt_headers_view(h: Option<HeaderSet>) -> Option<Map<Seq<char>, Seq<char>>> {
    match h {
        Some(hs) => Some(hs@),
        None => None,
    }
}

/// Whether optional header overrides are well-formed.
pub open spec fn opt_headers_wf(h: Option<HeaderSet>) -> bool {
    match h {
        Some(hs) => hs.wf(),
        None => true,
    }
}

/// The view of an optional exemption list.
pub open spec fn opt_kinds_view(k: Option<Vec<ErrorKind>>) -> Seq<ErrorKind> {
    match k {
        Some(ks) => ks@,
        None => Seq::empty(),
    }
}

/// The view of an optional owned context.
pub open spec fn opt_ctx_own_view(context: Option<Context>) -> Option<Map<Seq<char>, CtxModel>> {
    match context {
        Some(c) => Some(c@),
        None => None,
    }
}

/// Whether an optional owned context is well-formed.
pub open spec fn opt_ctx_own_wf(context: Option<Context>) -> bool {
    match context {
        Some(c) => c.wf(),
        None => true,
    }
}

/// The diagnostic context a request starts with: the caller's context with
/// the built URL and the method bound under `url` and `method`.
pub open spec fn seeded_context(
    context: Option<Map<Seq<char>, CtxModel>>,
    url: Seq<char>,
    method: Method,
) -> Map<Seq<char>, CtxModel> {
    detail_map(context).insert("url"@, CtxModel::Str(url)).insert(
        "method"@,
        CtxModel::Str(method.name_spec()),
    )
}

/// What a prepared request must hold for configuration `m` and the given
/// request arguments.
pub open spec fn prepared_ok(
    p: PreparedRequest,
    m: ClientModel,
    method: Method,
    path: Seq<char>,
    params: Option<Seq<(Seq<char>, Seq<char>)>>,
    data: Option<Seq<char>>,
    headers: Option<Map<Seq<char>, Seq<char>>>,
    timeout: Option<u64>,
    no_retry_on: Seq<ErrorKind>,
    context: Option<Map<Seq<char>, CtxModel>>,
) -> bool {
    &&& p.url@ == built_url_spec(m.url, path, params)
    &&& p.method == method
    &&& p.headers@ == m.headers.union_prefer_right(headers_or_empty(headers))
    &&& p.auth_header_view() == auth_header_spec(m.auth)
    &&& opt_body_view(p.body) == data
    &&& p.timeout == effective_timeout(timeout, m.timeout)
    &&& p.ssl_verify == m.ssl_verify
    &&& p.executor@ == (ExecModel {
        max_attempts: m.retry_number,
        retry_delay: m.retry_delay,
        exempt: no_retry_on,
        context: seeded_context(context, built_url_spec(m.url, path, params), method),
        attempt: 0,
        last_error: None,
        finished: false,
    })
}

/// Optional header overrides, read as a map; absent reads as empty.
pub open spec fn headers_or_empty(
    h: Option<Map<Seq<char>, Seq<char>>>,
) -> Map<Seq<char>, Seq<char>> {
    match h {
        Some(m) => m,
        None => Map::empty(),
    }
}

/// The header the configured scheme attaches.
pub open spec fn auth_header_spec(auth: Option<AuthHandle>) -> Option<(Seq<char>, Seq<char>)> {
    match auth {
        Some(a) => a.header_spec(),
        None => None,
    }
}

/// The timeout a request runs with: its own override, or the client's.
pub open spec fn effective_timeout(timeout: Option<u64>, default: u64) -> u64 {
    match timeout {
        Some(t) => t,
        None => default,
    }
}

impl PreparedRequest {
    /// The view of the attached authentication header.
    pub open spec fn auth_header_view(&self) -> Option<(Seq<char>, Seq<char>)> {
        match self.auth_header {
            Some(h) => Some((h.0@, h.1@)),
            None => None,
        }
    }
}

/// The view of an optional body.
pub open spec fn opt_body_view(body: Option<String>) -> Option<Seq<char>> {
    match body {
        Some(b) => Some(b@),
        None => None,
    }
}

/// Prepares one request against configuration holder `cli`: builds the URL
/// (failing fast with the invalid-URL kind where the base is not
/// hierarchical), merges the per-request headers over the defaults, attaches
/// the authentication header, picks the effective timeout, seeds the
/// context with the URL and method, and arms the retry engine with the
/// configured attempt count, delay and the caller's exemptions.
pub fn prepare_request<B: BaseClient>(
    cli: &B,
    method: Method,
    path: String,
    params: Option<Vec<(String, String)>>,
    data: Option<String>,
    headers: Option<HeaderSet>,
    timeout: Option<u64>,
    no_retry_on: Option<Vec<ErrorKind>>,
    context: Option<Context>,
) -> (r: Result<PreparedRequest, ClassifiedError>)
    requires
        cli.wf_client(),
        cli.model().retry_number >= 1,
        opt_headers_wf(headers),
        opt_ctx_own_wf(context),
    ensures
        cli.model().url.hierarchical ==> (r matches Ok(p) && prepared_ok(
            p,
            cli.model(),
            method,
            path@,
            opt_params_view(params),
            opt_body_view(data),
            opt_headers_view(headers),
            timeout,
            opt_kinds_view(no_retry_on),
            opt_ctx_own_view(context),
        ) && p.headers.wf() && p.executor.wf()),
        !cli.model().url.hierarchical ==> (r matches Err(e) && e@.kind == ErrorKind::InvalidUrl
            && e@.message == "Cannot build url"@),
{
    let ghost m = cli.model();
    let ghost hview = opt_headers_view(headers);
    let ghost cview = opt_ctx_own_view(context);
    let ghost kview = opt_kinds_view(no_retry_on);
    let url = match build_url(cli.url_root(), path, params) {
        Ok(u) => u,
        Err(e) => {
            return Err(e);
        },
    };
    let mut ctx = match context {
        Some(c) => c,
        None => Context::new(),
    };
    proof {
        assert(ctx@ == detail_map(cview));
    }
    ctx.insert("url".to_owned(), CtxValue::Str(url.clone()));
    ctx.insert("method".to_owned(), CtxValue::Str(method.as_str().to_owned()));
    proof {
        assert(ctx@ == seeded_context(cview, url@, method));
    }
    let merged = crate::headers::merge_headers(cli.headers(), headers);
    proof {
        if hview is None {
            assert(m.headers.union_prefer_right(Map::<Seq<char>, Seq<char>>::empty())
                =~= m.headers);
        }
        assert(merged@ == m.headers.union_prefer_right(headers_or_empty(hview)));
    }
    let auth_header = match cli.auth() {
        Some(a) => a.as_header(),
        None => None,
    };
    let effective = match timeout {
        Some(t) => t,
        None => *cli.timeout(),
    };
    let exempt = match no_retry_on {
        Some(ks) => ks,
        None => Vec::new(),
    };
    proof {
        assert(exempt@ =~= kview);
    }
    let executor = Executor::new(cli.retry_number(), cli.retry_delay(), exempt, ctx);
    Ok(PreparedRequest {
        url,
        method,
        headers: merged,
        auth_header,
        body: data,
        timeout: effective,
        ssl_verify: cli.ssl_verify(),
        executor,
    })
}

/// A plain HTTP client configuration: base URL, timeout, default headers,
/// optional authentication, SSL verification, and the retry policy.
#[derive(Debug)]
pub struct HttpClient {
    url_root: UrlRoot,
    timeout: u64,
    headers: HeaderSet,
    auth: Option<AuthHandle>,
    ssl_verify: bool,
    retry_number: u64,
    retry_delay: u64,
}

impl BaseClient for HttpClient {
    closed spec fn model(&self) -> ClientModel {
        ClientModel {
            url: self.url_root@,
            timeout: self.timeout,
            headers: self.headers@,
            auth: self.auth,
            ssl_verify: self.ssl_verify,
            retry_number: self.retry_number,
            retry_delay: self.retry_delay,
        }
    }

    closed spec fn wf_client(&self) -> bool {
        self.headers.wf() && self.retry_number >= 1
    }

    fn url_root(&self) -> (r: &UrlRoot) {
        &self.url_root
    }

    fn timeout(&self) -> (r: &u64) {
        &self.timeout
    }

    fn headers(&self) -> (r: &HeaderSet) {
        &self.headers
    }

    fn auth(&self) -> (r: Option<&AuthHandle>) {
        self.auth.as_ref()
    }

    fn ssl_verify(&self) -> (r: bool) {
        self.ssl_verify
    }

    fn retry_number(&self) -> (r: u64) {
        self.retry_number
    }

    fn retry_delay(&self) -> (r: u64) {
        self.retry_delay
    }
}

/// The headers a fresh client starts with: the crate's user agent.
pub open spec fn http_initial_headers() -> Map<Seq<char>, Seq<char>> {
    Map::<Seq<char>, Seq<char>>::empty().insert("User-Agent"@, "cdumay_http_client/1.0.0"@)
}

fn make_user_agent_headers() -> (r: HeaderSet)
    ensures
        r.wf(),
        r@ == http_initial_headers(),
{
    let mut headers = HeaderSet::new();
    headers.insert("User-Agent".to_owned(), "cdumay_http_client/1.0.0".to_owned());
    headers
}

fn make_invalid_url_error(url_root: &str, parse_err: String, context: Option<&Context>) -> (r:
    ClassifiedError)
    requires
        opt_ctx_ref_wf(context),
    ensures
        r.wf(),
        r@ == invalid_url_model(url_root@, parse_err@, opt_ctx_ref_view(context)),
{
    let mut err_context = Context::new();
    match context {
        Some(ctx) => {
            err_context.extend(ctx);
            proof {
                assert(Map::<Seq<char>, CtxModel>::empty().union_prefer_right(ctx@) =~= ctx@);
            }
        },
        None => {},
    }
    err_context.insert("url".to_owned(), CtxValue::Str(url_root.to_owned()));
    let mut message = "Failed to parse URL: ".to_owned();
    message.append(parse_err.as_str());
    ClassifiedError {
        kind: ErrorKind::InvalidUrl,
        message,
        details: Some(err_context),
    }
}

impl ClientBuilder for HttpClient {
    open spec fn initial_headers() -> Map<Seq<char>, Seq<char>> {
        http_initial_headers()
    }

    fn new(url_root: &str, context: Option<&Context>) -> (r: Result<Self, ClassifiedError>) {
        let trimmed = crate::text::trim_trailing_char(url_root, '/');
        match parse_url_root(trimmed) {
            Ok(u) => Ok(HttpClient {
                url_root: u,
                timeout: 10,
                headers: make_user_agent_headers(),
                auth: None,
                ssl_verify: true,
                retry_number: 10,
                retry_delay: 30,
            }),
            Err(msg) => Err(make_invalid_url_error(url_root, msg, context)),
        }
    }

    fn set_timeout(self, timeout: u64) -> (r: Self) {
        HttpClient { timeout, ..self }
    }

    fn set_headers(self, headers: HeaderSet) -> (r: Self) {
        let HttpClient { url_root, timeout, headers: mut merged, auth, ssl_verify, retry_number, retry_delay } = self;
        merged.extend(&headers);
        HttpClient { url_root, timeout, headers: merged, auth, ssl_verify, retry_number, retry_delay }
    }

    fn set_auth(self, auth: AuthHandle) -> (r: Self) {
        HttpClient { auth: Some(auth), ..self }
    }

    fn set_ssl_verify(self, ssl_verify: bool) -> (r: Self) {
        HttpClient { ssl_verify, ..self }
    }

    fn set_retry_number(self, retry_number: u64) -> (r: Self) {
        HttpClient { retry_number, ..self }
    }

    fn set_retry_delay(self, retry_delay: u64) -> (r: Self) {
        HttpClient { retry_delay, ..self }
    }
}

/// A REST client configuration: as [`HttpClient`], starting with JSON
/// content-type and accept headers beside the user agent.
#[derive(Debug)]
pub struct RestClient {
    url_root: UrlRoot,
    timeout: u64,
    headers: HeaderSet,
    auth: Option<AuthHandle>,
    ssl_verify: bool,
    retry_number: u64,
    retry_delay: u64,
}

impl BaseClient for RestClient {
    closed spec fn model(&self) -> ClientModel {
        ClientModel {
            url: self.url_root@,
            timeout: self.timeout,
            headers: self.headers@,
            auth: self.auth,
            ssl_verify: self.ssl_verify,
            retry_number: self.retry_number,
            retry_delay: self.retry_delay,
        }
    }

    closed spec fn wf_client(&self) -> bool {
        self.headers.wf() && self.retry_number >= 1
    }

    fn url_root(&self) -> (r: &UrlRoot) {
        &self.url_root
    }

    fn timeout(&self) -> (r: &u64) {
        &self.timeout
    }

    fn headers(&self) -> (r: &HeaderSet) {
        &self.headers
    }

    fn auth(&self) -> (r: Option<&AuthHandle>) {
        self.auth.as_ref()
    }

    fn ssl_verify(&self) -> (r: bool) {
        self.ssl_verify
    }

    fn retry_number(&self) -> (r: u64) {
        self.retry_number
    }

    fn retry_delay(&self) -> (r: u64) {
        self.retry_delay
    }
}

/// The headers a fresh REST client starts with: the crate's user agent and
/// the JSON content-type and accept headers.
pub open spec fn rest_initial_headers() -> Map<Seq<char>, Seq<char>> {
    http_initial_headers().insert("Content-Type"@, "application/json"@).insert(
        "Accept"@,
        "application/json"@,
    )
}

impl ClientBuilder for RestClient {
    open spec fn initial_headers() -> Map<Seq<char>, Seq<char>> {
        rest_initial_headers()
    }

    fn new(url_root: &str, context: Option<&Context>) -> (r: Result<Self, ClassifiedError>) {
        let trimmed = crate::text::trim_trailing_char(url_root, '/');
        match parse_url_root(trimmed) {
            Ok(u) => {
                let mut headers = make_user_agent_headers();
                headers.insert("Content-Type".to_owned(), "application/json".to_owned());
                headers.insert("Accept".to_owned(), "application/json".to_owned());
                Ok(RestClient {
                    url_root: u,
                    timeout: 10,
                    headers,
                    auth: None,
                    ssl_verify: true,
                    retry_number: 10,
                    retry_delay: 30,
                })
            },
            Err(msg) => Err(make_invalid_url_error(url_root, msg, context)),
        }
    }

    fn set_timeout(self, timeout: u64) -> (r: Self) {
        RestClient { timeout, ..self }
    }

    fn set_headers(self, headers: HeaderSet) -> (r: Self) {
        let RestClient { url_root, timeout, headers: mut merged, auth, ssl_verify, retry_number, retry_delay } = self;
        merged.extend(&headers);
        RestClient { url_root, timeout, headers: merged, auth, ssl_verify, retry_number, retry_delay }
    }

    fn set_auth(self, auth: AuthHandle) -> (r: Self) {
        RestClient { auth: Some(auth), ..self }
    }

    fn set_ssl_verify(self, ssl_verify: bool) -> (r: Self) {
        RestClient { ssl_verify, ..self }
    }

    fn set_retry_number(self, retry_number: u64) -> (r: Self) {
        RestClient { retry_number, ..self }
    }

    fn set_retry_delay(self, retry_delay: u64) -> (r: Self) {
        RestClient { retry_delay, ..self }
    }
}

/// The context a typed request reports errors with: the base URL under
/// `server`, and the request's path and method.
pub open spec fn rest_context_model(url: UrlModel, path: Seq<char>, method: Method) -> Map<
    Seq<char>,
    CtxModel,
> {
    Map::<Seq<char>, CtxModel>::empty().insert(
        "server"@,
        CtxModel::Str(root_text_spec(url)),
    ).insert("path"@, CtxModel::Str(path)).insert("method"@, CtxModel::Str(method.name_spec()))
}

impl RestClient {
    /// The context a typed request reports errors with: the base URL under
    /// `server`, and the request's path and method.
    pub fn create_context(&self, path: String, method: Method) -> (r: Context)
        requires
            self.wf_client(),
        ensures
            r.wf(),
            r@ == rest_context_model(self.model().url, path@, method),
    {
        let mut context = Context::new();
        let server = crate::urls::root_text(&self.url_root);
        context.insert("server".to_owned(), CtxValue::Str(server));
        context.insert("path".to_owned(), CtxValue::Str(path));
        context.insert("method".to_owned(), CtxValue::Str(method.as_str().to_owned()));
        context
    }

    /// The context a typed request classifies a decode failure with: an
    /// explicit context supplied by the caller wins over the locally
    /// constructed one.
    pub fn error_context(&self, given: Option<&Context>, path: String, method: Method) -> (r:
        Context)
        requires
            self.wf_client(),
            given matches Some(c) ==> c.wf(),
        ensures
            r.wf(),
            r@ == match given {
                Some(c) => c@,
                None => rest_context_model(self.model().url, path@, method),
            },
    {
        match given {
            Some(c) => c.duplicate(),
            None => self.create_context(path, method),
        }
    }
}

} // verus!
