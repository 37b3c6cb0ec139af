//! What a proxy server does with a request.
//!
//! The decisions are made here, and the caller does the sending: [`Session::process`] answers a
//! request or asks for its proxies to be found, [`Session::dispatch_with_proxy`] says how to send
//! it on, [`finish_dispatch`] takes what came back, and [`answer`] turns a failure into a page.
use crate::auth;
use crate::auth::AuthenticatorFactory;
use crate::clients;
use crate::clients::{ClientSlot, ClientTable};
use crate::dns;
use crate::evaluator;
use crate::evaluator::{Evaluator, FindProxyError, DEFAULT_PAC_SCRIPT};
use crate::headers;
use crate::proxy;
use crate::proxy::{Proxies, ProxyDesc};
use crate::text;
use crate::uri;
use crate::uri::Uri;
use http::{HeaderMap, HeaderValue};
use std::time::Duration;
use vstd::prelude::*;
use vstd::string::*;
use vstd::utf8;

verus! {

/// The name under which this server makes itself known.
pub const PKG_NAME: &'static str = "proxydetox";

/// The version that goes with the name.
pub const PKG_VERSION: &'static str = "0.1.0";

/// Status 200.
pub const OK: u16 = 200;

/// Status 400.
pub const BAD_REQUEST: u16 = 400;

/// Status 407.
pub const PROXY_AUTHENTICATION_REQUIRED: u16 = 407;

/// Status 502.
pub const BAD_GATEWAY: u16 = 502;

/// The path at which this server hands out a PAC script that names itself.
pub const PAC_PATH: &'static str = "/proxy.pac";

/// The address that the PAC script names where the client did not say how it reached this server.
pub const FALLBACK_HOST: &'static str = "127.0.0.1:3128";

/// Why a request could not be sent on.
#[derive(Debug)]
pub enum ClientError {
    /// The authentication mechanism failed.
    Auth(auth::Error),
    /// The HTTP client failed.
    Hyper(String),
    /// The request's URI is of no use.
    InvalidUri,
}

/// Why a request was not answered by the server that it was for.
#[derive(Debug)]
pub enum Error {
    /// Input or output failed.
    Io(String),
    /// The HTTP client failed.
    Hyper(String),
    /// The authentication mechanism failed.
    Auth(auth::Error),
    /// The request's URI is of no use.
    InvalidUri,
    /// This upstream proxy asks for authentication.
    ProxyAuthenticationRequired(ProxyDesc),
}

/// [`Error`] with its texts as sequences of characters.
pub enum ErrorView {
    Io(Seq<char>),
    Hyper(Seq<char>),
    Auth(Seq<char>),
    InvalidUri,
    ProxyAuthenticationRequired(proxy::ProxyView),
}

impl View for Error {
    type V = ErrorView;

    open spec fn view(&self) -> ErrorView {
        match self {
            Error::Io(cause) => ErrorView::Io(cause@),
            Error::Hyper(cause) => ErrorView::Hyper(cause@),
            Error::Auth(e) => ErrorView::Auth(e.cause@),
            Error::InvalidUri => ErrorView::InvalidUri,
            Error::ProxyAuthenticationRequired(p) => ErrorView::ProxyAuthenticationRequired(p@),
        }
    }
}

impl From<ClientError> for Error {
    fn from(cause: ClientError) -> (r: Self) {
        match cause {
            ClientError::Auth(cause) => Error::Auth(cause),
            ClientError::Hyper(cause) => Error::Hyper(cause),
            ClientError::InvalidUri => Error::InvalidUri,
        }
    }
}

impl vstd::std_specs::convert::FromSpecImpl<ClientError> for Error {
    open spec fn obeys_from_spec() -> bool {
        true
    }

    open spec fn from_spec(cause: ClientError) -> Self {
        match cause {
            ClientError::Auth(cause) => Error::Auth(cause),
            ClientError::Hyper(cause) => Error::Hyper(cause),
            ClientError::InvalidUri => Error::InvalidUri,
        }
    }
}

/// What went wrong, for people.
pub open spec fn error_text(e: ErrorView) -> Seq<char> {
    match e {
        ErrorView::Io(cause) => "I/O error: "@ + cause,
        ErrorView::Hyper(cause) => "hyper error: "@ + cause,
        ErrorView::Auth(cause) => "authentication mechanism error: "@ + cause,
        ErrorView::InvalidUri => "invalid URI"@,
        ErrorView::ProxyAuthenticationRequired(p) => "upstream proxy ("@ + proxy::proxy_text(p)
            + ") requires authentication"@,
    }
}

impl Error {
    /// What went wrong, for people.
    pub fn message(&self) -> (r: String)
        ensures
            r@ == error_text(self@),
    {
        match self {
            Error::Io(cause) => text::concat2("I/O error: ", cause.as_str()),
            Error::Hyper(cause) => text::concat2("hyper error: ", cause.as_str()),
            Error::Auth(e) => text::concat2("authentication mechanism error: ", e.cause.as_str()),
            Error::InvalidUri => "invalid URI".to_owned(),
            Error::ProxyAuthenticationRequired(p) => {
                let name: String = p.text();
                text::concat3("upstream proxy (", name.as_str(), ") requires authentication")
            },
        }
    }
}

/// A request, but for its body.
#[derive(Debug)]
pub struct Request {
    pub method: String,
    pub uri: Uri,
    pub headers: HeaderMap<HeaderValue>,
}

/// A request, but for its body.
pub struct RequestView {
    pub method: Seq<char>,
    pub uri: uri::UriView,
    pub fields: headers::Fields,
}

impl View for Request {
    type V = RequestView;

    open spec fn view(&self) -> RequestView {
        RequestView {
            method: self.method@,
            uri: self.uri@,
            fields: headers::fields(self.headers),
        }
    }
}

/// A response that this server makes.
#[derive(Debug)]
pub struct Response {
    pub status: u16,
    pub headers: HeaderMap<HeaderValue>,
    pub body: String,
}

/// A response that this server makes.
pub struct ResponseView {
    pub status: u16,
    pub fields: headers::Fields,
    pub body: Seq<char>,
}

impl View for Response {
    type V = ResponseView;

    open spec fn view(&self) -> ResponseView {
        ResponseView {
            status: self.status,
            fields: headers::fields(self.headers),
            body: self.body@,
        }
    }
}

/// A response that was received, but for its body.
#[derive(Debug)]
pub struct ResponseHead {
    pub status: u16,
    pub headers: HeaderMap<HeaderValue>,
}

/// A response that was received, but for its body.
pub struct HeadView {
    pub status: u16,
    pub fields: headers::Fields,
}

impl View for ResponseHead {
    type V = HeadView;

    open spec fn view(&self) -> HeadView {
        HeadView { status: self.status, fields: headers::fields(self.headers) }
    }
}

/// The one field of a response that says what its body is.
pub open spec fn content_type(media_type: Seq<char>) -> headers::Fields {
    headers::no_fields().insert("content-type"@, seq![utf8::encode_utf8(media_type)])
}

/// The answer to a request that this server can make nothing of.
pub open spec fn bad_request() -> ResponseView {
    ResponseView {
        status: BAD_REQUEST,
        fields: headers::no_fields(),
        body: "Invalid Requst"@,
    }
}

/// The host that the client used to reach this server, by its `Host` field.
pub open spec fn own_host(f: headers::Fields) -> Seq<char> {
    let values = headers::values_of(f, "host"@);
    if values.len() > 0 {
        match headers::value_text(values[0]) {
            Some(host) => host,
            None => FALLBACK_HOST@,
        }
    } else {
        FALLBACK_HOST@
    }
}

/// The PAC script that names this server as the proxy.
pub open spec fn own_pac_script(host: Seq<char>) -> Seq<char> {
    "function FindProxyForURL(url, host) { return \"PROXY "@ + host + "\"; }\n"@
}

/// The page with the cache of resolved names.
pub open spec fn status_page(dns_cache: Seq<char>) -> Seq<char> {
    "<!DOCTYPE html><html><h1>"@ + PKG_NAME@ + "/"@ + PKG_VERSION@
        + "</h1><h2>DNS Cache</h2><code>"@ + dns_cache + "</code></html>"@
}

/// The answer to a request for this server itself: its PAC script, or its status.
pub open spec fn management_response(req: RequestView, dns_cache: Seq<char>) -> ResponseView {
    if uri::is_local_path(req.uri, PAC_PATH@) {
        ResponseView {
            status: OK,
            fields: content_type("application/x-ns-proxy-autoconfig"@),
            body: own_pac_script(own_host(req.fields)),
        }
    } else {
        ResponseView {
            status: OK,
            fields: content_type("text/html"@),
            body: status_page(dns_cache),
        }
    }
}

/// The answer to a request that names no other server.
pub open spec fn local_response(req: RequestView, dns_cache: Seq<char>) -> ResponseView {
    if req.method == "GET"@ {
        management_response(req, dns_cache)
    } else {
        bad_request()
    }
}

/// A request without the fields that were meant for this server.
pub open spec fn without_hop_fields(req: RequestView) -> RequestView {
    RequestView {
        fields: req.fields.remove("proxy-connection"@).remove("proxy-authorization"@),
        ..req
    }
}

/// Whether a request is sent through a tunnel.
pub open spec fn uses_tunnel(always_use_connect: bool, method: Seq<char>) -> bool {
    method == "CONNECT"@ || always_use_connect
}

/// The value of the `Via` field for a response that came by way of a proxy.
pub open spec fn via_text(p: proxy::ProxyView) -> Seq<char> {
    proxy::proxy_text(p) + "; "@ + PKG_NAME@ + "/"@ + PKG_VERSION@
}

/// A response that came by way of a proxy, as it is handed on.
pub open spec fn with_via(p: proxy::ProxyView, head: HeadView) -> HeadView {
    HeadView {
        fields: head.fields.insert("via"@, seq![utf8::encode_utf8(via_text(p))]),
        ..head
    }
}

/// What sending a request by way of a proxy comes to, by what came back.
pub open spec fn dispatch_result(
    p: proxy::ProxyView,
    came_back: Result<HeadView, ClientError>,
) -> Result<HeadView, ErrorView> {
    match came_back {
        Ok(head) => if head.status == PROXY_AUTHENTICATION_REQUIRED {
            Err(ErrorView::ProxyAuthenticationRequired(p))
        } else {
            Ok(with_via(p, head))
        },
        Err(e) => Err(
            match e {
                ClientError::Auth(e) => ErrorView::Auth(e.cause@),
                ClientError::Hyper(cause) => ErrorView::Hyper(cause@),
                ClientError::InvalidUri => ErrorView::InvalidUri,
            },
        ),
    }
}

pub open spec fn came_back_view(
    came_back: Result<ResponseHead, ClientError>,
) -> Result<HeadView, ClientError> {
    match came_back {
        Ok(head) => Ok(head@),
        Err(e) => Err(e),
    }
}

pub open spec fn result_view(result: Result<ResponseHead, Error>) -> Result<HeadView, ErrorView> {
    match result {
        Ok(head) => Ok(head@),
        Err(e) => Err(e@),
    }
}

/// The page that tells of an error.
pub open spec fn error_page(error: Seq<char>) -> Seq<char> {
    "<!DOCTYPE html><html><h1>502 Bad Gateway</h1><p>"@ + error + "</p><hr><p>"@ + PKG_NAME@ + "/"@
        + PKG_VERSION@ + "</p></html>"@
}

/// The answer to a request that failed.
pub open spec fn error_response(error: Seq<char>) -> ResponseView {
    ResponseView {
        status: BAD_GATEWAY,
        fields: content_type("text/html"@),
        body: error_page(error),
    }
}

/// The proxy to use, by what looking for proxies came to: the first one that was found, and none
/// where looking for them failed.
pub open spec fn chosen_proxy(
    found: Result<Seq<proxy::ProxyView>, FindProxyError>,
) -> proxy::ProxyView {
    match found {
        Ok(list) => proxy::first_proxy(list),
        Err(_) => proxy::ProxyView::Direct,
    }
}

/// How many connections are kept, and for how long.
#[derive(Debug, Clone, Copy)]
pub struct PoolSettings {
    /// The maximum of idle connections per host.
    pub max_idle_per_host: usize,
    /// How long an idle connection is kept, where there is a limit.
    pub idle_timeout: Option<Duration>,
}

/// What a [`Builder`] holds.
pub struct BuilderView {
    pub pac_script: Option<Seq<char>>,
    pub auth: Option<AuthenticatorFactory>,
    pub pool_max_idle_per_host: usize,
    pub pool_idle_timeout: Option<Duration>,
    pub always_use_connect: bool,
}

/// Collects the settings of a session.
#[derive(Debug)]
pub struct Builder {
    pac_script: Option<String>,
    auth: Option<AuthenticatorFactory>,
    pool_max_idle_per_host: usize,
    pool_idle_timeout: Option<Duration>,
    always_use_connect: bool,
}

impl View for Builder {
    type V = BuilderView;

    closed spec fn view(&self) -> BuilderView {
        BuilderView {
            pac_script: uri::option_text(self.pac_script),
            auth: self.auth,
            pool_max_idle_per_host: self.pool_max_idle_per_host,
            pool_idle_timeout: self.pool_idle_timeout,
            always_use_connect: self.always_use_connect,
        }
    }
}

/// The settings of a session where nothing else is asked for.
pub open spec fn default_settings() -> BuilderView {
    BuilderView {
        pac_script: None,
        auth: None,
        pool_max_idle_per_host: usize::MAX,
        pool_idle_timeout: None,
        always_use_connect: false,
    }
}

impl Default for Builder {
    fn default() -> (r: Self)
        ensures
            r@ == default_settings(),
    {
        Builder {
            pac_script: None,
            auth: None,
            pool_max_idle_per_host: usize::MAX,
            pool_idle_timeout: None,
            always_use_connect: false,
        }
    }
}

impl Builder {
    /// The PAC script used for evaluation.
    ///
    /// Without one, every request goes without a proxy.
    pub fn pac_script(self, pac_script: Option<String>) -> (r: Self)
        ensures
            r@ == (BuilderView { pac_script: uri::option_text(pac_script), ..self@ }),
    {
        Builder { pac_script, ..self }
    }

    /// The authentication to use toward the proxy.
    ///
    /// Without it, none is used.
    pub fn authenticator_factory(self, factory: Option<AuthenticatorFactory>) -> (r: Self)
        ensures
            r@ == (BuilderView { auth: factory, ..self@ }),
    {
        Builder { auth: factory, ..self }
    }

    /// The maximum of idle connections per host.
    pub fn pool_max_idle_per_host(self, max: usize) -> (r: Self)
        ensures
            r@ == (BuilderView { pool_max_idle_per_host: max, ..self@ }),
    {
        Builder { pool_max_idle_per_host: max, ..self }
    }

    /// How long an idle connection is kept, where there is a limit.
    pub fn pool_idle_timeout(self, timeout: Option<Duration>) -> (r: Self)
        ensures
            r@ == (BuilderView { pool_idle_timeout: timeout, ..self@ }),
    {
        Builder { pool_idle_timeout: timeout, ..self }
    }

    /// Whether to use the `CONNECT` method even for HTTP requests.
    pub fn always_use_connect(self, yesno: bool) -> (r: Self)
        ensures
            r@ == (BuilderView { always_use_connect: yesno, ..self@ }),
    {
        Builder { always_use_connect: yesno, ..self }
    }

    /// A session with these settings. Its evaluator waits to be made.
    pub fn build(self) -> (r: Session)
        ensures
            r.evaluator.phase() == evaluator::Phase::Busy(
                evaluator::TaskView::Create(Some(evaluator::script_or_default(self@.pac_script))),
                0,
            ),
            self@.pac_script matches Some(script) ==> r.evaluator.phase() == evaluator::Phase::Busy(
                evaluator::TaskView::Create(Some(script)),
                0,
            ),
            r.evaluator.known() == dns::Entries::empty(),
            r.proxy_clients@ == Seq::<uri::UriView>::empty(),
            r.auth == (match self@.auth {
                Some(factory) => factory,
                None => AuthenticatorFactory::NoAuthentication,
            }),
            r.pool == (PoolSettings {
                max_idle_per_host: self@.pool_max_idle_per_host,
                idle_timeout: self@.pool_idle_timeout,
            }),
            r.always_use_connect == self@.always_use_connect,
    {
        let pac_script: String = match self.pac_script {
            Some(script) => script,
            None => DEFAULT_PAC_SCRIPT.to_owned(),
        };
        let auth: AuthenticatorFactory = match self.auth {
            Some(factory) => factory,
            None => AuthenticatorFactory::NoAuthentication,
        };
        Session {
            evaluator: Evaluator::with_pac_script(pac_script.as_str()),
            proxy_clients: ClientTable::new(),
            auth,
            pool: PoolSettings {
                max_idle_per_host: self.pool_max_idle_per_host,
                idle_timeout: self.pool_idle_timeout,
            },
            always_use_connect: self.always_use_connect,
        }
    }
}

/// What to do with a request.
#[derive(Debug)]
pub enum Next {
    /// Find the proxies for its URI, and send it on.
    FindProxy,
    /// Answer it.
    Respond(Response),
}

/// How to go on after [`Session::find_proxy`].
#[derive(Debug)]
pub enum Lookup {
    /// Drive the session's evaluator.
    Evaluate,
    /// Use this proxy.
    Use(ProxyDesc),
}

/// Where to send a request.
#[derive(Debug, Clone, Copy, PartialEq, Eq, Structural)]
pub enum Upstream {
    /// To the server itself.
    Direct,
    /// To a proxy, with the client in this slot.
    Proxy(ClientSlot),
}

/// How to send a request on.
#[derive(Debug, Clone, Copy, PartialEq, Eq, Structural)]
pub struct Forward {
    /// Where to send it.
    pub upstream: Upstream,
    /// Whether to open a tunnel.
    pub connect: bool,
}

/// A response for a client.
#[derive(Debug)]
pub enum Answer<R> {
    /// The one that was received.
    Received(R),
    /// One that this server makes.
    Local(Response),
}

/// What is kept from one request to the next.
pub struct Session {
    /// Finds the proxies for a request.
    pub evaluator: Evaluator,
    /// The proxies that have a client.
    pub proxy_clients: ClientTable,
    /// The authentication to use toward a proxy.
    pub auth: AuthenticatorFactory,
    /// How many connections a client keeps, and for how long.
    pub pool: PoolSettings,
    /// Whether the `CONNECT` method is used even for HTTP requests.
    pub always_use_connect: bool,
}

/// The fields of a response with a body of some type.
fn content_type_headers(media_type: &str) -> (r: HeaderMap<HeaderValue>)
    requires
        headers::is_printable(media_type@),
    ensures
        headers::fields(r) == content_type(media_type@),
{
    proof {
        reveal_strlit("content-type");
    }
    let mut r: HeaderMap<HeaderValue> = headers::new_map();
    headers::set_field(&mut r, headers::CONTENT_TYPE, headers::text_value(media_type));
    r
}

/// The name and the version of this server, with a slash between them.
fn product() -> (r: String)
    ensures
        r@ == PKG_NAME@ + "/"@ + PKG_VERSION@,
{
    text::concat3(PKG_NAME, "/", PKG_VERSION)
}

/// The answer to a request that failed.
pub fn make_error_response(error: &str) -> (r: Response)
    ensures
        r@ == error_response(error@),
{
    proof {
        reveal_strlit("text/html");
    }
    let mut body: String = text::concat3(
        "<!DOCTYPE html><html><h1>502 Bad Gateway</h1><p>",
        error,
        "</p><hr><p>",
    );
    let name: String = product();
    body.append(name.as_str());
    body.append("</p></html>");
    assert(body@ =~= error_page(error@));
    Response { status: BAD_GATEWAY, headers: content_type_headers("text/html"), body }
}

/// Hands on a response that was received, and answers a request that failed.
pub fn answer<R>(result: Result<R, Error>) -> (r: Answer<R>)
    ensures
        result matches Ok(res) ==> r == Answer::Received(res),
        result matches Err(e) ==> (r matches Answer::Local(res) && res@ == error_response(
            error_text(e@),
        )),
{
    match result {
        Ok(res) => Answer::Received(res),
        Err(e) => {
            let message: String = e.message();
            Answer::Local(make_error_response(message.as_str()))
        },
    }
}

/// The authenticator that was made, or `none` where making one failed.
pub fn authenticator_or_none<A, E>(made: Result<A, E>, none: A) -> (r: A)
    ensures
        r == match made {
            Ok(a) => a,
            Err(_) => none,
        },
{
    match made {
        Ok(a) => a,
        Err(_) => none,
    }
}

/// The proxy to use, by what looking for proxies came to: the first one that was found, and none
/// where looking for them failed.
pub fn choose_proxy(found: Result<Proxies, FindProxyError>) -> (r: ProxyDesc)
    ensures
        r@ == chosen_proxy(evaluator::found_view(found)),
        found matches Ok(proxies) ==> (proxies@.len() > 0 ==> r@ == proxies@[0]),
        found is Err ==> r@ is Direct,
{
    let proxies: Proxies = match found {
        Ok(proxies) => proxies,
        Err(_) => Proxies::direct(),
    };
    proxies.first()
}

/// What sending a request by way of `proxy` comes to, by what came back.
///
/// A response is handed on with a `Via` field that names the proxy; a demand of the proxy for
/// authentication is not, and is an error.
pub fn finish_dispatch(proxy: ProxyDesc, came_back: Result<ResponseHead, ClientError>) -> (r: Result<
    ResponseHead,
    Error,
>)
    requires
        came_back matches Ok(head) ==> head.status == PROXY_AUTHENTICATION_REQUIRED
            || headers::has_room_for_field(headers::fields(head.headers)),
    ensures
        result_view(r) == dispatch_result(proxy@, came_back_view(came_back)),
        came_back matches Ok(head) ==> (r is Ok <==> head.status != 407),
        came_back matches Ok(head) ==> (r matches Ok(out) ==> out.status == head.status),
        came_back is Err ==> r is Err,
{
    match came_back {
        Ok(mut head) => {
            if head.status == PROXY_AUTHENTICATION_REQUIRED {
                return Err(Error::ProxyAuthenticationRequired(proxy));
            }
            let name: String = proxy.text();
            let version: String = product();
            let via: String = text::concat3(name.as_str(), "; ", version.as_str());
            proof {
                reveal_strlit("via");
                reveal_strlit("; ");
                reveal_strlit("/");
                reveal_strlit("proxydetox");
                reveal_strlit("0.1.0");
                assert(via@ =~= via_text(proxy@));
                assert(headers::is_printable(via@));
            }
            headers::set_field(&mut head.headers, headers::VIA, headers::text_value(via.as_str()));
            Ok(head)
        },
        Err(e) => Err(Error::from(e)),
    }
}

/// The answer to a request for this server itself: its PAC script, or its status.
///
/// `dns_cache` is a description of the hosts that were resolved.
pub fn management_page(req: &Request, dns_cache: &str) -> (r: Response)
    ensures
        r@ == management_response(req@, dns_cache@),
{
    proof {
        reveal_strlit("host");
        reveal_strlit("text/html");
        reveal_strlit("application/x-ns-proxy-autoconfig");
    }
    if req.uri.is_path(PAC_PATH) {
        let host: &str = match headers::first_value(&req.headers, headers::HOST) {
            Some(value) => match headers::value_to_str(value) {
                Some(host) => host,
                None => FALLBACK_HOST,
            },
            None => FALLBACK_HOST,
        };
        let body: String = text::concat3(
            "function FindProxyForURL(url, host) { return \"PROXY ",
            host,
            "\"; }\n",
        );
        Response {
            status: OK,
            headers: content_type_headers("application/x-ns-proxy-autoconfig"),
            body,
        }
    } else {
        let name: String = product();
        let mut body: String = text::concat3(
            "<!DOCTYPE html><html><h1>",
            name.as_str(),
            "</h1><h2>DNS Cache</h2><code>",
        );
        body.append(dns_cache);
        body.append("</code></html>");
        assert(body@ =~= status_page(dns_cache@));
        Response { status: OK, headers: content_type_headers("text/html"), body }
    }
}

impl Session {
    /// Collects the settings of a session.
    pub fn builder() -> (r: Builder)
        ensures
            r@ == default_settings(),
    {
        Builder::default()
    }

    /// The session as it is shown to developers: by its name alone, without what it holds.
    pub fn debug(&self) -> (r: String)
        ensures
            r@ == "Session"@,
    {
        "Session".to_owned()
    }

    /// Answers a request that names no other server, and prepares any other one to be sent on.
    pub fn process(&self, req: &mut Request) -> (r: Next)
        ensures
            old(req)@.uri.authority is Some ==> r is FindProxy && final(req)@
                == without_hop_fields(old(req)@) && final(req)@.uri.host is Some,
            old(req)@.uri.authority is None ==> final(req)@ == old(req)@ && (
            r matches Next::Respond(res) && res@ == local_response(
                old(req)@,
                dns::debug_text(self.evaluator.known()),
            )),
    {
        if req.uri.authority().is_some() {
            self.dispatch(req);
            Next::FindProxy
        } else if text::same_text(req.method.as_str(), "GET") {
            Next::Respond(self.management(req))
        } else {
            Next::Respond(
                Response {
                    status: BAD_REQUEST,
                    headers: headers::new_map(),
                    body: "Invalid Requst".to_owned(),
                },
            )
        }
    }

    /// Takes the fields that were meant for this server out of a request that is sent on.
    pub fn dispatch(&self, req: &mut Request)
        ensures
            final(req)@ == without_hop_fields(old(req)@),
    {
        proof {
            reveal_strlit("proxy-connection");
            reveal_strlit("proxy-authorization");
        }
        headers::remove_field(&mut req.headers, headers::PROXY_CONNECTION);
        headers::remove_field(&mut req.headers, headers::PROXY_AUTHORIZATION);
    }

    /// Starts to find the proxy for a URI.
    pub fn find_proxy(&mut self, uri: &Uri) -> (r: Lookup)
        requires
            old(self).evaluator.phase() is Idle,
        ensures
            uri@.host is None ==> (r matches Lookup::Use(p) && p@ == chosen_proxy(
                Err(FindProxyError::NoHost),
            )) && final(self).evaluator.phase() is Idle,
            uri@.host matches Some(host) ==> r is Evaluate && final(self).evaluator.phase()
                == evaluator::Phase::Busy(
                evaluator::TaskView::FindProxy(uri::uri_text(uri@), host),
                0,
            ),
            final(self).evaluator.known() == old(self).evaluator.known(),
            final(self).proxy_clients@ == old(self).proxy_clients@,
            final(self).auth == old(self).auth,
            final(self).pool == old(self).pool,
            final(self).always_use_connect == old(self).always_use_connect,
    {
        match self.evaluator.find_proxy(uri) {
            Ok(()) => Lookup::Evaluate,
            Err(e) => Lookup::Use(choose_proxy(Err(e))),
        }
    }

    /// The slot of the client for the proxy at `uri`, which gets one where it has none.
    pub fn proxy_client(&mut self, uri: &Uri) -> (r: ClientSlot)
        ensures
            clients::slot_given(old(self).proxy_clients@, uri@, r, final(self).proxy_clients@),
            final(self).evaluator == old(self).evaluator,
            final(self).auth == old(self).auth,
            final(self).pool == old(self).pool,
            final(self).always_use_connect == old(self).always_use_connect,
    {
        self.proxy_clients.slot(uri)
    }

    /// How to send a request on by way of `proxy`.
    pub fn dispatch_with_proxy(&mut self, proxy: &ProxyDesc, req: &Request) -> (r: Forward)
        ensures
            r.connect == uses_tunnel(old(self).always_use_connect, req@.method),
            r.connect == (old(self).always_use_connect || req.method@ == "CONNECT"@),
            proxy@ is Direct ==> r.upstream is Direct && final(self).proxy_clients@
                == old(self).proxy_clients@,
            proxy@ matches proxy::ProxyView::Proxy(address) ==> (
            r.upstream matches Upstream::Proxy(slot) && clients::slot_given(
                old(self).proxy_clients@,
                address,
                slot,
                final(self).proxy_clients@,
            )),
            final(self).evaluator == old(self).evaluator,
            final(self).auth == old(self).auth,
            final(self).pool == old(self).pool,
            final(self).always_use_connect == old(self).always_use_connect,
    {
        let upstream: Upstream = match proxy {
            ProxyDesc::Direct => Upstream::Direct,
            ProxyDesc::Proxy(address) => Upstream::Proxy(self.proxy_client(address)),
        };
        let connect: bool = text::same_text(req.method.as_str(), "CONNECT")
            || self.always_use_connect;
        Forward { upstream, connect }
    }

    /// The answer to a request for this server itself: its PAC script, or its status with the hosts
    /// that were resolved.
    pub fn management(&self, req: &Request) -> (r: Response)
        ensures
            r@ == management_response(req@, dns::debug_text(self.evaluator.known())),
    {
        let dns_cache: String = dns::describe(&self.evaluator.cache());
        management_page(req, dns_cache.as_str())
    }
}

/// A request is sent on without the fields that were meant for this server, and with every other
/// field as it was; taking them out once more changes nothing.
pub proof fn law_hop_fields_are_removed(req: RequestView, name: Seq<char>)
    ensures
        ({
            let sent = without_hop_fields(req);
            &&& !sent.fields.dom().contains("proxy-connection"@)
            &&& !sent.fields.dom().contains("proxy-authorization"@)
            &&& sent.method == req.method
            &&& sent.uri == req.uri
            &&& name != "proxy-connection"@ && name != "proxy-authorization"@
                ==> headers::values_of(sent.fields, name) == headers::values_of(req.fields, name)
            &&& without_hop_fields(sent) == sent
        }),
{
    let sent = without_hop_fields(req);
    assert(without_hop_fields(sent).fields =~= sent.fields);
}

/// A demand of an upstream proxy for authentication never reaches the client, and every response
/// that does has one `Via` field, which names the proxy; its status and its other fields are as
/// they came back.
pub proof fn law_responses_handed_on(
    p: proxy::ProxyView,
    came_back: Result<HeadView, ClientError>,
    name: Seq<char>,
)
    requires
        dispatch_result(p, came_back) is Ok,
    ensures
        ({
            let head = dispatch_result(p, came_back)->Ok_0;
            &&& came_back is Ok
            &&& head.status != PROXY_AUTHENTICATION_REQUIRED
            &&& head.status == came_back->Ok_0.status
            &&& headers::values_of(head.fields, "via"@) == seq![utf8::encode_utf8(via_text(p))]
            &&& name != "via"@ ==> headers::values_of(head.fields, name) == headers::values_of(
                came_back->Ok_0.fields,
                name,
            )
        }),
{
}

/// A client whose request an upstream proxy refused for want of authentication is told so: it
/// gets status 502 and a page that names the proxy.
pub proof fn law_refused_request_is_explained(p: proxy::ProxyView, head: HeadView)
    requires
        head.status == PROXY_AUTHENTICATION_REQUIRED,
    ensures
        dispatch_result(p, Ok(head)) == Err::<HeadView, ErrorView>(
            ErrorView::ProxyAuthenticationRequired(p),
        ),
        error_response(error_text(ErrorView::ProxyAuthenticationRequired(p))).status == BAD_GATEWAY,
        exists|before: Seq<char>, after: Seq<char>|
            #![trigger before + proxy::proxy_text(p) + after]
            error_response(error_text(ErrorView::ProxyAuthenticationRequired(p))).body == before
                + proxy::proxy_text(p) + after,
{
    let before = "<!DOCTYPE html><html><h1>502 Bad Gateway</h1><p>"@ + "upstream proxy ("@;
    let after = ") requires authentication"@ + "</p><hr><p>"@ + PKG_NAME@ + "/"@ + PKG_VERSION@
        + "</p></html>"@;
    assert(error_page(error_text(ErrorView::ProxyAuthenticationRequired(p))) =~= before
        + proxy::proxy_text(p) + after);
}

/// A script whose function returns one text.
pub open spec fn script_returning(result: Seq<char>) -> Seq<char> {
    "function FindProxyForURL(url, host) { return \""@ + result + "\"; }"@
}

/// Without a PAC script every request goes without a proxy: the script that is used returns
/// `DIRECT`, and a script that returns this has the request sent to the server itself.
pub proof fn law_default_script_goes_direct()
    ensures
        evaluator::script_or_default(None) == script_returning("DIRECT"@),
        chosen_proxy(evaluator::proxies_in_value(evaluator::Reply::Text("DIRECT"@)))
            == proxy::ProxyView::Direct,
{
    reveal_strlit("function FindProxyForURL(url, host) { return \"DIRECT\"; }");
    reveal_strlit("function FindProxyForURL(url, host) { return \"");
    reveal_strlit("\"; }");
    reveal_strlit("DIRECT");
    assert(DEFAULT_PAC_SCRIPT@ =~= script_returning("DIRECT"@));
    proxy::lemma_direct();
}

/// The PAC script that this server hands out leads back to it: the script returns the entry for the
/// host that the client used to reach this server, and where this is the address of a proxy, an
/// engine in which the script returned it has every lookup end with that proxy.
pub proof fn law_own_script_leads_here(
    req: RequestView,
    dns_cache: Seq<char>,
    url: Seq<char>,
    url_host: Seq<char>,
    replies: Seq<evaluator::Reply>,
)
    requires
        uri::is_local_path(req.uri, PAC_PATH@),
        own_host(req.fields).len() > 0,
        uri::is_visible(own_host(req.fields)),
        !own_host(req.fields).contains(';'),
        proxy::proxy_at_address(uri::uri_components(own_host(req.fields))) is Some,
        replies.len() == 5,
        evaluator::all_well(replies, 3),
        replies[4] == evaluator::Reply::Text("PROXY "@ + own_host(req.fields)),
    ensures
        ({
            let entry = "PROXY "@ + own_host(req.fields);
            let here = proxy::ProxyView::Proxy(uri::uri_components(own_host(req.fields))->0);
            let lookup = evaluator::TaskView::FindProxy(url, url_host);
            &&& management_response(req, dns_cache).body == script_returning(entry) + "\n"@
            &&& proxy::result_proxies(entry) == Some(seq![here])
            &&& evaluator::drive(evaluator::Phase::Busy(lookup, 0), replies) == (
                evaluator::Phase::Idle,
                evaluator::OutcomeView::ProxiesFound(Ok(seq![here])),
            )
            &&& chosen_proxy(Ok(seq![here])) == here
        }),
{
    let host = own_host(req.fields);
    reveal_strlit("function FindProxyForURL(url, host) { return \"PROXY ");
    reveal_strlit("function FindProxyForURL(url, host) { return \"");
    reveal_strlit("\"; }\n");
    reveal_strlit("\"; }");
    reveal_strlit("PROXY ");
    reveal_strlit("\n");
    assert(own_pac_script(host) =~= script_returning("PROXY "@ + host) + "\n"@);
    proxy::law_named_proxy_is_found(host);
    assert(!(replies[0] is Failed) && !(replies[1] is Failed) && !(replies[2] is Failed));
    evaluator::law_find_proxy(url, url_host, replies);
}

/// Where looking for proxies fails, whatever the reason, the request goes without one.
pub proof fn law_failed_lookup_goes_direct(e: FindProxyError)
    ensures
        chosen_proxy(Err(e)) == proxy::ProxyView::Direct,
{
}

/// The proxy that is chosen is the first one that was found, whatever comes after it; of the result
/// of a script it is the one that its first entry names.
pub proof fn law_first_named_proxy_is_chosen(
    found: Seq<proxy::ProxyView>,
    entry: Seq<char>,
    list: Seq<char>,
)
    ensures
        found.len() > 0 ==> chosen_proxy(Ok(found)) == found[0],
        proxy::listed_proxies(list) is Some ==> (proxy::listed_proxies(entry) matches Some(named)
            ==> (named.len() > 0 ==> chosen_proxy(
            evaluator::proxies_in_value(evaluator::Reply::Text(entry + ";"@ + list)),
        ) == named[0])),
{
    if let Some(named) = proxy::listed_proxies(entry) {
        if named.len() > 0 && proxy::listed_proxies(list) is Some {
            proxy::law_first_entry_comes_first(entry, list);
        }
    }
}

/// A request is sent through a tunnel where its method is `CONNECT`, and for no other method unless
/// all requests are.
pub proof fn law_tunnel_is_for_connect(method: Seq<char>)
    ensures
        uses_tunnel(false, method) <==> method == "CONNECT"@,
        uses_tunnel(true, method),
{
}

/// Every response but a demand of the proxy for authentication is handed on, with its status, with
/// each of its fields but `Via` as it was, and with no further field.
pub proof fn law_every_other_response_is_handed_on(
    p: proxy::ProxyView,
    head: HeadView,
    name: Seq<char>,
)
    requires
        head.status != 407,
    ensures
        dispatch_result(p, Ok(head)) is Ok,
        ({
            let out = dispatch_result(p, Ok(head))->Ok_0;
            &&& out.status == head.status
            &&& out.fields.dom().contains("via"@)
            &&& out.fields["via"@] == seq![utf8::encode_utf8(via_text(p))]
            &&& name != "via"@ ==> (out.fields.dom().contains(name) <==> head.fields.dom().contains(
                name,
            ))
            &&& name != "via"@ && head.fields.dom().contains(name) ==> out.fields[name]
                == head.fields[name]
        }),
{
}

/// A failure of the client is handed on as what it is, with its cause, whatever the proxy.
pub proof fn law_failures_keep_their_cause(p: proxy::ProxyView, e: auth::Error, cause: String)
    ensures
        dispatch_result(p, Err(ClientError::Auth(e))) == Err::<HeadView, ErrorView>(
            ErrorView::Auth(e.cause@),
        ),
        dispatch_result(p, Err(ClientError::Hyper(cause))) == Err::<HeadView, ErrorView>(
            ErrorView::Hyper(cause@),
        ),
        dispatch_result(p, Err(ClientError::InvalidUri)) == Err::<HeadView, ErrorView>(
            ErrorView::InvalidUri,
        ),
{
}

/// The value of the `Via` field begins with the text of the proxy, and the name and version of this
/// server follow.
pub proof fn law_via_names_the_proxy(p: proxy::ProxyView)
    ensures
        via_text(p) == proxy::proxy_text(p) + "; proxydetox/0.1.0"@,
{
    reveal_strlit("; ");
    reveal_strlit("/");
    reveal_strlit("proxydetox");
    reveal_strlit("0.1.0");
    reveal_strlit("; proxydetox/0.1.0");
    assert(via_text(p) =~= proxy::proxy_text(p) + "; proxydetox/0.1.0"@);
}

/// The message of an error says of what kind it is, and holds its whole cause.
pub proof fn law_message_holds_the_cause(cause: Seq<char>, p: proxy::ProxyView)
    ensures
        error_text(ErrorView::Io(cause)) == "I/O error: "@ + cause,
        error_text(ErrorView::Hyper(cause)) == "hyper error: "@ + cause,
        error_text(ErrorView::Auth(cause)) == "authentication mechanism error: "@ + cause,
        error_text(ErrorView::InvalidUri) == "invalid URI"@,
        error_text(ErrorView::ProxyAuthenticationRequired(p)) == "upstream proxy ("@
            + proxy::proxy_text(p) + ") requires authentication"@,
{
}

/// Every failure is answered with status 502 and a page that holds the whole message.
pub proof fn law_failure_is_answered(error: Seq<char>, name: Seq<char>)
    ensures
        error_response(error).status == 502,
        error_response(error).fields.dom().contains(name) <==> name == "content-type"@,
        error_response(error).fields["content-type"@] == seq![utf8::encode_utf8("text/html"@)],
        error_response(error).body == "<!DOCTYPE html><html><h1>502 Bad Gateway</h1><p>"@ + error
            + "</p><hr><p>proxydetox/0.1.0</p></html>"@,
{
    reveal_strlit("</p><hr><p>");
    reveal_strlit("proxydetox");
    reveal_strlit("/");
    reveal_strlit("0.1.0");
    reveal_strlit("</p></html>");
    reveal_strlit("</p><hr><p>proxydetox/0.1.0</p></html>");
    assert(error_page(error) =~= "<!DOCTYPE html><html><h1>502 Bad Gateway</h1><p>"@ + error
        + "</p><hr><p>proxydetox/0.1.0</p></html>"@);
}

/// Of the requests that name no other server, those with the method `GET` are answered as requests
/// for this server itself, and all others are refused.
pub proof fn law_only_get_is_answered(req: RequestView, dns_cache: Seq<char>, name: Seq<char>)
    ensures
        req.method == "GET"@ ==> local_response(req, dns_cache) == management_response(
            req,
            dns_cache,
        ),
        req.method != "GET"@ ==> local_response(req, dns_cache).status == 400 && local_response(
            req,
            dns_cache,
        ).body == "Invalid Requst"@ && !local_response(req, dns_cache).fields.dom().contains(name),
{
}

/// Who asks for the PAC script gets the one that names the host of the request's first `Host` value,
/// where this is text, and the local host otherwise. No other part of the request counts.
pub proof fn law_pac_script_names_the_host(
    req: RequestView,
    dns_cache: Seq<char>,
    name: Seq<char>,
)
    requires
        req.uri.scheme is None,
        req.uri.authority is None,
        req.uri.path == "/proxy.pac"@,
        req.uri.query matches Some(q) ==> q.len() == 0,
    ensures
        ({
            let res = management_response(req, dns_cache);
            let has_host = req.fields.dom().contains("host"@) && req.fields["host"@].len() > 0;
            let first = req.fields["host"@][0];
            let is_text = forall|i: int|
                0 <= i < first.len() ==> 32 <= #[trigger] first[i] <= 126 || first[i] == 9;
            let host = if has_host && is_text {
                Seq::new(first.len(), |i: int| first[i] as char)
            } else {
                "127.0.0.1:3128"@
            };
            &&& res.status == 200
            &&& res.fields.dom().contains(name) <==> name == "content-type"@
            &&& res.fields["content-type"@] == seq![
                utf8::encode_utf8("application/x-ns-proxy-autoconfig"@),
            ]
            &&& res.body == "function FindProxyForURL(url, host) { return \"PROXY "@ + host
                + "\"; }\n"@
        }),
{
    if req.fields.dom().contains("host"@) && req.fields["host"@].len() > 0 {
        let first = req.fields["host"@][0];
        headers::law_text_of_a_value(first);
        if let Some(t) = headers::value_text(first) {
            assert(t =~= Seq::new(first.len(), |i: int| first[i] as char));
        }
    }
}

/// Who asks for anything else gets the page with the hosts that were resolved, whole.
pub proof fn law_other_requests_get_the_status(
    req: RequestView,
    dns_cache: Seq<char>,
    name: Seq<char>,
)
    requires
        req.uri.scheme is Some || req.uri.authority is Some || req.uri.path != "/proxy.pac"@ || (
        req.uri.query matches Some(q) && q.len() > 0),
    ensures
        ({
            let res = management_response(req, dns_cache);
            &&& res.status == 200
            &&& res.fields.dom().contains(name) <==> name == "content-type"@
            &&& res.fields["content-type"@] == seq![utf8::encode_utf8("text/html"@)]
            &&& res.body
                == "<!DOCTYPE html><html><h1>proxydetox/0.1.0</h1><h2>DNS Cache</h2><code>"@
                + dns_cache + "</code></html>"@
        }),
{
    reveal_strlit("<!DOCTYPE html><html><h1>");
    reveal_strlit("proxydetox");
    reveal_strlit("/");
    reveal_strlit("0.1.0");
    reveal_strlit("</h1><h2>DNS Cache</h2><code>");
    reveal_strlit("<!DOCTYPE html><html><h1>proxydetox/0.1.0</h1><h2>DNS Cache</h2><code>");
    assert(status_page(dns_cache)
        =~= "<!DOCTYPE html><html><h1>proxydetox/0.1.0</h1><h2>DNS Cache</h2><code>"@ + dns_cache
        + "</code></html>"@);
}

/// Where nothing is asked for, no script, no authentication and no limit is set, and no tunnel is
/// forced.
pub proof fn law_nothing_is_set_by_default()
    ensures
        default_settings().pac_script is None,
        default_settings().auth is None,
        default_settings().pool_max_idle_per_host == usize::MAX,
        default_settings().pool_idle_timeout is None,
        !default_settings().always_use_connect,
{
}

/// Requests and responses are seen with all that they hold.
pub proof fn law_messages_are_seen_whole(req: Request, res: Response, head: ResponseHead)
    ensures
        req@.method == req.method@,
        req@.uri == req.uri@,
        req@.fields == headers::fields(req.headers),
        res@.status == res.status,
        res@.fields == headers::fields(res.headers),
        res@.body == res.body@,
        head@.status == head.status,
        head@.fields == headers::fields(head.headers),
        came_back_view(Ok(head)) == Ok::<HeadView, ClientError>(head@),
        result_view(Ok(head)) == Ok::<HeadView, ErrorView>(head@),
{
}

/// Errors are seen as what they are, with their cause.
pub proof fn law_errors_are_seen_whole(
    e: auth::Error,
    cause: String,
    p: ProxyDesc,
    failure: ClientError,
    error: Error,
)
    ensures
        Error::Io(cause)@ == ErrorView::Io(cause@),
        Error::Hyper(cause)@ == ErrorView::Hyper(cause@),
        Error::Auth(e)@ == ErrorView::Auth(e.cause@),
        Error::InvalidUri@ == ErrorView::InvalidUri,
        Error::ProxyAuthenticationRequired(p)@ == ErrorView::ProxyAuthenticationRequired(p@),
        came_back_view(Err(failure)) == Err::<HeadView, ClientError>(failure),
        result_view(Err(error)) == Err::<HeadView, ErrorView>(error@),
{
}

/// A failure of the client becomes the error of the same kind, with its cause.
pub proof fn law_failures_become_errors(e: auth::Error, cause: String)
    ensures
        <Error as vstd::std_specs::convert::FromSpec<ClientError>>::from_spec(ClientError::Auth(e))
            == Error::Auth(e),
        <Error as vstd::std_specs::convert::FromSpec<ClientError>>::from_spec(
            ClientError::Hyper(cause),
        ) == Error::Hyper(cause),
        <Error as vstd::std_specs::convert::FromSpec<ClientError>>::from_spec(
            ClientError::InvalidUri,
        ) == Error::InvalidUri,
{
}

}
