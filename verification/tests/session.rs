use http::header::HeaderName;
use http::{HeaderMap, HeaderValue, Method, StatusCode};
use proxydetox::auth::{self, AuthenticatorFactory};
use proxydetox::clients::ClientSlot;
use proxydetox::evaluator::{
    proxies_from, FindProxyError, JsReply, Outcome, DEFAULT_PAC_SCRIPT,
};
use proxydetox::headers;
use proxydetox::proxy::{Proxies, ProxyDesc};
use proxydetox::session::{
    answer, authenticator_or_none, choose_proxy, finish_dispatch, make_error_response, management_page, Answer,
    Builder, ClientError, Error, Lookup, Next, Request, ResponseHead, Session, Upstream,
    BAD_GATEWAY, BAD_REQUEST, OK, PKG_NAME, PKG_VERSION, PROXY_AUTHENTICATION_REQUIRED,
};
use proxydetox::uri::Uri;
use std::time::Duration;

fn request(method: &str, uri: &str) -> Request {
    Request {
        method: method.to_string(),
        uri: Uri::parse(uri).unwrap(),
        headers: HeaderMap::new(),
    }
}

fn with_field(mut req: Request, name: &'static str, value: &str) -> Request {
    req.headers.append(HeaderName::from_static(name), HeaderValue::from_str(value).unwrap());
    req
}

fn session() -> Session {
    Session::builder().build()
}

fn respond(req: &mut Request) -> proxydetox::session::Response {
    match session().process(req) {
        Next::Respond(response) => response,
        Next::FindProxy => panic!("the request was not answered"),
    }
}

fn head(status: u16) -> ResponseHead {
    let mut headers = HeaderMap::new();
    headers.append("x-a", HeaderValue::from_static("1"));
    headers.append("via", HeaderValue::from_static("1.1 one"));
    headers.append("via", HeaderValue::from_static("1.1 two"));
    ResponseHead { status, headers }
}

fn proxy(address: &str) -> ProxyDesc {
    ProxyDesc::Proxy(Uri::parse(address).unwrap())
}

#[test]
fn names_and_numbers_are_those_of_http() {
    assert_eq!(OK, StatusCode::OK.as_u16());
    assert_eq!(BAD_REQUEST, StatusCode::BAD_REQUEST.as_u16());
    assert_eq!(
        PROXY_AUTHENTICATION_REQUIRED,
        StatusCode::PROXY_AUTHENTICATION_REQUIRED.as_u16()
    );
    assert_eq!(BAD_GATEWAY, StatusCode::BAD_GATEWAY.as_u16());
    assert_eq!(headers::HOST, http::header::HOST.as_str());
    assert_eq!(headers::VIA, http::header::VIA.as_str());
    assert_eq!(headers::CONTENT_TYPE, http::header::CONTENT_TYPE.as_str());
    assert_eq!(headers::PROXY_AUTHORIZATION, http::header::PROXY_AUTHORIZATION.as_str());
    assert_eq!(headers::PROXY_AUTHENTICATE, http::header::PROXY_AUTHENTICATE.as_str());
    assert_eq!(Method::GET.as_str(), "GET");
    assert_eq!(Method::CONNECT.as_str(), "CONNECT");
}

#[test]
fn request_for_another_server_is_sent_on() {
    let mut req = request("GET", "http://example.org/a");
    req = with_field(req, "proxy-connection", "keep-alive");
    req = with_field(req, "proxy-authorization", "Basic eDp5");
    req = with_field(req, "proxy-authorization", "Basic eDp6");
    req = with_field(req, "accept", "a");
    req = with_field(req, "accept", "b");
    assert!(matches!(session().process(&mut req), Next::FindProxy));
    assert_eq!(req.method, "GET");
    assert_eq!(req.uri.text(), "http://example.org/a");
    assert!(!req.headers.contains_key("proxy-connection"));
    assert!(!req.headers.contains_key("proxy-authorization"));
    let accept: Vec<&HeaderValue> = req.headers.get_all("accept").iter().collect();
    assert_eq!(accept, vec!["a", "b"]);
    assert_eq!(req.headers.len(), 2);
    session().dispatch(&mut req);
    assert_eq!(req.headers.len(), 2);
}

#[test]
fn tunnel_to_another_server_is_sent_on() {
    let mut req = request("CONNECT", "example.org:443");
    assert!(matches!(session().process(&mut req), Next::FindProxy));
}

#[test]
fn pac_script_names_this_server() {
    let mut req = with_field(request("GET", "/proxy.pac"), "host", "proxy:8080");
    let res = respond(&mut req);
    assert_eq!(res.status, 200);
    assert_eq!(
        res.body,
        "function FindProxyForURL(url, host) { return \"PROXY proxy:8080\"; }\n"
    );
    assert_eq!(res.headers.len(), 1);
    assert_eq!(res.headers.get("content-type").unwrap(), "application/x-ns-proxy-autoconfig");
}

#[test]
fn pac_script_without_host_names_the_local_host() {
    let expected = "function FindProxyForURL(url, host) { return \"PROXY 127.0.0.1:3128\"; }\n";
    assert_eq!(respond(&mut request("GET", "/proxy.pac")).body, expected);
    let mut req = request("GET", "/proxy.pac");
    req.headers.append("host", HeaderValue::from_bytes(b"\xff").unwrap());
    assert_eq!(respond(&mut req).body, expected);
}

#[test]
fn own_script_leads_here_and_the_default_one_goes_direct() {
    let mut req = with_field(request("GET", "/proxy.pac"), "host", "proxy:8080");
    let own = respond(&mut req).body;
    for (script, expected) in [
        (own.as_str(), proxy("proxy:8080")),
        (DEFAULT_PAC_SCRIPT, ProxyDesc::Direct),
    ] {
        let returned = script.split('"').nth(1).unwrap().to_string();
        assert_eq!(choose_proxy(proxies_from(&JsReply::Text(returned))), expected);
    }
}

#[test]
fn first_host_field_counts() {
    let req = with_field(request("GET", "/proxy.pac"), "host", "a");
    let mut req = with_field(req, "host", "b");
    assert!(respond(&mut req).body.contains("\"PROXY a\""));
}

#[test]
fn other_paths_show_the_status() {
    for path in ["/", "/proxy.pac?x", "/other"] {
        let res = respond(&mut request("GET", path));
        assert_eq!(res.status, 200);
        assert_eq!(res.headers.get("content-type").unwrap(), "text/html");
        assert_eq!(
            res.body,
            "<!DOCTYPE html><html><h1>proxydetox/0.1.0</h1><h2>DNS Cache</h2><code>[]</code></html>"
        );
    }
}

#[test]
fn status_shows_the_hosts_that_were_resolved() {
    let mut session = session();
    session.evaluator.remember_address("b", Some("192.0.2.1".to_string()));
    session.evaluator.remember_address("a", None);
    session.evaluator.remember_address("b", Some("192.0.2.2".to_string()));
    let req = request("GET", "/");
    let page = session.management(&req).body;
    assert!(page.contains("<code>[(\"b\", Some(\"192.0.2.2\")), (\"a\", None)]</code>"));
    assert_eq!(
        management_page(&req, "x").body,
        "<!DOCTYPE html><html><h1>proxydetox/0.1.0</h1><h2>DNS Cache</h2><code>x</code></html>"
    );
}

#[test]
fn other_methods_are_bad_requests() {
    for method in ["POST", "get", "CONNECT"] {
        let mut req = with_field(request(method, "/proxy.pac"), "proxy-connection", "close");
        let res = respond(&mut req);
        assert_eq!(res.status, 400);
        assert_eq!(res.body, "Invalid Requst");
        assert!(res.headers.is_empty());
        assert_eq!(req.headers.len(), 1);
    }
}

#[test]
fn management_answers_any_request() {
    let req = request("POST", "/proxy.pac");
    assert!(session().management(&req).body.starts_with("function"));
    let req = request("GET", "http://example.org/proxy.pac");
    assert!(session().management(&req).body.starts_with("<!DOCTYPE html>"));
}

#[test]
fn requests_go_to_the_proxy() {
    let mut session = session();
    let req = request("GET", "http://example.org/");
    let direct = session.dispatch_with_proxy(&ProxyDesc::Direct, &req);
    assert_eq!(direct.upstream, Upstream::Direct);
    assert!(!direct.connect);
    let first = session.dispatch_with_proxy(&proxy("a:1"), &req);
    assert_eq!(first.upstream, Upstream::Proxy(ClientSlot::New(0)));
    let again = session.dispatch_with_proxy(&proxy("A:1"), &req);
    assert_eq!(again.upstream, Upstream::Proxy(ClientSlot::Known(0)));
    let other = session.dispatch_with_proxy(&proxy("b:1"), &req);
    assert_eq!(other.upstream, Upstream::Proxy(ClientSlot::New(1)));
    assert_eq!(session.proxy_client(&Uri::parse("b:1").unwrap()), ClientSlot::Known(1));
}

#[test]
fn tunnels_are_opened_for_connect() {
    let connect = request("CONNECT", "example.org:443");
    let get = request("GET", "http://example.org/");
    let mut plain = session();
    assert!(plain.dispatch_with_proxy(&ProxyDesc::Direct, &connect).connect);
    assert!(!plain.dispatch_with_proxy(&ProxyDesc::Direct, &get).connect);
    let mut always = Session::builder().always_use_connect(true).build();
    assert!(always.dispatch_with_proxy(&ProxyDesc::Direct, &get).connect);
    assert!(always.dispatch_with_proxy(&proxy("a:1"), &connect).connect);
}

#[test]
fn response_is_handed_on_with_via() {
    let res = finish_dispatch(proxy("a:1"), Ok(head(404))).unwrap();
    assert_eq!(res.status, 404);
    let via: Vec<&HeaderValue> = res.headers.get_all("via").iter().collect();
    assert_eq!(via, vec!["PROXY a:1; proxydetox/0.1.0"]);
    assert_eq!(res.headers.get("x-a").unwrap(), "1");
    let res = finish_dispatch(ProxyDesc::Direct, Ok(head(200))).unwrap();
    assert_eq!(
        res.headers.get("via").unwrap(),
        format!("DIRECT; {}/{}", PKG_NAME, PKG_VERSION).as_str()
    );
}

#[test]
fn demand_for_authentication_is_an_error() {
    match finish_dispatch(proxy("a:1"), Ok(head(407))) {
        Err(Error::ProxyAuthenticationRequired(p)) => assert_eq!(p, proxy("a:1")),
        _ => panic!("the response was handed on"),
    }
}

#[test]
fn failures_of_the_client_are_errors() {
    let auth = auth::Error { cause: "x".to_string() };
    let messages = [
        (ClientError::Auth(auth), "authentication mechanism error: x"),
        (ClientError::Hyper("y".to_string()), "hyper error: y"),
        (ClientError::InvalidUri, "invalid URI"),
    ];
    for (error, message) in messages {
        match finish_dispatch(ProxyDesc::Direct, Err(error)) {
            Err(e) => assert_eq!(e.message(), message),
            Ok(_) => panic!("the failure was lost"),
        }
    }
    assert_eq!(Error::Io("z".to_string()).message(), "I/O error: z");
    assert!(matches!(Error::from(ClientError::InvalidUri), Error::InvalidUri));
}

#[test]
fn failed_request_gets_a_page() {
    let result: Result<u8, Error> = Err(Error::ProxyAuthenticationRequired(proxy("a:1")));
    match answer(result) {
        Answer::Local(res) => {
            assert_eq!(res.status, 502);
            assert_eq!(res.headers.get("content-type").unwrap(), "text/html");
            assert!(res.body.contains("upstream proxy (PROXY a:1) requires authentication"));
            assert!(res.body.contains("proxydetox/0.1.0"));
        }
        Answer::Received(_) => panic!("there was nothing to hand on"),
    }
    assert!(matches!(answer(Ok(7)), Answer::Received(7)));
    assert_eq!(
        make_error_response("x").body,
        "<!DOCTYPE html><html><h1>502 Bad Gateway</h1><p>x</p><hr><p>proxydetox/0.1.0</p></html>"
    );
}

#[test]
fn first_proxy_is_chosen_and_failure_goes_direct() {
    let found = Proxies::new(vec![proxy("a:1"), ProxyDesc::Direct]);
    assert_eq!(choose_proxy(Ok(found)), proxy("a:1"));
    for error in [
        FindProxyError::NoHost,
        FindProxyError::InvalidResult,
        FindProxyError::InternalError,
    ] {
        assert_eq!(choose_proxy(Err(error)), ProxyDesc::Direct);
    }
}

#[test]
fn session_looks_for_a_proxy_with_its_evaluator() {
    let mut session = Session::builder().pac_script(Some("mine".to_string())).build();
    let mut last = String::new();
    while let Some(action) = session.evaluator.action() {
        last = format!("{:?}", action);
        session.evaluator.advance(JsReply::Done);
    }
    assert_eq!(last, "Eval(\"mine\")");
    match session.find_proxy(&Uri::parse("/").unwrap()) {
        Lookup::Use(p) => assert_eq!(p, ProxyDesc::Direct),
        Lookup::Evaluate => panic!("there is no host"),
    }
    assert!(matches!(
        session.find_proxy(&Uri::parse("http://a/").unwrap()),
        Lookup::Evaluate
    ));
    for _ in 0..4 {
        assert!(matches!(session.evaluator.advance(JsReply::Done), Outcome::Continue));
    }
    match session.evaluator.advance(JsReply::Text("PROXY p:1; DIRECT".to_string())) {
        Outcome::ProxiesFound(found) => assert_eq!(choose_proxy(found), proxy("p:1")),
        _ => panic!("another operation ended"),
    }
}

#[test]
fn session_without_settings_goes_direct() {
    let mut session = session();
    assert_eq!(session.auth, AuthenticatorFactory::NoAuthentication);
    assert_eq!(session.pool.max_idle_per_host, usize::MAX);
    assert_eq!(session.pool.idle_timeout, None);
    assert!(!session.always_use_connect);
    assert!(session.evaluator.cache().is_empty());
    let mut last = String::new();
    while let Some(action) = session.evaluator.action() {
        last = format!("{:?}", action);
        session.evaluator.advance(JsReply::Done);
    }
    assert_eq!(last, format!("Eval({:?})", DEFAULT_PAC_SCRIPT));
    assert_eq!(
        DEFAULT_PAC_SCRIPT,
        "function FindProxyForURL(url, host) { return \"DIRECT\"; }"
    );
}

#[test]
fn session_is_shown_by_its_name() {
    let mut session = session();
    session.evaluator.remember_address("a", None);
    assert_eq!(session.debug(), "Session");
}

#[test]
fn settings_reach_the_session() {
    let session = Builder::default()
        .authenticator_factory(Some(AuthenticatorFactory::Basic))
        .pool_max_idle_per_host(3)
        .pool_idle_timeout(Some(Duration::from_secs(5)))
        .always_use_connect(true)
        .authenticator_factory(Some(AuthenticatorFactory::Negotiate))
        .build();
    assert_eq!(session.auth, AuthenticatorFactory::Negotiate);
    assert_eq!(session.pool.max_idle_per_host, 3);
    assert_eq!(session.pool.idle_timeout, Some(Duration::from_secs(5)));
    assert!(session.always_use_connect);
}

#[test]
fn failing_authenticator_is_replaced() {
    assert_eq!(authenticator_or_none(Ok::<u8, u8>(1), 2), 1);
    assert_eq!(authenticator_or_none(Err::<u8, u8>(1), 2), 2);
}

#[test]
fn header_map_has_room_until_it_is_large() {
    let mut map: HeaderMap<HeaderValue> = HeaderMap::new();
    assert!(headers::has_room(&map));
    for i in 0..headers::MAX_NAMES {
        let name = HeaderName::from_bytes(format!("x-{}", i).as_bytes()).unwrap();
        map.append(name, HeaderValue::from_static("v"));
    }
    map.append("x-0", HeaderValue::from_static("w"));
    assert!(headers::has_room(&map));
    map.append("y", HeaderValue::from_static("v"));
    assert!(!headers::has_room(&map));
}

#[test]
fn server_errors_have_messages() {
    assert_eq!(proxydetox::Error::Io("a".to_string()).message(), "I/O error: a");
    assert_eq!(proxydetox::Error::Hyper("b".to_string()).message(), "HTTP error: b");
    assert_eq!(proxydetox::Error::Netrc("c".to_string()).message(), "netrc error: c");
}
