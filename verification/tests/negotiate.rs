use http::header::{PROXY_AUTHENTICATE, PROXY_AUTHORIZATION};
use http::{HeaderMap, HeaderValue};
use proxydetox::negotiate::{
    authorization, authorization_for, latest, negotiate_payload, service_name, GssAuthenticator,
    GssOutcome, NegotiateAction, GSS_S_BAD_MECH,
};
use proxydetox::uri::Uri;

fn challenges(values: &[&[u8]]) -> HeaderMap<HeaderValue> {
    let mut headers = HeaderMap::new();
    for value in values {
        headers.append(PROXY_AUTHENTICATE, HeaderValue::from_bytes(value).unwrap());
    }
    headers
}

fn authenticator() -> GssAuthenticator {
    GssAuthenticator::new(&Uri::parse("http://proxy.example.org:3128/").unwrap()).unwrap()
}

#[test]
fn token_is_decoded_from_the_challenge() {
    assert_eq!(
        GssAuthenticator::server_token(&challenges(&[b"Negotiate aGVsbG8="])),
        Some(b"hello".to_vec())
    );
}

#[test]
fn other_challenges_have_no_token() {
    for value in [
        &b"Basic realm=\"x\""[..],
        b"Negotiate",
        b"Negotiate !!",
        b"Negotiate  aGVsbG8=",
        b"negotiate aGVsbG8=",
        b"NegotiateX aGVsbG8=",
        b"Negotiate aGVsbG8=\xff",
        b"\xffNegotiate aGVsbG8=",
    ] {
        assert_eq!(GssAuthenticator::server_token(&challenges(&[value])), None);
    }
    assert_eq!(GssAuthenticator::server_token(&HeaderMap::new()), None);
    assert_eq!(
        GssAuthenticator::server_token(&challenges(&[b"Negotiate "])),
        Some(Vec::new())
    );
}

#[test]
fn last_token_counts() {
    let headers = challenges(&[
        b"Negotiate YQ==",
        b"Basic realm=\"x\"",
        b"Negotiate Yg==",
        b"Negotiate ??",
    ]);
    assert_eq!(GssAuthenticator::server_token(&headers), Some(b"b".to_vec()));
    assert_eq!(latest(Some(vec![1]), Some(vec![2])), Some(vec![2]));
    assert_eq!(latest(Some(vec![1]), None), Some(vec![1]));
    assert_eq!(latest(None, None), None);
}

#[test]
fn payload_follows_the_scheme_and_a_space() {
    assert_eq!(negotiate_payload("Negotiate abc"), Some("abc"));
    assert_eq!(negotiate_payload("Negotiate a b"), Some("a b"));
    assert_eq!(negotiate_payload("Negotiate"), None);
    assert_eq!(negotiate_payload("Basic abc"), None);
    assert_eq!(negotiate_payload(""), None);
}

#[test]
fn step_asks_for_a_token() {
    let auth = authenticator();
    match auth.step(None) {
        NegotiateAction::AskToken { service_name, server_token } => {
            assert_eq!(service_name, "http@proxy.example.org");
            assert_eq!(server_token, None);
        }
        NegotiateAction::Send(_) => panic!("no token was asked for"),
    }
    match auth.step(Some(&challenges(&[b"Negotiate aGVsbG8="]))) {
        NegotiateAction::AskToken { server_token, .. } => {
            assert_eq!(server_token, Some(b"hello".to_vec()));
        }
        NegotiateAction::Send(_) => panic!("no token was asked for"),
    }
}

#[test]
fn service_is_named_by_the_host() {
    assert_eq!(service_name(&Uri::parse("a:1").unwrap()), "http@a");
}

#[test]
fn token_is_sent() {
    let mut auth = authenticator();
    let headers = auth.finish(&GssOutcome::Token(b"hello".to_vec()));
    assert_eq!(headers.len(), 1);
    assert_eq!(headers.get(PROXY_AUTHORIZATION).unwrap(), "Negotiate aGVsbG8=");
    assert!(matches!(auth.step(None), NegotiateAction::AskToken { .. }));
}

#[test]
fn token_that_is_sent_can_be_read_back() {
    for token in [&b""[..], b"a", b"ab", b"abc", &[0, 255, 62, 63, 251, 240]] {
        let value = authorization_for(token);
        assert_eq!(
            GssAuthenticator::server_token(&challenges(&[value.as_bytes()])),
            Some(token.to_vec())
        );
    }
    assert_eq!(authorization_for(b"hello"), "Negotiate aGVsbG8=");
    assert_eq!(authorization("x"), "Negotiate x");
}

#[test]
fn established_context_sends_nothing() {
    let mut auth = authenticator();
    assert!(auth.finish(&GssOutcome::Complete).is_empty());
    assert!(matches!(auth.step(None), NegotiateAction::AskToken { .. }));
}

#[test]
fn unsupported_mechanism_ends_authentication() {
    let mut auth = authenticator();
    assert!(auth.finish(&GssOutcome::Error(GSS_S_BAD_MECH)).is_empty());
    for _ in 0..2 {
        match auth.step(Some(&challenges(&[b"Negotiate aGVsbG8="]))) {
            NegotiateAction::Send(headers) => assert!(headers.is_empty()),
            NegotiateAction::AskToken { .. } => panic!("authentication was tried again"),
        }
        auth.finish(&GssOutcome::Complete);
    }
}

#[test]
fn other_errors_do_not_end_authentication() {
    let mut auth = authenticator();
    assert!(auth.finish(&GssOutcome::Error(0x20000)).is_empty());
    assert!(auth.finish(&GssOutcome::Error(0)).is_empty());
    assert!(matches!(auth.step(None), NegotiateAction::AskToken { .. }));
    auth.finish(&GssOutcome::Error(0x30000));
    assert!(matches!(auth.step(None), NegotiateAction::Send(_)));
}
