//! The `Negotiate` authentication scheme.
//!
//! The GSS-API itself is asked for tokens by the caller: [`GssAuthenticator::step`] says what to
//! ask it for, and [`GssAuthenticator::finish`] takes its answer.
use crate::auth;
use crate::headers;
use crate::text;
use crate::uri::Uri;
use http::{HeaderMap, HeaderValue};
use vstd::prelude::*;
use vstd::string::*;
use vstd::utf8;

verus! {

/// The bit of a major status that stands for a mechanism that is not supported.
pub const GSS_S_BAD_MECH: u32 = 0x10000;

/// The standard, padded Base64 text of `bytes`, as `base64::encode` writes it.
pub uninterp spec fn base64_text(bytes: Seq<u8>) -> Seq<char>;

/// The bytes that `base64::decode` reads from `text`, or `None` where it refuses the text.
pub uninterp spec fn base64_bytes(text: Seq<char>) -> Option<Seq<u8>>;

/// A character of the standard Base64 alphabet, or the padding.
pub open spec fn is_base64_char(c: char) -> bool {
    'A' <= c <= 'Z' || 'a' <= c <= 'z' || '0' <= c <= '9' || c == '+' || c == '/' || c == '='
}

pub open spec fn is_base64_text(s: Seq<char>) -> bool {
    forall|i: int| 0 <= i < s.len() ==> is_base64_char(#[trigger] s[i])
}

/// Whether the Base64 text of `len` bytes fits in memory.
pub open spec fn is_encodable(len: nat) -> bool {
    (len / 3 + 1) * 4 <= isize::MAX
}

pub open spec fn option_bytes(b: Option<Vec<u8>>) -> Option<Seq<u8>> {
    match b {
        Some(v) => Some(v@),
        None => None,
    }
}

/// Calls `base64::encode`.
///
/// Trusted: the text depends on the bytes alone ([`base64_text`]), is made of the standard
/// alphabet and padding, and decodes to the same bytes. The call panics where the length of the
/// text overflows.
#[verifier::external_body]
fn encode(bytes: &[u8]) -> (r: String)
    requires
        is_encodable(bytes@.len()),
    ensures
        r@ == base64_text(bytes@),
        is_base64_text(r@),
        base64_bytes(r@) == Some(bytes@),
{
    base64::encode(bytes)
}

/// Calls `base64::decode`.
///
/// Trusted: the result depends on the text alone ([`base64_bytes`]).
#[verifier::external_body]
fn decode(text: &str) -> (r: Option<Vec<u8>>)
    ensures
        option_bytes(r) == base64_bytes(text@),
{
    base64::decode(text).ok()
}

/// The part of a challenge that follows `Negotiate` and one space.
pub open spec fn payload(challenge: Seq<char>) -> Option<Seq<char>> {
    let i = text::index_of_char(challenge, ' ');
    if i < challenge.len() && challenge.take(i) == "Negotiate"@ {
        Some(challenge.skip(i + 1))
    } else {
        None
    }
}

/// The token in the text of a challenge.
pub open spec fn token_in_text(challenge: Seq<char>) -> Option<Seq<u8>> {
    match payload(challenge) {
        Some(p) => base64_bytes(p),
        None => None,
    }
}

/// The token in a header value: `Negotiate`, a space and the token in Base64.
pub open spec fn token_in_value(value: Seq<u8>) -> Option<Seq<u8>> {
    match headers::value_text(value) {
        Some(t) => token_in_text(t),
        None => None,
    }
}

/// The token in the last of `values` that holds one.
pub open spec fn last_token(values: Seq<Seq<u8>>) -> Option<Seq<u8>>
    decreases values.len(),
{
    if values.len() == 0 {
        None
    } else {
        match token_in_value(values.last()) {
            Some(token) => Some(token),
            None => last_token(values.drop_last()),
        }
    }
}

/// The token that the proxy sent in its `Proxy-Authenticate` fields.
pub open spec fn token_in_fields(f: headers::Fields) -> Option<Seq<u8>> {
    last_token(headers::values_of(f, "proxy-authenticate"@))
}

/// The value of a `Proxy-Authorization` field with a token in Base64.
pub open spec fn credentials(b64: Seq<char>) -> Seq<char> {
    "Negotiate "@ + b64
}

/// The name that the proxy's service has in the GSS-API.
pub open spec fn service_name_of(host: Seq<char>) -> Seq<char> {
    "http@"@ + host
}

/// What asking the GSS-API for a token came to.
#[derive(Debug)]
pub enum GssOutcome {
    /// A token to send to the proxy.
    Token(Vec<u8>),
    /// The context is established; there is nothing to send.
    Complete,
    /// An error, with its major status.
    Error(u32),
}

/// What to do for the next request.
#[derive(Debug)]
pub enum NegotiateAction {
    /// Send the request with these fields added.
    Send(HeaderMap<HeaderValue>),
    /// Ask the GSS-API for a token.
    AskToken {
        /// The host-based name of the service.
        service_name: String,
        /// The token that the proxy sent, where it sent one.
        server_token: Option<Vec<u8>>,
    },
}

/// Whether a major status says that the mechanism is not supported.
pub open spec fn is_bad_mech(major: u32) -> bool {
    major & GSS_S_BAD_MECH == GSS_S_BAD_MECH
}

/// Whether authentication is still tried after an outcome.
pub open spec fn enabled_after(enabled: bool, outcome: GssOutcome) -> bool {
    enabled && !(outcome matches GssOutcome::Error(major) && is_bad_mech(major))
}

/// The fields to send after an outcome.
pub open spec fn fields_after(outcome: GssOutcome) -> headers::Fields {
    match outcome {
        GssOutcome::Token(token) => headers::no_fields().insert(
            "proxy-authorization"@,
            seq![utf8::encode_utf8(credentials(base64_text(token@)))],
        ),
        _ => headers::no_fields(),
    }
}

/// The part of a challenge that follows `Negotiate` and one space.
pub fn negotiate_payload<'a>(challenge: &'a str) -> (r: Option<&'a str>)
    ensures
        crate::uri::option_str(r) == payload(challenge@),
{
    let i: usize = text::find_char(challenge, ' ');
    let n: usize = challenge.unicode_len();
    if i < n && text::same_text(challenge.substring_char(0, i), "Negotiate") {
        assert(challenge@.subrange(0, i as int) =~= challenge@.take(i as int));
        let rest = challenge.substring_char(i + 1, n);
        assert(rest@ =~= challenge@.skip(i + 1));
        Some(rest)
    } else {
        assert(i < n ==> challenge@.subrange(0, i as int) =~= challenge@.take(i as int));
        None
    }
}

/// The value of a `Proxy-Authorization` field with a token in Base64.
pub fn authorization(b64: &str) -> (r: String)
    ensures
        r@ == credentials(b64@),
{
    text::concat2("Negotiate ", b64)
}

proof fn lemma_payload_of_credentials(b64: Seq<char>)
    ensures
        payload(credentials(b64)) == Some(b64),
{
    reveal_strlit("Negotiate ");
    reveal_strlit("Negotiate");
    let c = credentials(b64);
    text::lemma_index_of_char(c, ' ', 9);
    assert(c.take(9) =~= "Negotiate"@);
    assert(c.skip(10) =~= b64);
}

/// The value of the `Proxy-Authorization` field that sends `token`.
///
/// Whoever reads the token of a challenge out of this value gets `token` back.
pub fn authorization_for(token: &[u8]) -> (r: String)
    requires
        is_encodable(token@.len()),
    ensures
        r@ == credentials(base64_text(token@)),
        headers::is_printable(r@),
        token_in_text(r@) == Some(token@),
        token_in_value(utf8::encode_utf8(r@)) == Some(token@),
{
    let b64: String = encode(token);
    let r: String = authorization(b64.as_str());
    proof {
        lemma_payload_of_credentials(b64@);
        reveal_strlit("Negotiate ");
        assert(headers::is_printable(r@));
        headers::law_printable_text_is_a_value(r@);
    }
    r
}

/// The token to go by after another challenge: its own where it has one, else the one before.
pub fn latest(before: Option<Vec<u8>>, decoded: Option<Vec<u8>>) -> (r: Option<Vec<u8>>)
    ensures
        r == if decoded is Some {
            decoded
        } else {
            before
        },
{
    match decoded {
        Some(bytes) => Some(bytes),
        None => before,
    }
}

/// The name that the service of the proxy at `proxy_url` has in the GSS-API.
pub fn service_name(proxy_url: &Uri) -> (r: String)
    requires
        proxy_url@.host is Some,
    ensures
        r@ == service_name_of(proxy_url@.host->0),
{
    text::concat2("http@", proxy_url.host().unwrap())
}

/// Authentication toward one proxy with tokens of the GSS-API.
#[derive(Debug)]
pub struct GssAuthenticator {
    proxy_url: Uri,
    supports_auth: bool,
}

impl GssAuthenticator {
    /// The address of the proxy.
    pub closed spec fn address(&self) -> crate::uri::UriView {
        self.proxy_url@
    }

    /// Whether authentication is still tried.
    pub closed spec fn enabled(&self) -> bool {
        self.supports_auth
    }

    /// An authenticator for the proxy at `proxy_url`.
    pub fn new(proxy_url: &Uri) -> (r: Result<GssAuthenticator, auth::Error>)
        ensures
            r matches Ok(a) && a.address() == proxy_url@ && a.enabled(),
    {
        Ok(GssAuthenticator { proxy_url: proxy_url.clone(), supports_auth: true })
    }

    /// The token that the proxy sent in the `Proxy-Authenticate` fields of a response: the last one
    /// that is text, says `Negotiate` and holds valid Base64.
    pub fn server_token(response: &HeaderMap<HeaderValue>) -> (r: Option<Vec<u8>>)
        ensures
            option_bytes(r) == token_in_fields(headers::fields(*response)),
    {
        proof {
            reveal_strlit("proxy-authenticate");
        }
        let values: Vec<&HeaderValue> = headers::all_values(response, headers::PROXY_AUTHENTICATE);
        let ghost all = headers::values_of(headers::fields(*response), "proxy-authenticate"@);
        let mut token: Option<Vec<u8>> = None;
        let mut i: usize = 0;
        assert(all.take(0) =~= Seq::empty());
        while i < values.len()
            invariant
                i <= values.len(),
                values.len() == all.len(),
                forall|j: int| #![auto]
                    0 <= j < values.len() ==> headers::value_bytes(*values@[j]) == all[j],
                option_bytes(token) == last_token(all.take(i as int)),
            decreases values.len() - i,
        {
            proof {
                let next = all.take(i + 1);
                assert(next.drop_last() =~= all.take(i as int));
                assert(next.last() == headers::value_bytes(*values@[i as int]));
            }
            if let Some(challenge) = headers::value_to_str(values[i]) {
                if let Some(b64) = negotiate_payload(challenge) {
                    token = latest(token, decode(b64));
                }
            }
            i += 1;
        }
        assert(all.take(i as int) =~= all);
        token
    }

    /// Starts a step: call it for each request, with the fields of the response that asked for
    /// authentication where there is one.
    pub fn step(&self, response: Option<&HeaderMap<HeaderValue>>) -> (r: NegotiateAction)
        requires
            self.enabled() ==> self.address().host is Some,
        ensures
            !self.enabled() <==> r is Send,
            r matches NegotiateAction::Send(h) ==> headers::fields(h) == headers::no_fields(),
            r matches NegotiateAction::AskToken { service_name, server_token } ==> {
                &&& service_name@ == service_name_of(self.address().host->0)
                &&& option_bytes(server_token) == match response {
                    Some(h) => token_in_fields(headers::fields(*h)),
                    None => None,
                }
            },
    {
        if !self.supports_auth {
            return NegotiateAction::Send(headers::new_map());
        }
        let token: Option<Vec<u8>> = match response {
            Some(h) => Self::server_token(h),
            None => None,
        };
        NegotiateAction::AskToken { service_name: service_name(&self.proxy_url), server_token: token }
    }

    /// Ends a step with the answer of the GSS-API: the fields to send with the request.
    pub fn finish(&mut self, outcome: &GssOutcome) -> (r: HeaderMap<HeaderValue>)
        requires
            outcome matches GssOutcome::Token(token) ==> is_encodable(token@.len()),
        ensures
            final(self).address() == old(self).address(),
            final(self).enabled() == enabled_after(old(self).enabled(), *outcome),
            headers::fields(r) == fields_after(*outcome),
            outcome matches GssOutcome::Token(token) ==> last_token(
                headers::values_of(headers::fields(r), "proxy-authorization"@),
            ) == Some(token@),
    {
        let mut out: HeaderMap<HeaderValue> = headers::new_map();
        match outcome {
            GssOutcome::Token(token) => {
                let value: String = authorization_for(token.as_slice());
                proof {
                    reveal_strlit("proxy-authorization");
                }
                headers::add_field(
                    &mut out,
                    headers::PROXY_AUTHORIZATION,
                    headers::text_value(value.as_str()),
                );
                proof {
                    let sent = headers::values_of(headers::fields(out), "proxy-authorization"@);
                    assert(sent =~= seq![utf8::encode_utf8(value@)]);
                    assert(sent.last() == utf8::encode_utf8(value@));
                }
            },
            GssOutcome::Complete => {},
            GssOutcome::Error(major) => {
                if *major & GSS_S_BAD_MECH == GSS_S_BAD_MECH {
                    self.supports_auth = false;
                }
            },
        }
        out
    }
}

/// Once a mechanism was found not to be supported, no outcome has authentication tried again.
pub proof fn law_disabled_for_good(enabled: bool, major: u32, later: GssOutcome)
    requires
        is_bad_mech(major),
    ensures
        !enabled_after(enabled, GssOutcome::Error(major)),
        !enabled_after(enabled_after(enabled, GssOutcome::Error(major)), later),
{
}

/// A value without a token does not hide the token of an earlier one.
pub proof fn law_value_without_token_is_ignored(values: Seq<Seq<u8>>, value: Seq<u8>)
    requires
        token_in_value(value) is None,
    ensures
        last_token(values.push(value)) == last_token(values),
{
    assert(values.push(value).drop_last() =~= values);
}

/// Of several values with a token, the last one counts.
pub proof fn law_last_token_wins(values: Seq<Seq<u8>>, value: Seq<u8>)
    requires
        token_in_value(value) is Some,
    ensures
        last_token(values.push(value)) == token_in_value(value),
{
}

/// The payload of a challenge is all that follows `Negotiate` and one space, and a challenge that
/// does not begin so has none.
pub proof fn law_payload_follows_the_scheme(rest: Seq<char>)
    ensures
        payload("Negotiate "@ + rest) == Some(rest),
        !"Negotiate "@.is_prefix_of(rest) ==> payload(rest) is None,
{
    lemma_payload_of_credentials(rest);
    reveal_strlit("Negotiate ");
    reveal_strlit("Negotiate");
    let i = text::index_of_char(rest, ' ');
    text::lemma_index_of_char_bounds(rest, ' ');
    if i < rest.len() && rest.take(i) == "Negotiate"@ {
        assert(rest.take(i).len() == i);
        assert("Negotiate"@.len() == 9);
        assert forall|j: int| 0 <= j < 10 implies "Negotiate "@[j] == rest[j] by {
            if j < 9 {
                assert(rest.take(i)[j] == rest[j]);
            }
        }
        assert("Negotiate "@ =~= rest.subrange(0, 10));
    }
}

/// A value holds a token exactly where each of its bytes is a printable ASCII character or a tab, it
/// begins with `Negotiate` and a space, and what follows is Base64; the token is what that stands
/// for.
pub proof fn law_token_of_a_value(value: Seq<u8>)
    ensures
        (exists|i: int|
            0 <= i < value.len() && !(32 <= #[trigger] value[i] <= 126 || value[i] == 9))
            ==> token_in_value(value) is None,
        !"Negotiate "@.is_prefix_of(Seq::new(value.len(), |i: int| value[i] as char))
            ==> token_in_value(value) is None,
        "Negotiate "@.is_prefix_of(Seq::new(value.len(), |i: int| value[i] as char)) && (forall|
            i: int,
        |
            0 <= i < value.len() ==> 32 <= #[trigger] value[i] <= 126 || value[i] == 9)
            ==> token_in_value(value) == base64_bytes(
            Seq::new((value.len() - 10) as nat, |i: int| value[i + 10] as char),
        ),
{
    let whole = Seq::new(value.len(), |i: int| value[i] as char);
    headers::law_text_of_a_value(value);
    if let Some(t) = headers::value_text(value) {
        assert(t =~= whole);
    }
    law_payload_follows_the_scheme(whole);
    if "Negotiate "@.is_prefix_of(whole) {
        reveal_strlit("Negotiate ");
        let rest = Seq::new((value.len() - 10) as nat, |i: int| value[i + 10] as char);
        assert(whole.subrange(0, 10) == "Negotiate "@);
        assert forall|j: int| 0 <= j < 10 implies whole[j] == "Negotiate "@[j] by {
            assert(whole.subrange(0, 10)[j] == whole[j]);
        }
        assert(whole =~= "Negotiate "@ + rest);
        law_payload_follows_the_scheme(rest);
    }
}

/// The token of a response is that of the last of all values of its `Proxy-Authenticate` field that
/// holds one, wherever among them it stands.
pub proof fn law_token_of_a_response(f: headers::Fields, i: int)
    requires
        f.dom().contains("proxy-authenticate"@),
        0 <= i < f["proxy-authenticate"@].len(),
        token_in_value(f["proxy-authenticate"@][i]) is Some,
        forall|j: int|
            i < j < f["proxy-authenticate"@].len() ==> token_in_value(
                #[trigger] f["proxy-authenticate"@][j],
            ) is None,
    ensures
        token_in_fields(f) == token_in_value(f["proxy-authenticate"@][i]),
{
    lemma_last_token(f["proxy-authenticate"@], i);
}

proof fn lemma_last_token(values: Seq<Seq<u8>>, i: int)
    requires
        -1 <= i < values.len(),
        i >= 0 ==> token_in_value(values[i]) is Some,
        forall|j: int| i < j < values.len() ==> token_in_value(#[trigger] values[j]) is None,
    ensures
        last_token(values) == if i >= 0 {
            token_in_value(values[i])
        } else {
            None
        },
    decreases values.len(),
{
    if i + 1 < values.len() {
        assert(token_in_value(values[values.len() - 1]) is None);
        lemma_last_token(values.drop_last(), i);
    }
}

/// A response has no token where no value of its `Proxy-Authenticate` field holds one, and none of
/// its other fields counts.
pub proof fn law_response_without_a_token(f: headers::Fields, other: Seq<char>, values: Seq<Seq<u8>>)
    ensures
        !f.dom().contains("proxy-authenticate"@) ==> token_in_fields(f) is None,
        (forall|j: int|
            0 <= j < f["proxy-authenticate"@].len() ==> token_in_value(
                #[trigger] f["proxy-authenticate"@][j],
            ) is None) ==> token_in_fields(f) is None,
        other != "proxy-authenticate"@ ==> token_in_fields(f.insert(other, values))
            == token_in_fields(f),
{
    if forall|j: int|
        0 <= j < f["proxy-authenticate"@].len() ==> token_in_value(
            #[trigger] f["proxy-authenticate"@][j],
        ) is None {
        lemma_last_token(f["proxy-authenticate"@], -1);
    }
}

/// A token is sent in one `Proxy-Authorization` field with one value, `Negotiate`, a space and the
/// token in Base64, and no field is sent without a token.
pub proof fn law_fields_that_are_sent(outcome: GssOutcome, name: Seq<char>)
    ensures
        fields_after(outcome).dom().contains(name) <==> outcome is Token && name
            == "proxy-authorization"@,
        outcome matches GssOutcome::Token(token) ==> fields_after(outcome)["proxy-authorization"@]
            == seq![utf8::encode_utf8("Negotiate "@ + base64_text(token@))],
{
}

/// Authentication goes on after every outcome but an error whose status has the bit for a mechanism
/// that is not supported, and never begins again.
pub proof fn law_authentication_goes_on(enabled: bool, outcome: GssOutcome)
    ensures
        !enabled ==> !enabled_after(enabled, outcome),
        enabled && !(outcome is Error) ==> enabled_after(enabled, outcome),
        enabled ==> (outcome matches GssOutcome::Error(major) ==> enabled_after(enabled, outcome)
            == ((major / 0x10000) % 2 == 0)),
{
    if let GssOutcome::Error(major) = outcome {
        assert((major & 0x10000 == 0x10000) == ((major / 0x10000) % 2 == 1)) by (bit_vector);
    }
}

/// The name of a service is `http@` and the whole host.
pub proof fn law_service_is_named_by_the_host(host: Seq<char>)
    ensures
        "http@"@.is_prefix_of(service_name_of(host)),
        service_name_of(host).skip(5) == host,
{
    reveal_strlit("http@");
    assert(service_name_of(host).subrange(0, 5) =~= "http@"@);
    assert(service_name_of(host).skip(5) =~= host);
}

/// Optional bytes are seen as they are, and as absent only where they are.
pub proof fn law_optional_bytes_are_seen_whole(b: Option<Vec<u8>>)
    ensures
        option_bytes(b) is Some == b is Some,
        b is Some ==> option_bytes(b)->0 == b->0@,
{
}

/// Credentials begin with `Negotiate` and a space, and who reads them as a challenge finds all of the
/// Base64 text in them.
pub proof fn law_credentials_are_read_back(b64: Seq<char>)
    ensures
        credentials(b64) == "Negotiate "@ + b64,
        payload(credentials(b64)) == Some(b64),
{
    law_payload_follows_the_scheme(b64);
}

/// Tokens of every length can be sent whose Base64 text, four characters for each three bytes and
/// four more, is no longer than a text can be.
pub proof fn law_tokens_that_can_be_sent(len: nat)
    ensures
        is_encodable(len) <==> 4 * (len / 3) + 4 <= isize::MAX,
{
}

}
