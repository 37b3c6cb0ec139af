//! Request targets and proxy addresses.
//!
//! The grammar is that of [`http::Uri`]: [`Uri::parse`] hands the text to it and keeps the
//! components that it found.
use crate::text;
use vstd::prelude::*;
use vstd::string::*;
use vstd::utf8;

verus! {

/// The components of a URI.
pub struct UriView {
    pub scheme: Option<Seq<char>>,
    pub authority: Option<Seq<char>>,
    pub host: Option<Seq<char>>,
    pub path: Seq<char>,
    pub query: Option<Seq<char>>,
}

/// Whether every character is a printable ASCII character other than the space.
pub open spec fn is_visible(s: Seq<char>) -> bool {
    forall|i: int| 0 <= i < s.len() ==> '!' <= #[trigger] s[i] <= '~'
}

pub open spec fn is_visible_option(s: Option<Seq<char>>) -> bool {
    s matches Some(t) ==> is_visible(t)
}

/// What holds of the components of every URI: there is a host exactly where there is an authority,
/// and no component holds a blank, a control character or anything but ASCII.
pub open spec fn uri_shape(u: UriView) -> bool {
    &&& u.host is Some <==> u.authority is Some
    &&& is_visible_option(u.scheme)
    &&& is_visible_option(u.authority)
    &&& is_visible_option(u.host)
    &&& is_visible(u.path)
    &&& is_visible_option(u.query)
}

/// A URI written out: its scheme and `://`, its authority, its path, `?` and its query.
pub open spec fn uri_text(u: UriView) -> Seq<char> {
    let scheme = match u.scheme {
        Some(s) => s + "://"@,
        None => Seq::empty(),
    };
    let authority = match u.authority {
        Some(a) => a,
        None => Seq::empty(),
    };
    let query = match u.query {
        Some(q) => "?"@ + q,
        None => Seq::empty(),
    };
    scheme + authority + u.path + query
}

/// Whether two optional texts agree when the case of ASCII letters is ignored.
pub open spec fn same_option_ignoring_case(a: Option<Seq<char>>, b: Option<Seq<char>>) -> bool {
    match (a, b) {
        (Some(x), Some(y)) => text::same_ignoring_case(x, y),
        (None, None) => true,
        _ => false,
    }
}

/// Whether two URIs name the same thing: case counts in the path and the query, and not in the
/// scheme and the authority.
pub open spec fn same_uri(a: UriView, b: UriView) -> bool {
    &&& same_option_ignoring_case(a.scheme, b.scheme)
    &&& same_option_ignoring_case(a.authority, b.authority)
    &&& a.path == b.path
    &&& a.query == b.query
}

/// Whether `u` is nothing but `path`, with no query or an empty one.
pub open spec fn is_local_path(u: UriView, path: Seq<char>) -> bool {
    &&& u.scheme is None
    &&& u.authority is None
    &&& u.path == path
    &&& u.query matches Some(q) ==> q.len() == 0
}

pub open spec fn option_text(s: Option<String>) -> Option<Seq<char>> {
    match s {
        Some(t) => Some(t@),
        None => None,
    }
}

pub open spec fn option_str(s: Option<&str>) -> Option<Seq<char>> {
    match s {
        Some(t) => Some(t@),
        None => None,
    }
}

/// The components that `http::Uri` finds in a text, or `None` where it refuses the text.
pub uninterp spec fn uri_components(text: Seq<char>) -> Option<UriView>;

pub open spec fn components_view(
    c: (Option<String>, Option<String>, Option<String>, String, Option<String>),
) -> UriView {
    UriView {
        scheme: option_text(c.0),
        authority: option_text(c.1),
        host: option_text(c.2),
        path: c.3@,
        query: option_text(c.4),
    }
}

/// Calls `<http::Uri as FromStr>::from_str` and reads `scheme_str`, `authority`, `host`, `path`
/// and `query` off the result, in this order.
///
/// Trusted: which texts are accepted and what the components are depends on the text alone
/// ([`uri_components`]), and the components have the shape [`uri_shape`]: `host` is taken from
/// the authority, and every byte that the parser lets into a component lies between `!` and `~`.
#[verifier::external_body]
fn http_uri(text: &str) -> (r: Option<
    (Option<String>, Option<String>, Option<String>, String, Option<String>),
>)
    ensures
        r is Some == uri_components(text@) is Some,
        r matches Some(c) ==> Some(components_view(c)) == uri_components(text@),
        r matches Some(c) ==> uri_shape(components_view(c)),
{
    let uri = text.parse::<http::Uri>().ok()?;
    let scheme = uri.scheme_str().map(String::from);
    let authority = uri.authority().map(|a| a.as_str().to_string());
    let host = uri.host().map(String::from);
    let query = uri.query().map(String::from);
    Some((scheme, authority, host, uri.path().to_string(), query))
}

/// A text is not a URI.
#[derive(Debug, Clone, Copy, PartialEq, Eq, Structural)]
pub struct InvalidUri;

/// A request target or the address of a proxy.
#[derive(Debug)]
pub struct Uri {
    scheme: Option<String>,
    authority: Option<String>,
    host: Option<String>,
    path: String,
    query: Option<String>,
}

impl View for Uri {
    type V = UriView;

    closed spec fn view(&self) -> UriView {
        UriView {
            scheme: option_text(self.scheme),
            authority: option_text(self.authority),
            host: option_text(self.host),
            path: self.path@,
            query: option_text(self.query),
        }
    }
}

fn copy_option(s: &Option<String>) -> (r: Option<String>)
    ensures
        option_text(r) == option_text(*s),
{
    match s {
        Some(t) => Some(t.clone()),
        None => None,
    }
}

fn borrow_option(s: &Option<String>) -> (r: Option<&str>)
    ensures
        option_str(r) == option_text(*s),
{
    match s {
        Some(t) => Some(t.as_str()),
        None => None,
    }
}

fn same_option(a: &Option<String>, b: &Option<String>) -> (r: bool)
    ensures
        r == (option_text(*a) == option_text(*b)),
{
    match (a, b) {
        (Some(x), Some(y)) => text::same_text(x.as_str(), y.as_str()),
        (None, None) => true,
        _ => false,
    }
}

proof fn lemma_visible_is_ascii(s: Seq<char>)
    requires
        is_visible(s),
    ensures
        utf8::is_ascii_chars(s),
{
}

fn same_visible_option(a: &Option<String>, b: &Option<String>) -> (r: bool)
    requires
        is_visible_option(option_text(*a)),
        is_visible_option(option_text(*b)),
    ensures
        r == same_option_ignoring_case(option_text(*a), option_text(*b)),
{
    match (a, b) {
        (Some(x), Some(y)) => {
            proof {
                lemma_visible_is_ascii(x@);
                lemma_visible_is_ascii(y@);
            }
            text::same_text_ignoring_case(x.as_str(), y.as_str())
        },
        (None, None) => true,
        _ => false,
    }
}

impl Clone for Uri {
    fn clone(&self) -> (r: Self)
        ensures
            r@ == self@,
    {
        proof {
            use_type_invariant(self);
        }
        Uri {
            scheme: copy_option(&self.scheme),
            authority: copy_option(&self.authority),
            host: copy_option(&self.host),
            path: self.path.clone(),
            query: copy_option(&self.query),
        }
    }
}

impl Uri {
    #[verifier::type_invariant]
    spec fn well_formed(self) -> bool {
        uri_shape(self@)
    }

    /// Reads a URI: a path, an authority, or a scheme with an authority and what follows.
    pub fn parse(text: &str) -> (r: Result<Uri, InvalidUri>)
        ensures
            r is Ok <==> uri_components(text@) is Some,
            r matches Ok(u) ==> Some(u@) == uri_components(text@),
    {
        match http_uri(text) {
            Some((scheme, authority, host, path, query)) => Ok(
                Uri { scheme, authority, host, path, query },
            ),
            None => Err(InvalidUri),
        }
    }

    /// The scheme, such as `http`.
    pub fn scheme(&self) -> (r: Option<&str>)
        ensures
            option_str(r) == self@.scheme,
    {
        borrow_option(&self.scheme)
    }

    /// The authority: host, port and user information.
    pub fn authority(&self) -> (r: Option<&str>)
        ensures
            option_str(r) == self@.authority,
            r is Some <==> self@.host is Some,
    {
        proof {
            use_type_invariant(self);
        }
        borrow_option(&self.authority)
    }

    /// The host.
    pub fn host(&self) -> (r: Option<&str>)
        ensures
            option_str(r) == self@.host,
            r is Some <==> self@.authority is Some,
    {
        proof {
            use_type_invariant(self);
        }
        borrow_option(&self.host)
    }

    /// The path.
    pub fn path(&self) -> (r: &str)
        ensures
            r@ == self@.path,
    {
        self.path.as_str()
    }

    /// The query, without its question mark.
    pub fn query(&self) -> (r: Option<&str>)
        ensures
            option_str(r) == self@.query,
    {
        borrow_option(&self.query)
    }

    /// The URI written out.
    pub fn text(&self) -> (r: String)
        ensures
            r@ == uri_text(self@),
            is_visible(r@),
    {
        proof {
            use_type_invariant(self);
            reveal_strlit("://");
            reveal_strlit("?");
        }
        let mut out: String = String::new();
        if let Some(scheme) = &self.scheme {
            out.append(scheme.as_str());
            out.append("://");
        }
        if let Some(authority) = &self.authority {
            out.append(authority.as_str());
        }
        out.append(self.path.as_str());
        if let Some(query) = &self.query {
            out.append("?");
            out.append(query.as_str());
        }
        assert(out@ =~= uri_text(self@));
        out
    }

    /// Whether this URI names the same thing as `other`, as `==` between two URIs has it.
    pub fn same(&self, other: &Uri) -> (r: bool)
        ensures
            r == same_uri(self@, other@),
    {
        proof {
            use_type_invariant(self);
            use_type_invariant(other);
        }
        same_visible_option(&self.scheme, &other.scheme) && same_visible_option(
            &self.authority,
            &other.authority,
        ) && text::same_text(self.path.as_str(), other.path.as_str()) && same_option(
            &self.query,
            &other.query,
        )
    }

    /// Whether this URI is nothing but `path`, with no query or an empty one: what `==` between a
    /// URI and a text says where the text is a path.
    pub fn is_path(&self, path: &str) -> (r: bool)
        ensures
            r == is_local_path(self@, path@),
    {
        let no_query = match &self.query {
            Some(q) => q.as_str().is_empty(),
            None => true,
        };
        self.scheme.is_none() && self.authority.is_none() && no_query && text::same_text(
            self.path.as_str(),
            path,
        )
    }
}

impl PartialEq for Uri {
    fn eq(&self, other: &Self) -> (r: bool) {
        self.same(other)
    }
}

impl vstd::std_specs::cmp::PartialEqSpecImpl for Uri {
    open spec fn obeys_eq_spec() -> bool {
        true
    }

    open spec fn eq_spec(&self, other: &Self) -> bool {
        same_uri(self@, other@)
    }
}

impl Eq for Uri {

}

/// Every URI is the same as itself.
pub proof fn law_same_uri_reflexive(a: UriView)
    ensures
        same_uri(a, a),
{
}

/// Whether two URIs are the same does not depend on their order.
pub proof fn law_same_uri_symmetric(a: UriView, b: UriView)
    requires
        same_uri(a, b),
    ensures
        same_uri(b, a),
{
    assert forall|x: Seq<char>, y: Seq<char>| text::same_ignoring_case(x, y) implies text::same_ignoring_case(
        y,
        x,
    ) by {
        assert forall|i: int| 0 <= i < y.len() implies text::lower_char(#[trigger] y[i])
            == text::lower_char(x[i]) by {
            assert(text::lower_char(x[i]) == text::lower_char(y[i]));
        }
    }
}

/// Two URIs that are the same as a third are the same.
pub proof fn law_same_uri_transitive(a: UriView, b: UriView, c: UriView)
    requires
        same_uri(a, b),
        same_uri(b, c),
    ensures
        same_uri(a, c),
{
    assert forall|x: Seq<char>, y: Seq<char>, z: Seq<char>|
        text::same_ignoring_case(x, y) && text::same_ignoring_case(y, z) implies text::same_ignoring_case(x, z) by {
        assert forall|i: int| 0 <= i < x.len() implies text::lower_char(#[trigger] x[i])
            == text::lower_char(z[i]) by {
            assert(text::lower_char(x[i]) == text::lower_char(y[i]));
            assert(text::lower_char(y[i]) == text::lower_char(z[i]));
        }
    }
}

/// An optional text is seen with all its characters, and as absent only where it is.
pub proof fn law_optional_text_is_seen_whole(s: Option<String>, t: Option<&str>)
    ensures
        option_text(s) is Some == s is Some,
        s is Some ==> option_text(s)->0 == s->0@,
        option_str(t) is Some == t is Some,
        t is Some ==> option_str(t)->0 == t->0@,
{
}

/// How the text of a URI grows with its components: a path is written as it is, an authority goes
/// before it, a scheme and `://` before that, and `?` and the query come last.
pub proof fn law_uri_text_grows(u: UriView, scheme: Seq<char>, authority: Seq<char>, query: Seq<char>)
    ensures
        uri_text(UriView { scheme: None, authority: None, query: None, ..u }) == u.path,
        uri_text(UriView { authority: Some(authority), scheme: None, ..u }) == authority + uri_text(
            UriView { authority: None, scheme: None, ..u },
        ),
        uri_text(UriView { scheme: Some(scheme), ..u }) == scheme + "://"@ + uri_text(
            UriView { scheme: None, ..u },
        ),
        uri_text(UriView { query: Some(query), ..u }) == uri_text(UriView { query: None, ..u })
            + "?"@ + query,
{
    assert(uri_text(UriView { scheme: None, authority: None, query: None, ..u }) =~= u.path);
    assert(uri_text(UriView { authority: Some(authority), scheme: None, ..u }) =~= authority
        + uri_text(UriView { authority: None, scheme: None, ..u }));
    assert(uri_text(UriView { scheme: Some(scheme), ..u }) =~= scheme + "://"@ + uri_text(
        UriView { scheme: None, ..u },
    ));
    assert(uri_text(UriView { query: Some(query), ..u }) =~= uri_text(
        UriView { query: None, ..u },
    ) + "?"@ + query);
}

/// Two URIs are the same exactly where they have the same path, the same query, and a scheme and an
/// authority that are both absent or differ by the case of ASCII letters at the most.
pub proof fn law_same_uri_components(a: UriView, b: UriView)
    ensures
        same_uri(a, b) ==> a.path == b.path && a.query == b.query && (a.scheme is Some
            == b.scheme is Some) && (a.authority is Some == b.authority is Some),
        same_uri(a, b) && a.scheme is Some ==> text::same_ignoring_case(a.scheme->0, b.scheme->0),
        same_uri(a, b) && a.authority is Some ==> text::same_ignoring_case(
            a.authority->0,
            b.authority->0,
        ),
        a.path == b.path && a.query == b.query && (a.scheme == b.scheme || (a.scheme is Some
            && b.scheme is Some && text::same_ignoring_case(a.scheme->0, b.scheme->0))) && (
        a.authority == b.authority || (a.authority is Some && b.authority is Some
            && text::same_ignoring_case(a.authority->0, b.authority->0))) ==> same_uri(a, b),
{
}

/// A URI that is a path has that path and neither a scheme nor an authority; it is no other path,
/// and a query that holds anything makes it none.
pub proof fn law_local_path(u: UriView, path: Seq<char>, query: Seq<char>)
    ensures
        is_local_path(u, path) ==> u.scheme is None && u.authority is None && u.path == path,
        is_local_path(UriView { query: Some(query), ..u }, path) ==> query.len() == 0,
        u.scheme is None && u.authority is None ==> is_local_path(
            UriView { query: None, ..u },
            u.path,
        ) && is_local_path(UriView { query: Some(Seq::empty()), ..u }, u.path),
{
}

/// `==` between URIs says whether they are the same.
pub proof fn law_equality_is_being_the_same(a: Uri, b: Uri)
    ensures
        vstd::std_specs::cmp::PartialEqSpec::eq_spec(&a, &b) <==> same_uri(a@, b@),
{
}

}
