//! Proxies, and the text in which a PAC script names them.
//!
//! The result of a PAC script is a list of entries, separated by semicolons. An entry is `DIRECT`
//! or `PROXY` with the address of a proxy; blanks around an entry and empty entries do not count.
use crate::headers;
use crate::text;
use crate::uri;
use crate::uri::{InvalidUri, Uri};
use vstd::prelude::*;
use vstd::string::*;

verus! {

/// How to reach a server.
#[derive(Debug, PartialEq, Eq)]
pub enum ProxyDesc {
    /// Without a proxy.
    Direct,
    /// Through the proxy at this address.
    Proxy(Uri),
}

/// How to reach a server: directly, or through the proxy at an address.
pub enum ProxyView {
    Direct,
    Proxy(uri::UriView),
}

impl View for ProxyDesc {
    type V = ProxyView;

    open spec fn view(&self) -> ProxyView {
        match self {
            ProxyDesc::Direct => ProxyView::Direct,
            ProxyDesc::Proxy(u) => ProxyView::Proxy(u@),
        }
    }
}

/// The entry of a PAC result that stands for a proxy.
pub open spec fn proxy_text(p: ProxyView) -> Seq<char> {
    match p {
        ProxyView::Direct => "DIRECT"@,
        ProxyView::Proxy(u) => "PROXY "@ + uri::uri_text(u),
    }
}

/// A URI is the address of a proxy where it has an authority.
pub open spec fn proxy_at_address(address: Option<uri::UriView>) -> Option<ProxyView> {
    match address {
        Some(u) => if u.authority is Some {
            Some(ProxyView::Proxy(u))
        } else {
            None
        },
        None => None,
    }
}

/// The address in an entry that begins with `PROXY` and a space.
pub open spec fn entry_address(entry: Seq<char>) -> Option<Seq<char>> {
    let i = text::index_of_char(entry, ' ');
    if i < entry.len() && entry.take(i) == "PROXY"@ {
        Some(text::trimmed(entry.skip(i + 1)))
    } else {
        None
    }
}

/// The proxy that an entry without blanks around it stands for.
pub open spec fn entry_proxy(entry: Seq<char>) -> Option<ProxyView> {
    if entry == "DIRECT"@ {
        Some(ProxyView::Direct)
    } else {
        match entry_address(entry) {
            Some(address) => proxy_at_address(uri::uri_components(address)),
            None => None,
        }
    }
}

/// The proxies in one entry: none where it is blank.
pub open spec fn entry_proxies(entry: Seq<char>) -> Option<Seq<ProxyView>> {
    let e = text::trimmed(entry);
    if e.len() == 0 {
        Some(Seq::empty())
    } else {
        match entry_proxy(e) {
            Some(p) => Some(seq![p]),
            None => None,
        }
    }
}

/// Two lists in a row, where both are there.
pub open spec fn joined(
    a: Option<Seq<ProxyView>>,
    b: Option<Seq<ProxyView>>,
) -> Option<Seq<ProxyView>> {
    match (a, b) {
        (Some(x), Some(y)) => Some(x + y),
        _ => None,
    }
}

/// The proxies in a list of entries, or `None` where an entry is malformed.
pub open spec fn listed_proxies(list: Seq<char>) -> Option<Seq<ProxyView>>
    decreases list.len(),
{
    let i = text::index_of_char(list, ';');
    if 0 <= i < list.len() {
        joined(entry_proxies(list.take(i)), listed_proxies(list.skip(i + 1)))
    } else {
        entry_proxies(list)
    }
}

/// The proxies in the result of a PAC script: well-formed entries, and at least one that is not
/// blank.
pub open spec fn result_proxies(result: Seq<char>) -> Option<Seq<ProxyView>> {
    match listed_proxies(result) {
        Some(list) => if list.len() > 0 {
            Some(list)
        } else {
            None
        },
        None => None,
    }
}

impl Clone for ProxyDesc {
    fn clone(&self) -> (r: Self)
        ensures
            r@ == self@,
    {
        match self {
            ProxyDesc::Direct => ProxyDesc::Direct,
            ProxyDesc::Proxy(u) => ProxyDesc::Proxy(u.clone()),
        }
    }
}

impl ProxyDesc {
    /// The entry of a PAC result that stands for this proxy.
    pub fn text(&self) -> (r: String)
        ensures
            r@ == proxy_text(self@),
            headers::is_printable(r@),
    {
        proof {
            reveal_strlit("DIRECT");
            reveal_strlit("PROXY ");
        }
        match self {
            ProxyDesc::Direct => "DIRECT".to_owned(),
            ProxyDesc::Proxy(u) => {
                let address: String = u.text();
                text::concat2("PROXY ", address.as_str())
            },
        }
    }
}

/// The proxy at `address`, where this is a URI with an authority.
pub fn proxy_at(address: Result<Uri, InvalidUri>) -> (r: Option<ProxyDesc>)
    ensures
        (match r {
            Some(p) => Some(p@),
            None => None,
        }) == proxy_at_address(
            match address {
                Ok(u) => Some(u@),
                Err(_) => None,
            },
        ),
{
    match address {
        Ok(u) => {
            if u.authority().is_some() {
                Some(ProxyDesc::Proxy(u))
            } else {
                None
            }
        },
        Err(_) => None,
    }
}

/// The address in an entry that begins with `PROXY` and a space.
pub fn address_in<'a>(entry: &'a str) -> (r: Option<&'a str>)
    ensures
        uri::option_str(r) == entry_address(entry@),
{
    let i: usize = text::find_char(entry, ' ');
    let n: usize = entry.unicode_len();
    assert(i < n ==> entry@.subrange(0, i as int) =~= entry@.take(i as int));
    if i < n && text::same_text(entry.substring_char(0, i), "PROXY") {
        let rest = entry.substring_char(i + 1, n);
        assert(rest@ =~= entry@.skip(i + 1));
        Some(text::trim_blanks(rest))
    } else {
        None
    }
}

fn proxy_in(entry: &str) -> (r: Option<ProxyDesc>)
    ensures
        (match r {
            Some(p) => Some(p@),
            None => None,
        }) == entry_proxy(entry@),
{
    if text::same_text(entry, "DIRECT") {
        return Some(ProxyDesc::Direct);
    }
    match address_in(entry) {
        Some(address) => proxy_at(Uri::parse(address)),
        None => None,
    }
}

pub open spec fn proxy_views(list: Seq<ProxyDesc>) -> Seq<ProxyView> {
    Seq::new(list.len(), |i: int| list[i]@)
}

/// A list of proxies is malformed.
#[derive(Debug, Clone, Copy, PartialEq, Eq, Structural)]
pub struct InvalidProxies;

/// The proxies to try, in order.
#[derive(Debug, PartialEq, Eq)]
pub struct Proxies {
    list: Vec<ProxyDesc>,
}

impl View for Proxies {
    type V = Seq<ProxyView>;

    closed spec fn view(&self) -> Seq<ProxyView> {
        proxy_views(self.list@)
    }
}

/// The first of the proxies to try; none to try is to go without one.
pub open spec fn first_proxy(list: Seq<ProxyView>) -> ProxyView {
    if list.len() > 0 {
        list[0]
    } else {
        ProxyView::Direct
    }
}

/// Adds the proxies of one entry to `list`; whether the entry is well-formed.
fn push_entry(list: &mut Vec<ProxyDesc>, entry: &str) -> (r: bool)
    ensures
        r <==> entry_proxies(entry@) is Some,
        r ==> proxy_views(final(list)@) == proxy_views(old(list)@) + entry_proxies(entry@)->0,
{
    let e = text::trim_blanks(entry);
    if e.is_empty() {
        assert(proxy_views(list@) + Seq::empty() =~= proxy_views(list@));
        return true;
    }
    match proxy_in(e) {
        Some(p) => {
            let ghost before = list@;
            list.push(p);
            assert(proxy_views(list@) =~= proxy_views(before) + seq![p@]);
            true
        },
        None => false,
    }
}

impl Proxies {
    /// These proxies, in this order.
    pub fn new(list: Vec<ProxyDesc>) -> (r: Proxies)
        ensures
            r@ == proxy_views(list@),
    {
        Proxies { list }
    }

    /// No proxy.
    pub fn direct() -> (r: Proxies)
        ensures
            r@ == seq![ProxyView::Direct],
    {
        let r = Proxies { list: vec![ProxyDesc::Direct] };
        assert(r@ =~= seq![ProxyView::Direct]);
        r
    }

    /// The first of the proxies to try.
    pub fn first(&self) -> (r: ProxyDesc)
        ensures
            r@ == first_proxy(self@),
            self@.len() > 0 ==> r@ == self@[0],
    {
        if self.list.len() > 0 {
            self.list[0].clone()
        } else {
            ProxyDesc::Direct
        }
    }

    /// Reads the result of a PAC script.
    pub fn parse(result: &str) -> (r: Result<Proxies, InvalidProxies>)
        ensures
            r is Ok <==> result_proxies(result@) is Some,
            r matches Ok(p) ==> Some(p@) == result_proxies(result@),
    {
        let mut list: Vec<ProxyDesc> = Vec::new();
        let mut rest = result;
        assert(proxy_views(list@) =~= Seq::empty());
        proof {
            if let Some(l) = listed_proxies(rest@) {
                assert(proxy_views(list@) + l =~= l);
            }
        }
        loop
            invariant_except_break
                listed_proxies(result@) == joined(
                    Some(proxy_views(list@)),
                    listed_proxies(rest@),
                ),
            ensures
                listed_proxies(result@) == Some(proxy_views(list@)),
            decreases rest@.len(),
        {
            let i: usize = text::find_char(rest, ';');
            let n: usize = rest.unicode_len();
            let head = rest.substring_char(0, i);
            assert(head@ =~= rest@.take(i as int));
            let ghost before = proxy_views(list@);
            if !push_entry(&mut list, head) {
                assert(rest@.take(rest@.len() as int) =~= rest@);
                return Err(InvalidProxies);
            }
            if i >= n {
                assert(rest@.take(rest@.len() as int) =~= rest@);
                break;
            }
            let tail = rest.substring_char(i + 1, n);
            assert(tail@ =~= rest@.skip(i + 1));
            proof {
                let h = entry_proxies(head@);
                let t = listed_proxies(tail@);
                if let Some(l) = t {
                    assert(before + (h->0 + l) =~= (before + h->0) + l);
                }
            }
            rest = tail;
        }
        if list.len() > 0 {
            Ok(Proxies { list })
        } else {
            Err(InvalidProxies)
        }
    }
}

/// Two lists with a semicolon between them name the proxies of the first and then those of the
/// second, and are well-formed where both are.
pub proof fn law_lists_join(a: Seq<char>, b: Seq<char>)
    ensures
        listed_proxies(a + ";"@ + b) == joined(listed_proxies(a), listed_proxies(b)),
    decreases a.len(),
{
    reveal_strlit(";");
    let whole = a + ";"@ + b;
    let i = text::index_of_char(a, ';');
    text::lemma_index_of_char_bounds(a, ';');
    text::lemma_index_of_char(whole, ';', i);
    if i < a.len() {
        law_lists_join(a.skip(i + 1), b);
        assert(whole.take(i) =~= a.take(i));
        assert(whole.skip(i + 1) =~= a.skip(i + 1) + ";"@ + b);
        let x = entry_proxies(a.take(i));
        let y = listed_proxies(a.skip(i + 1));
        let z = listed_proxies(b);
        if x is Some && y is Some && z is Some {
            assert(x->0 + (y->0 + z->0) =~= (x->0 + y->0) + z->0);
        }
    } else {
        assert(whole.take(i) =~= a);
        assert(whole.skip(i + 1) =~= b);
    }
}

proof fn lemma_trimmed_visible(s: Seq<char>)
    requires
        uri::is_visible(s),
    ensures
        text::trimmed(s) == s,
{
    text::lemma_trim_start(s, 0);
    assert(s.skip(0) =~= s);
    text::lemma_trim_end(s, s.len() as int);
    assert(s.take(s.len() as int) =~= s);
}

pub(crate) proof fn lemma_direct()
    ensures
        result_proxies("DIRECT"@) == Some(seq![ProxyView::Direct]),
{
    reveal_strlit("DIRECT");
    let s = "DIRECT"@;
    text::lemma_index_of_char(s, ';', 6);
    lemma_trimmed_visible(s);
}

/// A result that names one proxy is read as the proxy at the address that it names, and is
/// refused where this is no address of a proxy.
pub proof fn law_named_proxy_is_found(address: Seq<char>)
    requires
        address.len() > 0,
        uri::is_visible(address),
        !address.contains(';'),
    ensures
        result_proxies("PROXY "@ + address) == match proxy_at_address(
            uri::uri_components(address),
        ) {
            Some(p) => Some(seq![p]),
            None => None,
        },
{
    reveal_strlit("PROXY ");
    reveal_strlit("PROXY");
    reveal_strlit("DIRECT");
    let entry = "PROXY "@ + address;
    assert forall|j: int| 0 <= j < entry.len() implies entry[j] != ';' by {
        if j >= 6 {
            assert(address.contains(address[j - 6]));
        }
    }
    text::lemma_index_of_char(entry, ';', entry.len() as int);
    text::lemma_trim_start(entry, 0);
    assert(entry.skip(0) =~= entry);
    assert(entry.last() == address.last());
    text::lemma_trim_end(entry, entry.len() as int);
    assert(entry.take(entry.len() as int) =~= entry);
    assert(entry[0] == 'P');
    assert("DIRECT"@[0] == 'D');
    text::lemma_index_of_char(entry, ' ', 5);
    assert(entry.take(5) =~= "PROXY"@);
    assert(entry.skip(6) =~= address);
    lemma_trimmed_visible(address);
}

proof fn lemma_one_entry(entry: Seq<char>)
    requires
        !entry.contains(';'),
    ensures
        listed_proxies(entry) == entry_proxies(entry),
{
    text::law_first_occurrence(entry, ';', Seq::empty());
}

proof fn lemma_blanks_hold_no_semicolon(s: Seq<char>)
    requires
        text::is_blank_text(s),
    ensures
        !s.contains(';'),
{
    assert forall|i: int| 0 <= i < s.len() implies s[i] != ';' by {
        text::lemma_blank(s[i]);
    }
}

proof fn lemma_between_blanks(left: Seq<char>, entry: Seq<char>, right: Seq<char>)
    requires
        text::is_blank_text(left),
        text::is_blank_text(right),
        text::has_firm_ends(entry),
        !entry.contains(';'),
    ensures
        listed_proxies(left + entry + right) == if entry.len() == 0 {
            Some(Seq::empty())
        } else {
            match entry_proxy(entry) {
                Some(p) => Some(seq![p]),
                None => None,
            }
        },
{
    lemma_blanks_hold_no_semicolon(left);
    lemma_blanks_hold_no_semicolon(right);
    let whole = left + entry + right;
    assert forall|i: int| 0 <= i < whole.len() implies whole[i] != ';' by {
        if i < left.len() {
            assert(left.contains(left[i]));
        } else if i < left.len() + entry.len() {
            assert(entry.contains(entry[i - left.len()]));
        } else {
            assert(right.contains(right[i - left.len() - entry.len()]));
        }
    }
    lemma_one_entry(whole);
    text::law_trimming(left, entry, right);
}

/// `DIRECT`, with blanks around it, names no proxy to go through.
pub proof fn law_direct_entry(left: Seq<char>, right: Seq<char>)
    requires
        text::is_blank_text(left),
        text::is_blank_text(right),
    ensures
        listed_proxies(left + "DIRECT"@ + right) == Some(seq![ProxyView::Direct]),
{
    reveal_strlit("DIRECT");
    text::lemma_blank('D');
    text::lemma_blank('T');
    lemma_between_blanks(left, "DIRECT"@, right);
}

/// `PROXY` and an address, with blanks between them and around, name the proxy at that address, and
/// are malformed where it is no URI with an authority.
pub proof fn law_proxy_entry(left: Seq<char>, gap: Seq<char>, address: Seq<char>, right: Seq<char>)
    requires
        text::is_blank_text(left),
        text::is_blank_text(gap),
        text::is_blank_text(right),
        address.len() > 0,
        text::has_firm_ends(address),
        !address.contains(';'),
    ensures
        ({
            let address_uri = uri::uri_components(address);
            let listed = listed_proxies(left + ("PROXY "@ + gap + address) + right);
            if address_uri is Some && address_uri->0.authority is Some {
                listed == Some(seq![ProxyView::Proxy(address_uri->0)])
            } else {
                listed is None
            }
        }),
{
    reveal_strlit("PROXY ");
    reveal_strlit("PROXY");
    reveal_strlit("DIRECT");
    let entry = "PROXY "@ + gap + address;
    lemma_blanks_hold_no_semicolon(gap);
    assert forall|i: int| 0 <= i < entry.len() implies entry[i] != ';' by {
        if 6 <= i < 6 + gap.len() {
            assert(gap.contains(gap[i - 6]));
        } else if i >= 6 {
            assert(address.contains(address[i - 6 - gap.len()]));
        }
    }
    text::lemma_blank('P');
    assert(entry[0] == 'P');
    assert(entry.last() == address.last());
    lemma_between_blanks(left, entry, right);
    assert("DIRECT"@[0] == 'D');
    assert(entry != "DIRECT"@);
    law_address_of_an_entry(gap + address);
    assert(entry =~= "PROXY "@ + (gap + address));
    text::law_trimming(gap, address, Seq::empty());
    assert(gap + address + Seq::<char>::empty() =~= gap + address);
}

/// Blanks alone name nothing, and are not malformed.
pub proof fn law_blank_entry(blanks: Seq<char>)
    requires
        text::is_blank_text(blanks),
    ensures
        listed_proxies(blanks) == Some(Seq::<ProxyView>::empty()),
{
    lemma_between_blanks(blanks, Seq::empty(), Seq::empty());
    assert(blanks + Seq::<char>::empty() + Seq::<char>::empty() =~= blanks);
}

/// Any other entry is malformed: one that is not `DIRECT` and does not begin with `PROXY` and a
/// space.
pub proof fn law_other_entry(left: Seq<char>, entry: Seq<char>, right: Seq<char>)
    requires
        text::is_blank_text(left),
        text::is_blank_text(right),
        entry.len() > 0,
        text::has_firm_ends(entry),
        !entry.contains(';'),
        entry != "DIRECT"@,
        !"PROXY "@.is_prefix_of(entry),
    ensures
        listed_proxies(left + entry + right) is None,
{
    lemma_between_blanks(left, entry, right);
    lemma_no_address(entry);
}

proof fn lemma_no_address(entry: Seq<char>)
    requires
        !"PROXY "@.is_prefix_of(entry),
    ensures
        entry_address(entry) is None,
{
    reveal_strlit("PROXY ");
    reveal_strlit("PROXY");
    let i = text::index_of_char(entry, ' ');
    text::lemma_index_of_char_bounds(entry, ' ');
    if i < entry.len() && entry.take(i) == "PROXY"@ {
        assert(entry.take(i).len() == i);
        assert("PROXY"@.len() == 5);
        assert forall|j: int| 0 <= j < 6 implies "PROXY "@[j] == entry[j] by {
            if j < 5 {
                assert(entry.take(i)[j] == entry[j]);
            }
        }
        assert("PROXY "@ =~= entry.subrange(0, 6));
    }
}

/// The address in an entry is all that follows `PROXY` and a space, without the blanks around it,
/// and an entry that does not begin so has none.
pub proof fn law_address_of_an_entry(rest: Seq<char>)
    ensures
        entry_address("PROXY "@ + rest) == Some(text::trimmed(rest)),
        !"PROXY "@.is_prefix_of(rest) ==> entry_address(rest) is None,
{
    reveal_strlit("PROXY ");
    reveal_strlit("PROXY");
    let entry = "PROXY "@ + rest;
    text::lemma_index_of_char(entry, ' ', 5);
    assert(entry.take(5) =~= "PROXY"@);
    assert(entry.skip(6) =~= rest);
    if !"PROXY "@.is_prefix_of(rest) {
        lemma_no_address(rest);
    }
}

/// A result is accepted with the proxies that it lists, all of them and in order, exactly where it
/// lists one at least.
pub proof fn law_result_lists_proxies(result: Seq<char>, list: Seq<ProxyView>)
    ensures
        result_proxies(result) == Some(list) <==> listed_proxies(result) == Some(list) && list.len()
            > 0,
{
}

/// The first of several proxies is the one at the front of the list, whatever comes after it.
pub proof fn law_first_is_at_the_front(front: ProxyView, others: Seq<ProxyView>)
    ensures
        first_proxy(seq![front] + others) == front,
        first_proxy(Seq::empty()) == ProxyView::Direct,
{
}

/// The proxies of a list are seen in its order, each with its address.
pub proof fn law_proxies_are_seen_in_order(list: Seq<ProxyDesc>, last: ProxyDesc, address: Uri)
    ensures
        proxy_views(Seq::<ProxyDesc>::empty()) == Seq::<ProxyView>::empty(),
        proxy_views(list.push(last)) == proxy_views(list).push(last@),
        ProxyDesc::Direct@ == ProxyView::Direct,
        ProxyDesc::Proxy(address)@ == ProxyView::Proxy(address@),
{
    assert(proxy_views(Seq::<ProxyDesc>::empty()) =~= Seq::empty());
    assert(proxy_views(list.push(last)) =~= proxy_views(list).push(last@));
}

/// The text of a proxy is the entry that names it: `PROXY`, a space and the text of its address.
/// Without a proxy it is `DIRECT`.
pub proof fn law_text_of_a_proxy(address: uri::UriView)
    ensures
        proxy_text(ProxyView::Direct) == "DIRECT"@,
        "PROXY "@.is_prefix_of(proxy_text(ProxyView::Proxy(address))),
        proxy_text(ProxyView::Proxy(address)).skip(6) == uri::uri_text(address),
{
    reveal_strlit("PROXY ");
    let t = proxy_text(ProxyView::Proxy(address));
    assert(t.subrange(0, 6) =~= "PROXY "@);
    assert(t.skip(6) =~= uri::uri_text(address));
}

/// A proxy that is named first is the first one, however the list goes on.
pub proof fn law_first_entry_comes_first(entry: Seq<char>, list: Seq<char>)
    requires
        listed_proxies(entry) matches Some(named) && named.len() > 0,
        listed_proxies(list) is Some,
    ensures
        result_proxies(entry + ";"@ + list) is Some,
        result_proxies(entry + ";"@ + list)->0[0] == listed_proxies(entry)->0[0],
{
    law_lists_join(entry, list);
}

}
