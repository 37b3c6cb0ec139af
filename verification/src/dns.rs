//! Host names that PAC scripts had resolved.
use crate::text;
use crate::uri;
use vstd::prelude::*;
use vstd::string::*;

verus! {

/// The entries of a cache: a host, and its address where it has one.
pub type DnsMap = Vec<(String, Option<String>)>;

/// The entries of a cache, with their texts as sequences of characters.
pub type Entries = Seq<(Seq<char>, Option<Seq<char>>)>;

pub open spec fn entry_views(list: Seq<(String, Option<String>)>) -> Entries {
    Seq::new(list.len(), |i: int| (list[i].0@, uri::option_text(list[i].1)))
}

/// Whether entry `i` is about `host`.
pub open spec fn is_about(list: Entries, i: int, host: Seq<char>) -> bool {
    0 <= i < list.len() && list[i].0 == host
}

/// The hosts of the entries, each with its address.
pub open spec fn dns_map(list: Entries) -> Map<Seq<char>, Option<Seq<char>>> {
    Map::new(
        |host: Seq<char>| exists|i: int| is_about(list, i, host),
        |host: Seq<char>| list[choose|i: int| is_about(list, i, host)].1,
    )
}

/// Whether no host has two entries.
pub open spec fn hosts_differ(list: Entries) -> bool {
    forall|i: int, j: int| 0 <= i < j < list.len() ==> (#[trigger] list[i]).0 != (
    #[trigger] list[j]).0
}

/// Whether `after` are the entries once the address of `host` was remembered: the entry of the host
/// is replaced where it has one, and else comes last.
pub open spec fn is_recorded(
    before: Entries,
    host: Seq<char>,
    address: Option<Seq<char>>,
    after: Entries,
) -> bool {
    &&& forall|i: int| #[trigger]
        is_about(before, i, host) ==> after == before.update(i, (host, address))
    &&& (forall|i: int| !is_about(before, i, host)) ==> after == before.push((host, address))
}

/// The entries of a cache as `Debug` of std writes them.
pub uninterp spec fn debug_text(entries: Seq<(Seq<char>, Option<Seq<char>>)>) -> Seq<char>;

/// Calls `Debug::fmt` of a vector of pairs of a text and an optional text, by `format!`.
///
/// Trusted: the text depends on the entries alone ([`debug_text`]).
#[verifier::external_body]
pub(crate) fn describe(entries: &DnsMap) -> (r: String)
    ensures
        r@ == debug_text(entry_views(entries@)),
{
    format!("{:?}", entries)
}

proof fn lemma_entry(list: Entries, i: int)
    requires
        hosts_differ(list),
        0 <= i < list.len(),
    ensures
        dns_map(list).dom().contains(list[i].0),
        dns_map(list)[list[i].0] == list[i].1,
{
    let host = list[i].0;
    assert(is_about(list, i, host));
    let k = choose|k: int| is_about(list, k, host);
    assert(is_about(list, k, host));
    assert(k == i);
}

/// Remembering an address changes what is known about this host, and about no other one; no host
/// comes to have two entries.
pub proof fn law_address_is_remembered(
    before: Entries,
    host: Seq<char>,
    address: Option<Seq<char>>,
    after: Entries,
)
    requires
        hosts_differ(before),
        is_recorded(before, host, address, after),
    ensures
        hosts_differ(after),
        dns_map(after) == dns_map(before).insert(host, address),
{
    let i = if exists|i: int| is_about(before, i, host) {
        choose|i: int| is_about(before, i, host)
    } else {
        before.len() as int
    };
    assert forall|j: int| 0 <= j < before.len() && j != i implies (#[trigger] before[j]).0
        != host by {
        if before[j].0 == host {
            assert(is_about(before, j, host));
        }
    }
    assert forall|j: int| 0 <= j < after.len() && j != i implies #[trigger] after[j]
        == before[j] by {}
    assert(is_about(after, i, host) && after[i].1 == address);
    let want = dns_map(before).insert(host, address);
    assert forall|h: Seq<char>| dns_map(after).dom().contains(h) <==> want.dom().contains(h) by {
        if dns_map(after).dom().contains(h) && h != host {
            let k = choose|k: int| is_about(after, k, h);
            assert(is_about(before, k, h));
        }
        if dns_map(before).dom().contains(h) {
            let k = choose|k: int| is_about(before, k, h);
            assert(is_about(before, k, h));
            assert(is_about(after, k, h));
        }
    }
    assert forall|h: Seq<char>| want.dom().contains(h) implies dns_map(after)[h] == want[h] by {
        if h == host {
            lemma_entry(after, i);
        } else {
            let k = choose|k: int| is_about(before, k, h);
            assert(is_about(before, k, h));
            lemma_entry(before, k);
            lemma_entry(after, k);
        }
    }
    assert(dns_map(after) =~= want);
}

/// What is known about the addresses of hosts.
#[derive(Debug)]
pub struct DnsCache {
    entries: DnsMap,
}

impl View for DnsCache {
    type V = Map<Seq<char>, Option<Seq<char>>>;

    open spec fn view(&self) -> Map<Seq<char>, Option<Seq<char>>> {
        dns_map(self.known())
    }
}

impl DnsCache {
    /// The entries, in the order in which their hosts became known.
    pub closed spec fn known(&self) -> Entries {
        entry_views(self.entries@)
    }

    #[verifier::type_invariant]
    spec fn well_formed(self) -> bool {
        hosts_differ(self.known())
    }

    /// A cache that knows no host.
    pub fn new() -> (r: DnsCache)
        ensures
            r.known() == Entries::empty(),
            r@ == Map::<Seq<char>, Option<Seq<char>>>::empty(),
    {
        let r = DnsCache { entries: Vec::new() };
        assert(r.known() =~= Entries::empty());
        assert(r@ =~= Map::empty());
        r
    }

    /// Where `host` stands in the entries, or their number.
    fn position(&self, host: &str) -> (r: usize)
        ensures
            r <= self.entries@.len(),
            r < self.entries@.len() ==> is_about(self.known(), r as int, host@),
            r == self.entries@.len() ==> forall|i: int| !is_about(self.known(), i, host@),
    {
        let mut i: usize = 0;
        while i < self.entries.len()
            invariant
                i <= self.entries@.len(),
                forall|j: int| 0 <= j < i ==> !is_about(self.known(), j, host@),
            decreases self.entries@.len() - i,
        {
            if text::same_text(self.entries[i].0.as_str(), host) {
                return i;
            }
            i += 1;
        }
        i
    }

    /// What is known about `host`: nothing, that it has no address, or its address.
    pub fn lookup(&self, host: &str) -> (r: Option<Option<String>>)
        ensures
            r is Some <==> self@.dom().contains(host@),
            r matches Some(address) ==> uri::option_text(address) == self@[host@],
    {
        proof {
            use_type_invariant(self);
        }
        let i: usize = self.position(host);
        if i < self.entries.len() {
            proof {
                lemma_entry(self.known(), i as int);
            }
            match &self.entries[i].1 {
                Some(address) => Some(Some(address.clone())),
                None => Some(None),
            }
        } else {
            None
        }
    }

    /// Remembers the outcome of resolving `host`.
    pub fn record(&mut self, host: &str, address: Option<String>)
        ensures
            is_recorded(old(self).known(), host@, uri::option_text(address), final(self).known()),
            final(self)@ == old(self)@.insert(host@, uri::option_text(address)),
    {
        proof {
            use_type_invariant(&*self);
        }
        let i: usize = self.position(host);
        let ghost before = self.known();
        let ghost entry = (host@, uri::option_text(address));
        let mut entries: DnsMap = Vec::new();
        std::mem::swap(&mut entries, &mut self.entries);
        if i < entries.len() {
            entries.set(i, (host.to_owned(), address));
            assert(entry_views(entries@) =~= before.update(i as int, entry));
        } else {
            entries.push((host.to_owned(), address));
            assert(entry_views(entries@) =~= before.push(entry));
        }
        proof {
            law_address_is_remembered(before, entry.0, entry.1, entry_views(entries@));
        }
        self.entries = entries;
    }

    /// All that is known.
    pub fn map(&self) -> (r: DnsMap)
        ensures
            entry_views(r@) == self.known(),
            hosts_differ(self.known()),
    {
        proof {
            use_type_invariant(self);
        }
        let mut r: DnsMap = Vec::new();
        let mut i: usize = 0;
        while i < self.entries.len()
            invariant
                i <= self.entries@.len(),
                entry_views(r@) == self.known().take(i as int),
            decreases self.entries@.len() - i,
        {
            let address = match &self.entries[i].1 {
                Some(a) => Some(a.clone()),
                None => None,
            };
            let ghost before = r@;
            r.push((self.entries[i].0.clone(), address));
            assert(entry_views(r@) =~= entry_views(before).push(self.known()[i as int]));
            assert(self.known().take(i + 1) =~= self.known().take(i as int).push(
                self.known()[i as int],
            ));
            i += 1;
        }
        assert(self.known().take(i as int) =~= self.known());
        r
    }
}

/// The address that a machine gives itself, by what resolving its own name came to.
pub open spec fn own_address(resolved: Option<Seq<char>>) -> Seq<char> {
    match resolved {
        Some(address) => address,
        None => "127.0.0.1"@,
    }
}

/// The address of this machine, as a PAC script sees it.
///
/// `resolved` is what resolving the machine's own name came to, `None` also where the name is not
/// a text.
pub fn my_ip_address(resolved: Option<String>) -> (r: String)
    ensures
        r@ == own_address(uri::option_text(resolved)),
        resolved matches Some(address) ==> r@ == address@,
        resolved is None ==> r@ == "127.0.0.1"@,
{
    match resolved {
        Some(address) => address,
        None => "127.0.0.1".to_owned(),
    }
}

/// The entries of a list are seen in its order, each with the characters of its host and address.
pub proof fn law_entries_are_seen_in_order(
    list: Seq<(String, Option<String>)>,
    host: String,
    address: Option<String>,
)
    ensures
        entry_views(Seq::empty()) == Entries::empty(),
        entry_views(list.push((host, address))) == entry_views(list).push(
            (
                host@,
                if address is Some {
                    Some(address->0@)
                } else {
                    None
                },
            ),
        ),
{
    assert(entry_views(Seq::empty()) =~= Entries::empty());
    assert(entry_views(list.push((host, address))) =~= entry_views(list).push(
        (
            host@,
            if address is Some {
                Some(address->0@)
            } else {
                None
            },
        ),
    ));
}

/// What is known about a host is what its entry says, and nothing is known about a host without one.
pub proof fn law_known_by_its_entry(list: Entries, i: int, host: Seq<char>)
    requires
        forall|p: int, q: int|
            0 <= p < q < list.len() ==> (#[trigger] list[p]).0 != (#[trigger] list[q]).0,
    ensures
        0 <= i < list.len() ==> dns_map(list).dom().contains(list[i].0) && dns_map(list)[list[i].0]
            == list[i].1,
        (forall|j: int| 0 <= j < list.len() ==> (#[trigger] list[j]).0 != host) ==> !dns_map(
            list,
        ).dom().contains(host),
{
    if 0 <= i < list.len() {
        lemma_entry(list, i);
    }
}

/// Remembering an address moves no entry: the hosts keep their places, and a new one comes last.
pub proof fn law_hosts_keep_their_places(
    before: Entries,
    host: Seq<char>,
    address: Option<Seq<char>>,
    after: Entries,
    i: int,
)
    requires
        is_recorded(before, host, address, after),
        0 <= i < before.len(),
    ensures
        after[i].0 == before[i].0,
        before[i].0 == host ==> after[i].1 == address && after.len() == before.len(),
        before[i].0 != host ==> after[i] == before[i],
        (forall|j: int| 0 <= j < before.len() ==> (#[trigger] before[j]).0 != host) ==> after
            == before.push((host, address)),
{
    if before[i].0 == host {
        assert(is_about(before, i, host));
    } else if exists|k: int| is_about(before, k, host) {
        let k = choose|k: int| is_about(before, k, host);
        assert(is_about(before, k, host));
    }
}

}
