//! The clients of upstream proxies, one for each address.
use crate::uri;
use crate::uri::Uri;
use vstd::prelude::*;

verus! {

/// Whether `slot` belongs to the proxy at `address`.
pub open spec fn is_slot_of(addresses: Seq<uri::UriView>, slot: int, address: uri::UriView) -> bool {
    0 <= slot < addresses.len() && uri::same_uri(addresses[slot], address)
}

/// Whether no two addresses are the same.
pub open spec fn addresses_differ(addresses: Seq<uri::UriView>) -> bool {
    forall|i: int, j: int|
        0 <= i < j < addresses.len() ==> !uri::same_uri(
            #[trigger] addresses[i],
            #[trigger] addresses[j],
        )
}

/// The slot of a client.
#[derive(Debug, Clone, Copy, PartialEq, Eq, Structural)]
pub enum ClientSlot {
    /// The client in this slot.
    Known(usize),
    /// A client is to be made for this slot.
    New(usize),
}

/// Whether `slot` is what asking for the client of the proxy at `address` gives where `before` are
/// the addresses that have one, and `after` those that have one then: the slot of the address,
/// which is the next free one where it had none.
pub open spec fn slot_given(
    before: Seq<uri::UriView>,
    address: uri::UriView,
    slot: ClientSlot,
    after: Seq<uri::UriView>,
) -> bool {
    &&& addresses_differ(after)
    &&& match slot {
        ClientSlot::Known(i) => is_slot_of(before, i as int, address) && after == before,
        ClientSlot::New(i) => {
            &&& forall|j: int| !is_slot_of(before, j, address)
            &&& i == before.len()
            &&& after == before.push(address)
        },
    }
}

/// The addresses of the proxies that have a client; the client of each is kept by the caller, in
/// the slot with the same number.
#[derive(Debug)]
pub struct ClientTable {
    addresses: Vec<Uri>,
}

pub open spec fn uri_views(list: Seq<Uri>) -> Seq<uri::UriView> {
    Seq::new(list.len(), |i: int| list[i]@)
}

impl View for ClientTable {
    type V = Seq<uri::UriView>;

    closed spec fn view(&self) -> Seq<uri::UriView> {
        uri_views(self.addresses@)
    }
}

impl ClientTable {
    #[verifier::type_invariant]
    spec fn well_formed(self) -> bool {
        addresses_differ(self@)
    }

    /// A table without clients.
    pub fn new() -> (r: ClientTable)
        ensures
            r@ == Seq::<uri::UriView>::empty(),
    {
        let r = ClientTable { addresses: Vec::new() };
        assert(r@ =~= Seq::empty());
        r
    }

    /// The slot of the client for the proxy at `address`, which gets one where it has none.
    pub fn slot(&mut self, address: &Uri) -> (r: ClientSlot)
        ensures
            slot_given(old(self)@, address@, r, final(self)@),
    {
        proof {
            use_type_invariant(&*self);
        }
        let mut i: usize = 0;
        while i < self.addresses.len()
            invariant
                i <= self.addresses@.len(),
                self@ == old(self)@,
                addresses_differ(self@),
                forall|j: int| 0 <= j < i ==> !is_slot_of(old(self)@, j, address@),
            decreases self.addresses@.len() - i,
        {
            if self.addresses[i].same(address) {
                return ClientSlot::Known(i);
            }
            i += 1;
        }
        let mut addresses: Vec<Uri> = Vec::new();
        std::mem::swap(&mut addresses, &mut self.addresses);
        addresses.push(address.clone());
        proof {
            let views = uri_views(addresses@);
            assert(views =~= old(self)@.push(address@));
            assert forall|p: int, q: int| 0 <= p < q < views.len() implies !uri::same_uri(
                #[trigger] views[p],
                #[trigger] views[q],
            ) by {
                if q == old(self)@.len() {
                    assert(!is_slot_of(old(self)@, p, address@));
                }
            }
        }
        self.addresses = addresses;
        ClientSlot::New(i)
    }
}

/// Addresses that are the same share a slot, and no other address does: a slot that belongs to one
/// of two addresses belongs to the other exactly where they are the same.
pub proof fn law_same_address_same_slot(
    addresses: Seq<uri::UriView>,
    slot: int,
    a: uri::UriView,
    b: uri::UriView,
)
    requires
        is_slot_of(addresses, slot, a),
    ensures
        is_slot_of(addresses, slot, b) <==> uri::same_uri(a, b),
{
    if uri::same_uri(a, b) {
        uri::law_same_uri_transitive(addresses[slot], a, b);
    }
    if is_slot_of(addresses, slot, b) {
        uri::law_same_uri_symmetric(addresses[slot], a);
        uri::law_same_uri_transitive(a, addresses[slot], b);
    }
}

/// An address has one slot.
pub proof fn law_one_slot_for_an_address(
    addresses: Seq<uri::UriView>,
    s: int,
    t: int,
    address: uri::UriView,
)
    requires
        addresses_differ(addresses),
        is_slot_of(addresses, s, address),
        is_slot_of(addresses, t, address),
    ensures
        s == t,
{
    uri::law_same_uri_symmetric(addresses[t], address);
    uri::law_same_uri_transitive(addresses[s], address, addresses[t]);
    uri::law_same_uri_symmetric(addresses[s], addresses[t]);
}

/// A client keeps its slot, whatever address is asked for.
pub proof fn law_slots_are_kept(
    before: Seq<uri::UriView>,
    asked: uri::UriView,
    given: ClientSlot,
    after: Seq<uri::UriView>,
    slot: int,
    address: uri::UriView,
)
    requires
        slot_given(before, asked, given, after),
        is_slot_of(before, slot, address),
    ensures
        is_slot_of(after, slot, address),
{
}

/// Who asks for the client of a proxy and asks again, for the same address, is given the same
/// slot, and no new client.
pub proof fn law_asking_again_gives_the_same_client(
    before: Seq<uri::UriView>,
    first: uri::UriView,
    given: ClientSlot,
    between: Seq<uri::UriView>,
    second: uri::UriView,
    given_again: ClientSlot,
    after: Seq<uri::UriView>,
)
    requires
        slot_given(before, first, given, between),
        slot_given(between, second, given_again, after),
        uri::same_uri(first, second),
    ensures
        given_again == ClientSlot::Known(
            match given {
                ClientSlot::Known(i) => i,
                ClientSlot::New(i) => i,
            },
        ),
        after == between,
{
    let i = match given {
        ClientSlot::Known(i) => i,
        ClientSlot::New(i) => i,
    };
    uri::law_same_uri_reflexive(first);
    assert(is_slot_of(between, i as int, first));
    law_same_address_same_slot(between, i as int, first, second);
    assert(is_slot_of(between, i as int, second));
    match given_again {
        ClientSlot::Known(j) => {
            law_one_slot_for_an_address(between, i as int, j as int, second);
        },
        ClientSlot::New(_) => {},
    }
}

/// The slot that is given is the slot of the address that was asked for, and is a new one exactly
/// where no address in the table was the same; no more than that one is added.
pub proof fn law_slot_given_is_of_the_address(
    before: Seq<uri::UriView>,
    asked: uri::UriView,
    given: ClientSlot,
    after: Seq<uri::UriView>,
)
    requires
        slot_given(before, asked, given, after),
    ensures
        given is New <==> forall|i: int|
            0 <= i < before.len() ==> !uri::same_uri(#[trigger] before[i], asked),
        given matches ClientSlot::Known(i) ==> i < before.len() && uri::same_uri(
            before[i as int],
            asked,
        ) && after == before,
        given matches ClientSlot::New(i) ==> i == before.len() && after == before.push(asked),
{
    if let ClientSlot::New(_) = given {
        assert forall|i: int| 0 <= i < before.len() implies !uri::same_uri(
            #[trigger] before[i],
            asked,
        ) by {
            assert(!is_slot_of(before, i, asked));
        }
    }
}

/// The addresses of a list are seen in its order.
pub proof fn law_addresses_are_seen_in_order(list: Seq<Uri>, last: Uri)
    ensures
        uri_views(Seq::<Uri>::empty()) == Seq::<uri::UriView>::empty(),
        uri_views(list.push(last)) == uri_views(list).push(last@),
{
    assert(uri_views(Seq::<Uri>::empty()) =~= Seq::empty());
    assert(uri_views(list.push(last)) =~= uri_views(list).push(last@));
}

}
