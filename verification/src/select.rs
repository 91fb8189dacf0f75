//! Choosing the interface that polls are broadcast from.

use vstd::prelude::*;
use crate::addr::Ipv4Address;
use crate::error::ArtNetError;
use crate::flags::{has_flag, IFF};
use crate::interface::{InterfaceView, NetworkInterface, NetworkInterfaceIter};

verus! {

/// Whether an interface can carry broadcast discovery: it has an IPv4
/// address, is broadcast-capable, up, multicast-capable and running, and is
/// no loopback.
pub open spec fn is_possible(i: InterfaceView) -> bool {
    &&& i.addr is Some
    &&& has_flag(i.flags, IFF::BROADCAST)
    &&& has_flag(i.flags, IFF::UP)
    &&& has_flag(i.flags, IFF::MULTICAST)
    &&& has_flag(i.flags, IFF::RUNNING)
    &&& !has_flag(i.flags, IFF::LOOPBACK)
}

/// Whether a name begins with `en`, as the names of Ethernet-class adapters do.
pub open spec fn is_ethernet_name(name: Seq<char>) -> bool {
    name.len() >= 2 && name[0] == 'e' && name[1] == 'n'
}

/// Whether an interface is one that selection settles on: a possible one
/// with an Ethernet-class name.
pub open spec fn is_likely(i: InterfaceView) -> bool {
    is_possible(i) && is_ethernet_name(i.name)
}

/// The possible interfaces of a list, in the order of the list.
pub open spec fn possible_interfaces(s: Seq<InterfaceView>) -> Seq<InterfaceView> {
    s.filter(|i: InterfaceView| is_possible(i))
}

/// The address that selection gives for a list: that of the first likely
/// interface, and `NoInterfaceFound` where the list has none.
pub open spec fn likely_broadcast_addr(s: Seq<InterfaceView>) -> Result<Ipv4Address, ArtNetError>
    decreases s.len(),
{
    if s.len() == 0 {
        Err(ArtNetError::NoInterfaceFound)
    } else if is_likely(s[0]) {
        Ok(s[0].addr->Some_0)
    } else {
        likely_broadcast_addr(s.drop_first())
    }
}

/// The views of a list of interfaces.
pub open spec fn views(v: Seq<NetworkInterface>) -> Seq<InterfaceView> {
    Seq::new(v.len(), |i: int| v[i]@)
}

/// Whether an interface can carry broadcast discovery.
pub fn possible(interface: &NetworkInterface) -> (r: bool)
    ensures
        r == is_possible(interface@),
{
    interface.addr.is_some() && interface.get_flag(IFF::BROADCAST) && interface.get_flag(IFF::UP)
        && interface.get_flag(IFF::MULTICAST) && interface.get_flag(IFF::RUNNING)
        && !interface.get_flag(IFF::LOOPBACK)
}

/// Whether a name begins with `en`.
pub fn ethernet_name(name: &str) -> (r: bool)
    ensures
        r == is_ethernet_name(name@),
{
    name.unicode_len() >= 2 && name.get_char(0) == 'e' && name.get_char(1) == 'n'
}

/// Goes through the rest of a pass and keeps the interfaces that can carry
/// broadcast discovery, in the order in which the pass hands them out.
pub fn get_possible_interfaces(iter: NetworkInterfaceIter) -> (r: Vec<NetworkInterface>)
    ensures
        views(r@) == possible_interfaces(iter.remaining()),
{
    let mut rest = iter;
    let mut kept: Vec<NetworkInterface> = Vec::new();
    let ghost all = rest.remaining();
    let ghost mut seen: Seq<InterfaceView> = Seq::empty();
    proof {
        assert(seen + rest.remaining() =~= all);
        assert(views(kept@) =~= possible_interfaces(seen));
    }
    loop
        invariant
            seen + rest.remaining() == all,
            views(kept@) == possible_interfaces(seen),
        ensures
            views(kept@) == possible_interfaces(all),
        decreases rest.remaining().len(),
    {
        let ghost kept_before = kept@;
        match rest.next() {
            None => {
                proof {
                    assert(seen =~= all);
                }
                break ;
            },
            Some(interface) => {
                let keep = possible(&interface);
                proof {
                    let bigger = seen.push(interface@);
                    assert(bigger.drop_last() =~= seen);
                    assert(bigger + rest.remaining() =~= all);
                    reveal(Seq::filter);
                    seen = bigger;
                }
                if keep {
                    kept.push(interface);
                    proof {
                        assert(views(kept@) =~= views(kept_before).push(interface@));
                    }
                }
            },
        }
    }
    kept
}

/// Picks the address to broadcast from: that of the first interface of the
/// pass that can carry broadcast discovery and has an Ethernet-class name.
/// Fails with `NoInterfaceFound` where the rest of the pass has no such
/// interface.
pub fn get_likely_broadcast_addr(iter: NetworkInterfaceIter) -> (r: Result<
    Ipv4Address,
    ArtNetError,
>)
    ensures
        r == likely_broadcast_addr(iter.remaining()),
{
    let mut rest = iter;
    loop
        invariant
            likely_broadcast_addr(rest.remaining()) == likely_broadcast_addr(iter.remaining()),
        decreases rest.remaining().len(),
    {
        match rest.next() {
            None => {
                return Err(ArtNetError::NoInterfaceFound);
            },
            Some(interface) => {
                if possible(&interface) && ethernet_name(interface.name.as_str()) {
                    match interface.addr {
                        Some(a) => {
                            return Ok(a);
                        },
                        None => {},
                    }
                }
            },
        }
    }
}

/// What selection settles on. Where it gives an address, that address
/// belongs to an interface of the list which has the broadcast, up, multicast
/// and running flags set and the loopback flag clear, whose name begins with
/// `en`, and before which the list holds no other such interface. Where it
/// fails, it fails with `NoInterfaceFound`, and the list holds no such
/// interface at all.
pub proof fn lemma_selection_is_first_likely(s: Seq<InterfaceView>)
    ensures
        match likely_broadcast_addr(s) {
            Ok(a) => exists|k: int|
                {
                    &&& 0 <= k < s.len()
                    &&& #[trigger] s[k].addr == Some(a)
                    &&& has_flag(s[k].flags, IFF::BROADCAST)
                    &&& has_flag(s[k].flags, IFF::UP)
                    &&& has_flag(s[k].flags, IFF::MULTICAST)
                    &&& has_flag(s[k].flags, IFF::RUNNING)
                    &&& !has_flag(s[k].flags, IFF::LOOPBACK)
                    &&& is_ethernet_name(s[k].name)
                    &&& forall|j: int| 0 <= j < k ==> !is_likely(#[trigger] s[j])
                },
            Err(e) => e == ArtNetError::NoInterfaceFound && forall|k: int|
                0 <= k < s.len() ==> !is_likely(#[trigger] s[k]),
        },
    decreases s.len(),
{
    if s.len() == 0 {
    } else if is_likely(s[0]) {
        assert(s[0].addr == Some(s[0].addr->Some_0));
    } else {
        let t = s.drop_first();
        lemma_selection_is_first_likely(t);
        match likely_broadcast_addr(t) {
            Ok(a) => {
                let k = choose|k: int|
                    {
                        &&& 0 <= k < t.len()
                        &&& #[trigger] t[k].addr == Some(a)
                        &&& is_likely(t[k])
                        &&& forall|j: int| 0 <= j < k ==> !is_likely(#[trigger] t[j])
                    };
                assert(s[k + 1] == t[k]);
                assert forall|j: int| 0 <= j < k + 1 implies !is_likely(#[trigger] s[j]) by {
                    if j > 0 {
                        assert(s[j] == t[j - 1]);
                    }
                }
                assert(s[k + 1].addr == Some(a));
            },
            Err(_) => {
                assert forall|k: int| 0 <= k < s.len() implies !is_likely(#[trigger] s[k]) by {
                    if k > 0 {
                        assert(s[k] == t[k - 1]);
                    }
                }
            },
        }
    }
}

/// Selection looks at the possible interfaces only: the list and its possible
/// interfaces give the same answer, which is the address of the first
/// possible interface with an Ethernet-class name.
pub proof fn lemma_selection_among_possible(s: Seq<InterfaceView>)
    ensures
        likely_broadcast_addr(s) == likely_broadcast_addr(possible_interfaces(s)),
    decreases s.len(),
{
    reveal(Seq::filter);
    let pred = |i: InterfaceView| is_possible(i);
    if s.len() == 0 {
        assert(possible_interfaces(s) =~= s);
    } else {
        let head = seq![s[0]];
        let tail = s.drop_first();
        assert(head + tail =~= s);
        Seq::filter_distributes_over_add(head, tail, pred);
        assert(head.drop_last() =~= Seq::<InterfaceView>::empty());
        assert(head.drop_last().filter(pred) =~= Seq::<InterfaceView>::empty());
        lemma_selection_among_possible(tail);
        if is_possible(s[0]) {
            assert(head.filter(pred) =~= head);
            assert(possible_interfaces(s) =~= head + possible_interfaces(tail));
            assert(possible_interfaces(s)[0] == s[0]);
            assert(possible_interfaces(s).drop_first() =~= possible_interfaces(tail));
        } else {
            assert(head.filter(pred) =~= Seq::<InterfaceView>::empty());
            assert(possible_interfaces(s) =~= possible_interfaces(tail));
        }
    }
}

/// Selection depends on nothing but the list and its order: two passes with
/// the same interfaces still to come give the same answer.
pub proof fn lemma_selection_repeatable(first: NetworkInterfaceIter, second: NetworkInterfaceIter)
    requires
        first.remaining() == second.remaining(),
    ensures
        likely_broadcast_addr(first.remaining()) == likely_broadcast_addr(second.remaining()),
{
}

/// A list without interfaces gives `NoInterfaceFound`.
pub proof fn lemma_empty_list_has_no_interface()
    ensures
        likely_broadcast_addr(Seq::<InterfaceView>::empty()) == Err::<Ipv4Address, ArtNetError>(
            ArtNetError::NoInterfaceFound,
        ),
        possible_interfaces(Seq::<InterfaceView>::empty()) == Seq::<InterfaceView>::empty(),
{
    reveal(Seq::filter);
    assert(possible_interfaces(Seq::<InterfaceView>::empty()) =~= Seq::<InterfaceView>::empty());
}

/// An interface without an IPv4 address counts for nothing, whatever its
/// flags and its name: it is not among the possible interfaces, and the list
/// without it gives the same selection.
pub proof fn lemma_addressless_is_excluded(s: Seq<InterfaceView>, k: int)
    requires
        0 <= k < s.len(),
        s[k].addr is None,
    ensures
        !is_possible(s[k]),
        possible_interfaces(s) == possible_interfaces(s.remove(k)),
        likely_broadcast_addr(s) == likely_broadcast_addr(s.remove(k)),
    decreases s.len(),
{
    lemma_possible_without(s, k);
    if k == 0 {
        assert(s.remove(0) =~= s.drop_first());
    } else {
        assert(s.remove(k).drop_first() =~= s.drop_first().remove(k - 1));
        assert(s.remove(k)[0] == s[0]);
        lemma_addressless_is_excluded(s.drop_first(), k - 1);
    }
}

/// Taking an interface that is not possible out of a list leaves the possible
/// interfaces of the list as they were.
proof fn lemma_possible_without(s: Seq<InterfaceView>, k: int)
    requires
        0 <= k < s.len(),
        !is_possible(s[k]),
    ensures
        possible_interfaces(s) == possible_interfaces(s.remove(k)),
    decreases s.len(),
{
    reveal(Seq::filter);
    let pred = |i: InterfaceView| is_possible(i);
    if k == s.len() - 1 {
        assert(s.remove(k) =~= s.drop_last());
    } else {
        assert(s.remove(k).drop_last() =~= s.drop_last().remove(k));
        assert(s.remove(k).last() == s.last());
        lemma_possible_without(s.drop_last(), k);
    }
}

} // verus!
