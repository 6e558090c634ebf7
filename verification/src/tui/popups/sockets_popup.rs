use std::cmp::Ordering;

use vstd::prelude::*;

use crate::args::SocketAddress;

verus! {

broadcast use vstd::seq_lib::group_to_multiset_ensures;

/// Which kind of listening sockets a popup shows.
#[derive(Debug, Clone, Copy, PartialEq, Eq, Structural)]
pub enum SocketPopupType {
    Socks5,
    Sandstorm,
}

/// Which sockets the list shows: all, or those of one IP version.
#[derive(Debug, Clone, Copy, PartialEq, Eq, Structural)]
pub enum IpFilterType {
    All,
    IPv4,
    IPv6,
}

/// The filter chosen at a position of the filter selector.
pub fn ip_filter_from_index(index: usize) -> (f: IpFilterType)
    ensures
        f == (if index == 1 {
            IpFilterType::IPv4
        } else if index == 2 {
            IpFilterType::IPv6
        } else {
            IpFilterType::All
        }),
{
    match index {
        1 => IpFilterType::IPv4,
        2 => IpFilterType::IPv6,
        _ => IpFilterType::All,
    }
}

/// Whether a filter lets an address through.
pub open spec fn filter_passes(filter: IpFilterType, a: SocketAddress) -> bool {
    match filter {
        IpFilterType::All => true,
        IpFilterType::IPv4 => a is V4,
        IpFilterType::IPv6 => a is V6,
    }
}

/// Whether `x` is listed before `y`: IPv6 addresses first, then by port, then by IP.
pub open spec fn socket_less(x: SocketAddress, y: SocketAddress) -> bool {
    match (x, y) {
        (SocketAddress::V6 { .. }, SocketAddress::V4 { .. }) => true,
        (SocketAddress::V4 { .. }, SocketAddress::V6 { .. }) => false,
        (SocketAddress::V4 { ip: xi, port: xp }, SocketAddress::V4 { ip: yi, port: yp }) => xp < yp || (xp == yp
            && xi < yi),
        (
            SocketAddress::V6 { ip: xi, port: xp, .. },
            SocketAddress::V6 { ip: yi, port: yp, .. },
        ) => xp < yp || (xp == yp && xi < yi),
    }
}

/// Whether two addresses are listed at the same place: same IP version, port and IP.
pub open spec fn socket_same(x: SocketAddress, y: SocketAddress) -> bool {
    !socket_less(x, y) && !socket_less(y, x)
}

/// Whether a list of addresses is in listing order.
pub open spec fn sockets_sorted(s: Seq<SocketAddress>) -> bool {
    forall|i: int, j: int| 0 <= i < j < s.len() ==> !socket_less(#[trigger] s[j], #[trigger] s[i])
}

/// The listing order is a strict weak order.
proof fn lemma_socket_less_order(x: SocketAddress, y: SocketAddress, z: SocketAddress)
    ensures
        !(socket_less(x, y) && socket_less(y, x)),
        socket_less(x, y) && socket_less(y, z) ==> socket_less(x, z),
        !socket_less(x, y) && !socket_less(y, z) ==> !socket_less(x, z),
{
}

fn socket_less_exec(x: &SocketAddress, y: &SocketAddress) -> (r: bool)
    ensures
        r == socket_less(*x, *y),
{
    match (x, y) {
        (SocketAddress::V6 { .. }, SocketAddress::V4 { .. }) => true,
        (SocketAddress::V4 { .. }, SocketAddress::V6 { .. }) => false,
        (SocketAddress::V4 { ip: xi, port: xp }, SocketAddress::V4 { ip: yi, port: yp }) => *xp < *yp || (*xp == *yp
            && *xi < *yi),
        (
            SocketAddress::V6 { ip: xi, port: xp, .. },
            SocketAddress::V6 { ip: yi, port: yp, .. },
        ) => *xp < *yp || (*xp == *yp && *xi < *yi),
    }
}

/// Compares two addresses for listing: IPv6 addresses first, then by port, then by IP.
pub fn socket_sort_cmp(x: &SocketAddress, y: &SocketAddress) -> (r: Ordering)
    ensures
        r == (if socket_less(*x, *y) {
            Ordering::Less
        } else if socket_less(*y, *x) {
            Ordering::Greater
        } else {
            Ordering::Equal
        }),
{
    if socket_less_exec(x, y) {
        Ordering::Less
    } else if socket_less_exec(y, x) {
        Ordering::Greater
    } else {
        Ordering::Equal
    }
}

/// The first position of a sorted list at which `a` could be inserted keeping it sorted.
fn insertion_point(s: &Vec<SocketAddress>, a: &SocketAddress) -> (p: usize)
    requires
        sockets_sorted(s@),
    ensures
        p <= s.len(),
        forall|i: int| 0 <= i < p ==> socket_less(#[trigger] s@[i], *a),
        forall|i: int| p <= i < s.len() ==> !socket_less(#[trigger] s@[i], *a),
{
    let mut p: usize = 0;
    while p < s.len() && socket_less_exec(&s[p], a)
        invariant
            p <= s.len(),
            sockets_sorted(s@),
            forall|i: int| 0 <= i < p ==> socket_less(#[trigger] s@[i], *a),
        decreases s.len() - p,
    {
        p = p + 1;
    }
    proof {
        assert forall|i: int| p <= i < s.len() implies !socket_less(#[trigger] s@[i], *a) by {
            if p < i {
                lemma_socket_less_order(s@[p as int], s@[i], *a);
                assert(!socket_less(s@[i], s@[p as int]));
            }
        }
    }
    p
}

/// Inserting at the insertion point keeps a list sorted.
proof fn lemma_insert_sorted(s: Seq<SocketAddress>, p: int, a: SocketAddress)
    requires
        sockets_sorted(s),
        0 <= p <= s.len(),
        forall|i: int| 0 <= i < p ==> socket_less(#[trigger] s[i], a),
        forall|i: int| p <= i < s.len() ==> !socket_less(#[trigger] s[i], a),
    ensures
        sockets_sorted(s.insert(p, a)),
{
    let t = s.insert(p, a);
    assert forall|i: int, j: int| 0 <= i < j < t.len() implies !socket_less(#[trigger] t[j], #[trigger] t[i]) by {
        if j < p {
            assert(t[i] == s[i] && t[j] == s[j]);
        } else if j == p {
            assert(t[i] == s[i]);
            lemma_socket_less_order(a, s[i], a);
        } else if i == p {
            assert(t[j] == s[j - 1]);
        } else if i < p {
            assert(t[i] == s[i] && t[j] == s[j - 1]);
        } else {
            assert(t[i] == s[i - 1] && t[j] == s[j - 1]);
        }
    }
}

/// The listed sockets of a popup, kept in listing order, with the filter chosen and whether
/// the list changed since it was last shown.
pub struct SocketList {
    sockets: Vec<SocketAddress>,
    did_list_change: bool,
    ip_filter: IpFilterType,
}

impl SocketList {
    pub closed spec fn spec_sockets(&self) -> Seq<SocketAddress> {
        self.sockets@
    }

    pub closed spec fn spec_changed(&self) -> bool {
        self.did_list_change
    }

    pub closed spec fn spec_filter(&self) -> IpFilterType {
        self.ip_filter
    }

    /// The sockets are kept in listing order.
    pub open spec fn wf(&self) -> bool {
        sockets_sorted(self.spec_sockets())
    }

    pub fn new() -> (l: Self)
        ensures
            l.wf(),
            l.spec_sockets().len() == 0,
            !l.spec_changed(),
            l.spec_filter() == IpFilterType::All,
    {
        Self { sockets: Vec::new(), did_list_change: false, ip_filter: IpFilterType::All }
    }

    /// Whether the list changed since this was last asked; asking resets it.
    pub fn did_list_change(&mut self) -> (changed: bool)
        ensures
            changed == old(self).spec_changed(),
            !final(self).spec_changed(),
            final(self).spec_sockets() == old(self).spec_sockets(),
            final(self).spec_filter() == old(self).spec_filter(),
    {
        let changed = self.did_list_change;
        self.did_list_change = false;
        changed
    }

    /// Takes a newly loaded list of sockets, putting it in listing order.
    pub fn sockets_loaded(&mut self, list: Vec<SocketAddress>)
        ensures
            final(self).wf(),
            final(self).spec_sockets().to_multiset() == list@.to_multiset(),
            final(self).spec_changed(),
            final(self).spec_filter() == old(self).spec_filter(),
    {
        let mut list = list;
        let ghost orig = list@;
        let mut sorted: Vec<SocketAddress> = Vec::new();
        while list.len() > 0
            invariant
                sockets_sorted(sorted@),
                sorted@.to_multiset().add(list@.to_multiset()) == orig.to_multiset(),
            decreases list.len(),
        {
            let ghost before = list@;
            let a = list.pop().unwrap();
            assert(before == list@.push(a));
            let p = insertion_point(&sorted, &a);
            proof {
                lemma_insert_sorted(sorted@, p as int, a);
            }
            let ghost sorted_before = sorted@;
            sorted.insert(p, a);
            assert(sorted@.to_multiset() =~= sorted_before.to_multiset().insert(a));
            assert(before.to_multiset() =~= list@.to_multiset().insert(a));
            assert(sorted@.to_multiset().add(list@.to_multiset()) =~= orig.to_multiset());
        }
        assert(list@ =~= Seq::<SocketAddress>::empty());
        assert(sorted@.to_multiset().add(list@.to_multiset()) =~= sorted@.to_multiset());
        self.sockets = sorted;
        self.did_list_change = true;
    }

    /// Records that a socket was opened (`state`) or closed. An opened socket is inserted in
    /// order unless one at the same place is listed; a closed one is removed if listed. Answers
    /// whether the list changed.
    pub fn socket_changed(&mut self, socket_address: SocketAddress, state: bool) -> (changed: bool)
        requires
            old(self).wf(),
        ensures
            final(self).wf(),
            final(self).spec_filter() == old(self).spec_filter(),
            ({
                let s = old(self).spec_sockets();
                let listed = exists|i: int| 0 <= i < s.len() && socket_same(#[trigger] s[i], socket_address);
                &&& changed == (state != listed)
                &&& final(self).spec_changed() == (old(self).spec_changed() || changed)
                &&& (state && !listed ==> exists|p: int|
                    0 <= p <= s.len() && final(self).spec_sockets() == s.insert(p, socket_address))
                &&& (!state && listed ==> exists|p: int|
                    0 <= p < s.len() && socket_same(s[p], socket_address) && final(self).spec_sockets()
                        == s.remove(p))
                &&& (!changed ==> final(self).spec_sockets() == s)
            }),
    {
        let ghost s = self.sockets@;
        let p = insertion_point(&self.sockets, &socket_address);
        let found = p < self.sockets.len() && !socket_less_exec(&socket_address, &self.sockets[p]);
        proof {
            if found {
                assert(socket_same(s[p as int], socket_address));
            } else {
                assert forall|i: int| 0 <= i < s.len() implies !socket_same(#[trigger] s[i], socket_address) by {
                    if i >= p {
                        if i > p {
                            lemma_socket_less_order(socket_address, s[p as int], s[i]);
                            assert(!socket_less(s[i], s[p as int]));
                        }
                    }
                }
            }
        }
        if state {
            if found {
                return false;
            }
            proof {
                lemma_insert_sorted(s, p as int, socket_address);
            }
            self.sockets.insert(p, socket_address);
        } else {
            if !found {
                return false;
            }
            self.sockets.remove(p);
            proof {
                let t = self.sockets@;
                assert forall|i: int, j: int| 0 <= i < j < t.len() implies !socket_less(#[trigger] t[j], #[trigger] t[i]) by {
                    let oi = if i < p { i } else { i + 1 };
                    let oj = if j < p { j } else { j + 1 };
                    assert(t[i] == s[oi] && t[j] == s[oj]);
                }
            }
        }
        self.did_list_change = true;
        true
    }

    /// Chooses which sockets are shown.
    pub fn on_ip_filter_changed(&mut self, ip_filter: IpFilterType)
        ensures
            final(self).spec_filter() == ip_filter,
            final(self).spec_changed(),
            final(self).spec_sockets() == old(self).spec_sockets(),
    {
        self.ip_filter = ip_filter;
        self.did_list_change = true;
    }

    /// Appends to `destination` the sockets the filter lets through, in listing order.
    pub fn filter_list_into(&self, destination: &mut Vec<SocketAddress>)
        ensures
            final(destination)@ == old(destination)@ + self.spec_sockets().filter(
                |a: SocketAddress| filter_passes(self.spec_filter(), a),
            ),
    {
        let ghost pred = |a: SocketAddress| filter_passes(self.ip_filter, a);
        let mut i: usize = 0;
        while i < self.sockets.len()
            invariant
                i <= self.sockets.len(),
                pred == (|a: SocketAddress| filter_passes(self.ip_filter, a)),
                destination@ == old(destination)@ + self.sockets@.subrange(0, i as int).filter(pred),
            decreases self.sockets.len() - i,
        {
            let a = self.sockets[i];
            let passes = match self.ip_filter {
                IpFilterType::All => true,
                IpFilterType::IPv4 => match a {
                    SocketAddress::V4 { .. } => true,
                    _ => false,
                },
                IpFilterType::IPv6 => match a {
                    SocketAddress::V6 { .. } => true,
                    _ => false,
                },
            };
            proof {
                reveal(Seq::filter);
                assert(self.sockets@.subrange(0, i + 1).drop_last() =~= self.sockets@.subrange(0, i as int));
                assert(self.sockets@.subrange(0, i + 1).last() == a);
            }
            if passes {
                destination.push(a);
            }
            i = i + 1;
        }
        assert(self.sockets@.subrange(0, self.sockets@.len() as int) =~= self.sockets@);
    }
}

/// The parts of the sockets popup that can hold the focus, from top to bottom.
#[derive(Debug, Clone, Copy, PartialEq, Eq, Structural)]
pub enum FocusedElement {
    IpFilter,
    SocketList,
    AddButton,
}

/// The position of a part, from the top.
pub open spec fn position(e: FocusedElement) -> int {
    match e {
        FocusedElement::IpFilter => 0,
        FocusedElement::SocketList => 1,
        FocusedElement::AddButton => 2,
    }
}

impl FocusedElement {
    /// The part below, or this one at the bottom.
    pub fn down(self) -> (r: Self)
        ensures
            position(r) == if position(self) < 2 { position(self) + 1 } else { 2 },
    {
        match self {
            Self::IpFilter => Self::SocketList,
            Self::SocketList => Self::AddButton,
            Self::AddButton => Self::AddButton,
        }
    }

    /// The part above, or this one at the top.
    pub fn up(self) -> (r: Self)
        ensures
            position(r) == if position(self) > 0 { position(self) - 1 } else { 0 },
    {
        match self {
            Self::IpFilter => Self::IpFilter,
            Self::SocketList => Self::IpFilter,
            Self::AddButton => Self::SocketList,
        }
    }

    /// The next part, going back to the top after the bottom one (for the TAB key).
    pub fn next(self) -> (r: Self)
        ensures
            position(r) == (position(self) + 1) % 3,
    {
        match self {
            Self::IpFilter => Self::SocketList,
            Self::SocketList => Self::AddButton,
            Self::AddButton => Self::IpFilter,
        }
    }
}

/// Each part is at its own position.
pub proof fn lemma_position_injective(a: FocusedElement, b: FocusedElement)
    requires
        position(a) == position(b),
    ensures
        a == b,
{
}

} // verus!
