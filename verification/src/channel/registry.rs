//! Publications of open HID++ channels, keyed by OS HID node and selected by
//! exact device route.
//!
//! Each node publishes one channel for a set of routes. When two nodes
//! publish the same route (identical direct devices), the oldest publication
//! wins until it is removed; re-publishing a node keeps its original
//! priority.

use vstd::prelude::*;

use crate::hid::route::DeviceRoute;
use crate::inventory::ledger::NodeKey;

verus! {

/// A channel handle whose identity can be compared.
pub trait ChannelIdentity: Sized {
    /// Whether two handles are the same channel.
    spec fn same_channel_spec(&self, other: &Self) -> bool;

    /// Whether two handles are the same channel.
    fn same_channel(&self, other: &Self) -> (b: bool)
        ensures
            b == self.same_channel_spec(other);
}

impl ChannelIdentity for u64 {
    open spec fn same_channel_spec(&self, other: &Self) -> bool {
        *self == *other
    }

    fn same_channel(&self, other: &Self) -> (b: bool) {
        *self == *other
    }
}

impl ChannelIdentity for String {
    open spec fn same_channel_spec(&self, other: &Self) -> bool {
        self@ == other@
    }

    fn same_channel(&self, other: &Self) -> (b: bool) {
        self.eq(other)
    }
}

/// One node's publication: its routes and channel, and the sequence number
/// that fixes its priority among publications of the same route.
pub struct Publication<Node, Channel> {
    /// The OS HID node that published.
    pub node: Node,
    /// Publication order; lower wins.
    pub sequence: u64,
    /// The exact routes the channel serves.
    pub routes: Vec<DeviceRoute>,
    /// The channel.
    pub channel: Channel,
}

/// A publication as a mathematical value.
pub struct PublicationView<V, Channel> {
    /// The node's view.
    pub node: V,
    /// Publication order.
    pub sequence: u64,
    /// The routes.
    pub routes: Seq<DeviceRoute>,
    /// The channel.
    pub channel: Channel,
}

/// The view of a publication.
pub open spec fn publication_view<Node: View, Channel>(p: Publication<Node, Channel>) -> PublicationView<Node::V, Channel> {
    PublicationView { node: p.node@, sequence: p.sequence, routes: p.routes@, channel: p.channel }
}

/// Whether `routes` holds a route equal to `route`.
pub open spec fn route_in(routes: Seq<DeviceRoute>, route: DeviceRoute) -> bool {
    exists|k: int| 0 <= k < routes.len() && #[trigger] routes[k].same(route)
}

/// Whether two route lists hold the same routes.
pub open spec fn same_route_set(a: Seq<DeviceRoute>, b: Seq<DeviceRoute>) -> bool {
    &&& forall|i: int| 0 <= i < a.len() ==> route_in(b, #[trigger] a[i])
    &&& forall|j: int| 0 <= j < b.len() ==> route_in(a, #[trigger] b[j])
}

/// Among the first `n` publications, the index of the one that wins `route`:
/// the lowest sequence among those that publish it, the earliest on a tie.
pub open spec fn winner_upto<V, Channel>(ps: Seq<PublicationView<V, Channel>>, route: DeviceRoute, n: nat) -> Option<int>
    decreases n,
{
    if n == 0 {
        None
    } else {
        let i = n - 1;
        let w = winner_upto(ps, route, (n - 1) as nat);
        if route_in(ps[i].routes, route) && (w matches Some(k) ==> ps[i].sequence < ps[k].sequence) {
            Some(i)
        } else {
            w
        }
    }
}

/// The index of the publication that wins `route`, if any publishes it.
pub open spec fn winner<V, Channel>(ps: Seq<PublicationView<V, Channel>>, route: DeviceRoute) -> Option<int> {
    winner_upto(ps, route, ps.len())
}

/// The registry of channel publications.
pub struct NodeRegistry<Node: NodeKey, Channel: ChannelIdentity> {
    publications: Vec<Publication<Node, Channel>>,
    next_sequence: u64,
}

impl<Node: NodeKey, Channel: ChannelIdentity> NodeRegistry<Node, Channel> {
    /// No node publishes twice.
    #[verifier::type_invariant]
    closed spec fn inv(self) -> bool {
        forall|i: int, j: int| 0 <= i < j < self.publications.len() ==>
            (#[trigger] self.publications@[i]).node@ != (#[trigger] self.publications@[j]).node@
    }

    /// The publications, oldest slot first.
    pub closed spec fn pubs(self) -> Seq<PublicationView<Node::V, Channel>> {
        self.publications@.map_values(|p: Publication<Node, Channel>| publication_view(p))
    }

    /// The sequence number the next new publication gets.
    pub closed spec fn next_seq(self) -> u64 {
        self.next_sequence
    }

    /// An empty registry.
    pub fn new() -> (r: Self)
        ensures
            r.pubs() == Seq::<PublicationView<Node::V, Channel>>::empty(),
            r.next_seq() == 0,
    {
        let r = NodeRegistry { publications: Vec::new(), next_sequence: 0 };
        assert(r.pubs() =~= Seq::<PublicationView<Node::V, Channel>>::empty());
        r
    }

    /// The slot of `node`'s publication, if it has one.
    fn position_of(&self, node: &Node) -> (r: Option<usize>)
        ensures
            r matches Some(i) ==> i < self.pubs().len() && self.pubs()[i as int].node == node@,
            r is None ==> forall|i: int| 0 <= i < self.pubs().len() ==> self.pubs()[i].node != node@,
    {
        let mut i: usize = 0;
        while i < self.publications.len()
            invariant
                i <= self.publications.len(),
                forall|k: int| 0 <= k < i ==> self.pubs()[k].node != node@,
            decreases self.publications.len() - i,
        {
            if self.publications[i].node.same_node(node) {
                return Some(i);
            }
            i += 1;
        }
        None
    }

    /// Replace every route and the channel published by `node`, keeping the
    /// node's priority when it already published; a new node publishes
    /// last, with the next sequence number. Returns whether anything
    /// changed: re-publishing the same routes (in any order) and the same
    /// channel changes nothing.
    pub fn replace_node(&mut self, node: Node, routes: Vec<DeviceRoute>, channel: Channel) -> (changed: bool)
        ensures
            ({
                let old_pubs = old(self).pubs();
                let new_pub = |sequence: u64| PublicationView { node: node@, sequence, routes: routes@, channel };
                match choose_slot(old_pubs, node@) {
                    Some(i) => if same_route_set(old_pubs[i].routes, routes@) && old_pubs[i].channel.same_channel_spec(&channel) {
                        !changed && final(self).pubs() == old_pubs && final(self).next_seq() == old(self).next_seq()
                    } else {
                        changed && final(self).pubs() == old_pubs.update(i, new_pub(old_pubs[i].sequence))
                            && final(self).next_seq() == old(self).next_seq()
                    },
                    None => changed && final(self).pubs() == old_pubs.push(new_pub(old(self).next_seq()))
                        && final(self).next_seq() == (if old(self).next_seq() == u64::MAX { 0 } else { (old(self).next_seq() + 1) as u64 }),
                }
            }),
            (final(self).pubs(), final(self).next_seq()) == replaced(old(self).pubs(), old(self).next_seq(), node@, routes@, channel),
    {
        proof {
            use_type_invariant(&*self);
        }
        let ghost old_pubs = self.pubs();
        let ghost routes_view = routes@;
        let found = self.position_of(&node);
        proof {
            lemma_choose_slot(old_pubs, node@);
        }
        match found {
            Some(i) => {
                let same_routes = same_routes(&self.publications[i].routes, &routes);
                if same_routes && self.publications[i].channel.same_channel(&channel) {
                    return false;
                }
                let sequence = self.publications[i].sequence;
                let mut pubs: Vec<Publication<Node, Channel>> = Vec::new();
                std::mem::swap(&mut pubs, &mut self.publications);
                let ghost before = pubs@;
                pubs.set(i, Publication { node, sequence, routes, channel });
                proof {
                    assert forall|a: int, b: int| 0 <= a < b < pubs@.len() implies (#[trigger] pubs@[a]).node@ != (#[trigger] pubs@[b]).node@ by {
                        if a != i as int && b != i as int {
                            assert(before[a].node@ != before[b].node@);
                        }
                    }
                }
                self.publications = pubs;
                proof {
                    assert(self.pubs() =~= old_pubs.update(i as int, PublicationView { node: node@, sequence, routes: routes_view, channel }));
                }
                true
            },
            None => {
                let sequence = self.next_sequence;
                let mut pubs: Vec<Publication<Node, Channel>> = Vec::new();
                std::mem::swap(&mut pubs, &mut self.publications);
                let ghost before = pubs@;
                pubs.push(Publication { node, sequence, routes, channel });
                proof {
                    assert forall|a: int, b: int| 0 <= a < b < pubs@.len() implies (#[trigger] pubs@[a]).node@ != (#[trigger] pubs@[b]).node@ by {
                        if b < before.len() {
                            assert(before[a].node@ != before[b].node@);
                        } else {
                            assert(old_pubs[a].node != node@);
                        }
                    }
                }
                self.publications = pubs;
                self.next_sequence = self.next_sequence.wrapping_add(1);
                proof {
                    assert(self.pubs() =~= old_pubs.push(PublicationView { node: node@, sequence, routes: routes_view, channel }));
                }
                true
            },
        }
    }

    /// Remove every route and channel `node` published. Returns whether it
    /// had published anything.
    pub fn remove_node(&mut self, node: &Node) -> (changed: bool)
        ensures
            match choose_slot(old(self).pubs(), node@) {
                Some(i) => changed && final(self).pubs() == old(self).pubs().remove(i),
                None => !changed && final(self).pubs() == old(self).pubs(),
            },
            final(self).next_seq() == old(self).next_seq(),
    {
        proof {
            use_type_invariant(&*self);
            lemma_choose_slot(self.pubs(), node@);
        }
        let ghost old_pubs = self.pubs();
        match self.position_of(node) {
            Some(i) => {
                let mut pubs: Vec<Publication<Node, Channel>> = Vec::new();
                std::mem::swap(&mut pubs, &mut self.publications);
                let ghost before = pubs@;
                pubs.remove(i);
                proof {
                    assert forall|a: int, b: int| 0 <= a < b < pubs@.len() implies (#[trigger] pubs@[a]).node@ != (#[trigger] pubs@[b]).node@ by {
                        let a0 = if a < i { a } else { a + 1 };
                        let b0 = if b < i { b } else { b + 1 };
                        assert(pubs@[a] == before[a0]);
                        assert(pubs@[b] == before[b0]);
                        assert(before[a0].node@ != before[b0].node@);
                    }
                }
                self.publications = pubs;
                proof {
                    assert(self.pubs() =~= old_pubs.remove(i as int));
                }
                true
            },
            None => false,
        }
    }

    /// Remove the publications of every node not in `nodes`. Returns
    /// whether any was removed.
    pub fn retain_nodes(&mut self, nodes: &[Node]) -> (changed: bool)
        ensures
            final(self).pubs() == old(self).pubs().filter(|p: PublicationView<Node::V, Channel>| node_listed(nodes@, p.node)),
            changed == (final(self).pubs().len() != old(self).pubs().len()),
            final(self).next_seq() == old(self).next_seq(),
    {
        proof {
            use_type_invariant(&*self);
        }
        let ghost old_pubs = self.pubs();
        let ghost pred = |p: PublicationView<Node::V, Channel>| node_listed(nodes@, p.node);
        let mut rest: Vec<Publication<Node, Channel>> = Vec::new();
        std::mem::swap(&mut rest, &mut self.publications);
        let ghost all = rest@;
        let ghost views = old_pubs;
        let previous_len = rest.len();
        let mut kept: Vec<Publication<Node, Channel>> = Vec::new();
        let mut k: usize = 0;
        while rest.len() > 0
            invariant
                k + rest.len() == previous_len,
                previous_len == all.len(),
                views.len() == all.len(),
                forall|x: int| 0 <= x < all.len() ==> #[trigger] views[x] == publication_view(all[x]),
                rest@ == all.subrange(k as int, all.len() as int),
                kept@.map_values(|q: Publication<Node, Channel>| publication_view(q)) == views.take(k as int).filter(pred),
                forall|a: int| 0 <= a < kept@.len() ==> exists|x: int| 0 <= x < k && (#[trigger] kept@[a]).node@ == all[x].node@,
                forall|a: int, b: int| 0 <= a < b < kept@.len() ==> (#[trigger] kept@[a]).node@ != (#[trigger] kept@[b]).node@,
                forall|a: int, b: int| 0 <= a < b < all.len() ==> (#[trigger] all[a]).node@ != (#[trigger] all[b]).node@,
                pred == (|p: PublicationView<Node::V, Channel>| node_listed(nodes@, p.node)),
            decreases rest.len(),
        {
            let p = rest.remove(0);
            let ghost kept_before = kept@;
            proof {
                assert(p == all[k as int]);
                assert(rest@ =~= all.subrange(k + 1, all.len() as int));
                reveal(Seq::filter);
                assert(views.take(k + 1).drop_last() =~= views.take(k as int));
                assert(views.take(k + 1).last() == publication_view(p));
            }
            if listed(nodes, &p.node) {
                kept.push(p);
                proof {
                    assert(kept@.map_values(|q: Publication<Node, Channel>| publication_view(q))
                        =~= kept_before.map_values(|q: Publication<Node, Channel>| publication_view(q)).push(publication_view(p)));
                    assert forall|a: int| 0 <= a < kept@.len() implies exists|x: int| 0 <= x < k + 1 && (#[trigger] kept@[a]).node@ == all[x].node@ by {
                        if a == kept@.len() - 1 {
                            assert(kept@[a].node@ == all[k as int].node@);
                        } else {
                            assert(kept@[a] == kept_before[a]);
                        }
                    }
                    assert forall|a: int, b: int| 0 <= a < b < kept@.len() implies (#[trigger] kept@[a]).node@ != (#[trigger] kept@[b]).node@ by {
                        if b == kept@.len() - 1 {
                            assert(kept@[a] == kept_before[a]);
                            let x = choose|x: int| 0 <= x < k && (#[trigger] kept_before[a]).node@ == all[x].node@;
                            assert(all[x].node@ != all[k as int].node@);
                        } else {
                            assert(kept@[a] == kept_before[a]);
                            assert(kept@[b] == kept_before[b]);
                        }
                    }
                }
            }
            k += 1;
        }
        proof {
            assert(views.take(previous_len as int) =~= views);
            views.lemma_filter_len(pred);
        }
        let changed = kept.len() != previous_len;
        self.publications = kept;
        changed
    }

    /// The channel that wins `route`: among the publications of exactly
    /// this route, the one with the lowest sequence number (the earliest on
    /// a tie); `None` when no node publishes the route.
    pub fn lookup(&self, route: &DeviceRoute) -> (c: Option<&Channel>)
        ensures
            match winner(self.pubs(), *route) {
                Some(i) => c matches Some(x) && *x == self.pubs()[i].channel,
                None => c is None,
            },
    {
        match self.winner_index(route) {
            Some(i) => {
                proof {
                    assert(self.pubs()[i as int].channel == self.publications@[i as int].channel);
                }
                Some(&self.publications[i].channel)
            },
            None => None,
        }
    }

    /// The slot of the publication that wins `route`.
    fn winner_index(&self, route: &DeviceRoute) -> (r: Option<usize>)
        ensures
            r matches Some(k) ==> winner(self.pubs(), *route) == Some(k as int) && k < self.pubs().len(),
            r is None ==> winner(self.pubs(), *route) is None,
    {
        let mut best: Option<usize> = None;
        let mut i: usize = 0;
        while i < self.publications.len()
            invariant
                i <= self.publications.len(),
                match winner_upto(self.pubs(), *route, i as nat) {
                    Some(w) => best == Some(w as usize) && 0 <= w < i,
                    None => best is None,
                },
            decreases self.publications.len() - i,
        {
            let publishes = contains_route(&self.publications[i].routes, route);
            proof {
                assert(self.pubs()[i as int].routes == self.publications@[i as int].routes@);
            }
            if publishes {
                let better = match best {
                    None => true,
                    Some(b) => self.publications[i].sequence < self.publications[b].sequence,
                };
                if better {
                    best = Some(i);
                }
            }
            i += 1;
        }
        best
    }

    /// Whether some route of some publication satisfies `predicate`
    /// together with that publication's channel, while that publication is
    /// the route's winner.
    pub fn any_current<F: Fn(&DeviceRoute, &Channel) -> bool>(&self, predicate: F) -> (b: bool)
        requires
            forall|r: &DeviceRoute, c: &Channel| #[trigger] predicate.requires((r, c)),
        ensures
            b ==> exists|i: int, j: int| 0 <= i < self.pubs().len() && 0 <= j < self.pubs()[i].routes.len()
                && winner(self.pubs(), self.pubs()[i].routes[j]) == Some(i)
                && #[trigger] predicate.ensures((&self.pubs()[i].routes[j], &self.pubs()[i].channel), true),
            !b ==> forall|i: int, j: int| 0 <= i < self.pubs().len() && 0 <= j < self.pubs()[i].routes.len()
                && winner(self.pubs(), self.pubs()[i].routes[j]) == Some(i)
                ==> #[trigger] predicate.ensures((&self.pubs()[i].routes[j], &self.pubs()[i].channel), false),
    {
        let mut i: usize = 0;
        while i < self.publications.len()
            invariant
                i <= self.publications.len(),
                forall|r: &DeviceRoute, c: &Channel| #[trigger] predicate.requires((r, c)),
                forall|a: int, j: int| 0 <= a < i && 0 <= j < self.pubs()[a].routes.len()
                    && winner(self.pubs(), self.pubs()[a].routes[j]) == Some(a)
                    ==> #[trigger] predicate.ensures((&self.pubs()[a].routes[j], &self.pubs()[a].channel), false),
            decreases self.publications.len() - i,
        {
            let publication = &self.publications[i];
            proof {
                assert(self.pubs()[i as int].routes == publication.routes@);
                assert(self.pubs()[i as int].channel == publication.channel);
            }
            let mut j: usize = 0;
            while j < publication.routes.len()
                invariant
                    i < self.publications.len(),
                    publication == self.publications@[i as int],
                    self.pubs()[i as int].routes == publication.routes@,
                    self.pubs()[i as int].channel == publication.channel,
                    j <= publication.routes.len(),
                    forall|r: &DeviceRoute, c: &Channel| #[trigger] predicate.requires((r, c)),
                    forall|a: int, k: int| 0 <= a < i && 0 <= k < self.pubs()[a].routes.len()
                        && winner(self.pubs(), self.pubs()[a].routes[k]) == Some(a)
                        ==> #[trigger] predicate.ensures((&self.pubs()[a].routes[k], &self.pubs()[a].channel), false),
                    forall|k: int| 0 <= k < j
                        && winner(self.pubs(), self.pubs()[i as int].routes[k]) == Some(i as int)
                        ==> #[trigger] predicate.ensures((&self.pubs()[i as int].routes[k], &self.pubs()[i as int].channel), false),
                decreases publication.routes.len() - j,
            {
                let route = &publication.routes[j];
                if predicate(route, &publication.channel) {
                    let w = self.winner_index(route);
                    if w == Some(i) {
                        proof {
                            assert(self.pubs()[i as int].routes[j as int] == *route);
                            assert(predicate.ensures((&self.pubs()[i as int].routes[j as int], &self.pubs()[i as int].channel), true));
                        }
                        return true;
                    }
                }
                j += 1;
            }
            i += 1;
        }
        false
    }

    /// Whether `channel` is still the winning publication for exactly
    /// `route`: some publication that currently wins a route equal to
    /// `route` carries the same channel.
    pub fn is_current(&self, route: &DeviceRoute, channel: &Channel) -> (b: bool)
        ensures
            b == exists|i: int, j: int| 0 <= i < self.pubs().len() && 0 <= j < self.pubs()[i].routes.len()
                && winner(self.pubs(), self.pubs()[i].routes[j]) == Some(i)
                && #[trigger] self.pubs()[i].routes[j].same(*route)
                && self.pubs()[i].channel.same_channel_spec(channel),
    {
        let matches = |r: &DeviceRoute, c: &Channel| -> (m: bool)
            ensures
                m == (r.same(*route) && c.same_channel_spec(channel)),
        {
            r.same_route(route) && c.same_channel(channel)
        };
        let b = self.any_current(matches);
        proof {
            if !b {
                assert forall|i: int, j: int| !(0 <= i < self.pubs().len() && 0 <= j < self.pubs()[i].routes.len()
                    && winner(self.pubs(), self.pubs()[i].routes[j]) == Some(i)
                    && #[trigger] self.pubs()[i].routes[j].same(*route)
                    && self.pubs()[i].channel.same_channel_spec(channel)) by {
                    if 0 <= i < self.pubs().len() && 0 <= j < self.pubs()[i].routes.len()
                        && winner(self.pubs(), self.pubs()[i].routes[j]) == Some(i) {
                        assert(matches.ensures((&self.pubs()[i].routes[j], &self.pubs()[i].channel), false));
                    }
                }
            }
        }
        b
    }
}

/// The slot whose publication is `node`'s, if any.
pub open spec fn choose_slot<V, Channel>(ps: Seq<PublicationView<V, Channel>>, node: V) -> Option<int> {
    if exists|i: int| 0 <= i < ps.len() && ps[i].node == node {
        Some(choose|i: int| 0 <= i < ps.len() && ps[i].node == node)
    } else {
        None
    }
}

proof fn lemma_choose_slot<V, Channel>(ps: Seq<PublicationView<V, Channel>>, node: V)
    requires
        forall|i: int, j: int| 0 <= i < j < ps.len() ==> (#[trigger] ps[i]).node != (#[trigger] ps[j]).node,
    ensures
        choose_slot(ps, node) matches Some(i) ==> (0 <= i < ps.len() && ps[i].node == node
            && forall|k: int| 0 <= k < ps.len() && ps[k].node == node ==> k == i),
        choose_slot(ps, node) is None ==> forall|k: int| 0 <= k < ps.len() ==> ps[k].node != node,
{
    if let Some(i) = choose_slot(ps, node) {
        assert forall|k: int| 0 <= k < ps.len() && ps[k].node == node implies k == i by {
            if k < i {
                assert(ps[k].node != ps[i].node);
            } else if k > i {
                assert(ps[i].node != ps[k].node);
            }
        }
    }
}

/// Whether `node` is among `nodes`.
pub open spec fn node_listed<Node: View>(nodes: Seq<Node>, node: Node::V) -> bool {
    exists|i: int| 0 <= i < nodes.len() && nodes[i]@ == node
}

/// Whether `node` is among `nodes`.
fn listed<Node: NodeKey>(nodes: &[Node], node: &Node) -> (b: bool)
    ensures
        b == node_listed(nodes@, node@),
{
    let mut i: usize = 0;
    while i < nodes.len()
        invariant
            i <= nodes.len(),
            forall|k: int| 0 <= k < i ==> nodes@[k]@ != node@,
        decreases nodes.len() - i,
    {
        if nodes[i].same_node(node) {
            return true;
        }
        i += 1;
    }
    false
}

/// Whether `routes` holds a route equal to `route`.
fn contains_route(routes: &Vec<DeviceRoute>, route: &DeviceRoute) -> (b: bool)
    ensures
        b == route_in(routes@, *route),
{
    let mut k: usize = 0;
    while k < routes.len()
        invariant
            k <= routes.len(),
            forall|m: int| 0 <= m < k ==> !routes@[m].same(*route),
        decreases routes.len() - k,
    {
        if routes[k].same_route(route) {
            return true;
        }
        k += 1;
    }
    false
}

/// Whether two route lists hold the same routes.
fn same_routes(a: &Vec<DeviceRoute>, b: &Vec<DeviceRoute>) -> (r: bool)
    ensures
        r == same_route_set(a@, b@),
{
    let mut i: usize = 0;
    while i < a.len()
        invariant
            i <= a.len(),
            forall|k: int| 0 <= k < i ==> route_in(b@, #[trigger] a@[k]),
        decreases a.len() - i,
    {
        if !contains_route(b, &a[i]) {
            return false;
        }
        i += 1;
    }
    let mut j: usize = 0;
    while j < b.len()
        invariant
            j <= b.len(),
            forall|k: int| 0 <= k < a.len() ==> route_in(b@, #[trigger] a@[k]),
            forall|k: int| 0 <= k < j ==> route_in(a@, #[trigger] b@[k]),
        decreases b.len() - j,
    {
        if !contains_route(a, &b[j]) {
            return false;
        }
        j += 1;
    }
    true
}

/// Publications that agree on their first `n` slots pick the same winner
/// among them.
proof fn lemma_winner_prefix<V, Channel>(a: Seq<PublicationView<V, Channel>>, b: Seq<PublicationView<V, Channel>>, route: DeviceRoute, n: nat)
    requires
        n <= a.len(),
        n <= b.len(),
        forall|k: int| 0 <= k < n ==> a[k] == b[k],
    ensures
        winner_upto(a, route, n) == winner_upto(b, route, n),
        winner_upto(a, route, n) matches Some(w) ==> 0 <= w < n,
    decreases n,
{
    if n > 0 {
        lemma_winner_prefix(a, b, route, (n - 1) as nat);
    }
}

/// A new publication whose sequence number is above every existing one never
/// takes a route from its current winner.
pub proof fn lemma_new_publication_never_outranks<V, Channel>(
    ps: Seq<PublicationView<V, Channel>>,
    p: PublicationView<V, Channel>,
    route: DeviceRoute,
)
    requires
        forall|k: int| 0 <= k < ps.len() ==> (#[trigger] ps[k]).sequence < p.sequence,
        winner(ps, route) is Some,
    ensures
        winner(ps.push(p), route) == winner(ps, route),
{
    lemma_winner_prefix(ps, ps.push(p), route, ps.len());
}

/// Re-publishing a route's winner, with its sequence number kept and the
/// route still among its routes, keeps it the winner: replacing a node
/// preserves its priority.
pub proof fn lemma_republish_keeps_priority<V, Channel>(
    ps: Seq<PublicationView<V, Channel>>,
    i: int,
    p: PublicationView<V, Channel>,
    route: DeviceRoute,
)
    requires
        0 <= i < ps.len(),
        p.sequence == ps[i].sequence,
        route_in(p.routes, route),
        winner(ps, route) == Some(i),
    ensures
        winner(ps.update(i, p), route) == Some(i),
{
    lemma_republish_upto(ps, i, p, route, ps.len());
}

proof fn lemma_republish_upto<V, Channel>(
    ps: Seq<PublicationView<V, Channel>>,
    i: int,
    p: PublicationView<V, Channel>,
    route: DeviceRoute,
    n: nat,
)
    requires
        0 <= i < n <= ps.len(),
        p.sequence == ps[i].sequence,
        route_in(p.routes, route),
        winner_upto(ps, route, n) == Some(i),
    ensures
        winner_upto(ps.update(i, p), route, n) == Some(i),
    decreases n,
{
    let q = ps.update(i, p);
    if n == i + 1 {
        lemma_winner_prefix(ps, q, route, i as nat);
        let w = winner_upto(ps, route, i as nat);
        assert(winner_upto(ps, route, n) == (if route_in(ps[i].routes, route) && (w matches Some(k) ==> ps[i].sequence < ps[k].sequence) { Some(i) } else { w }));
        if let Some(k) = w {
            assert(0 <= k < i);
            assert(q[k] == ps[k]);
        }
    } else {
        let prev = winner_upto(ps, route, (n - 1) as nat);
        lemma_winner_prefix(ps, ps, route, (n - 1) as nat);
        if prev != Some(i) {
            assert(winner_upto(ps, route, n) == Some((n - 1) as int) || winner_upto(ps, route, n) == prev);
        }
        lemma_republish_upto(ps, i, p, route, (n - 1) as nat);
        assert(q[n - 1] == ps[n - 1]);
    }
}

/// Whether publication sequence numbers rise with their slots, as they do
/// while the sequence counter has not wrapped.
pub open spec fn sequence_ordered<V, Channel>(ps: Seq<PublicationView<V, Channel>>) -> bool {
    forall|a: int, b: int| 0 <= a < b < ps.len() ==> (#[trigger] ps[a]).sequence < (#[trigger] ps[b]).sequence
}

/// With sequence numbers in slot order, the oldest publication of a route
/// wins it: the winner publishes the route and no earlier slot does.
pub proof fn lemma_oldest_wins<V, Channel>(ps: Seq<PublicationView<V, Channel>>, route: DeviceRoute)
    requires
        sequence_ordered(ps),
    ensures
        winner(ps, route) matches Some(i) ==> 0 <= i < ps.len() && route_in(ps[i].routes, route)
            && forall|k: int| 0 <= k < i ==> !route_in(#[trigger] ps[k].routes, route),
        winner(ps, route) is None ==> forall|k: int| 0 <= k < ps.len() ==> !route_in(#[trigger] ps[k].routes, route),
{
    lemma_oldest_upto(ps, route, ps.len());
}

proof fn lemma_oldest_upto<V, Channel>(ps: Seq<PublicationView<V, Channel>>, route: DeviceRoute, n: nat)
    requires
        sequence_ordered(ps),
        n <= ps.len(),
    ensures
        winner_upto(ps, route, n) matches Some(i) ==> 0 <= i < n && route_in(ps[i].routes, route)
            && forall|k: int| 0 <= k < i ==> !route_in(#[trigger] ps[k].routes, route),
        winner_upto(ps, route, n) is None ==> forall|k: int| 0 <= k < n ==> !route_in(#[trigger] ps[k].routes, route),
    decreases n,
{
    if n > 0 {
        lemma_oldest_upto(ps, route, (n - 1) as nat);
        if let Some(w) = winner_upto(ps, route, (n - 1) as nat) {
            assert(ps[w].sequence < ps[n - 1].sequence);
        }
    }
}

/// The publications and next sequence number after `node` replaces its
/// publication with `routes` and `channel`: unchanged when it already
/// publishes the same route set on the same channel; its slot updated in
/// place, keeping its sequence number, when it publishes otherwise; and a
/// new publication last, with the next sequence number, when it is new.
pub open spec fn replaced<V, Channel: ChannelIdentity>(
    ps: Seq<PublicationView<V, Channel>>,
    next: u64,
    node: V,
    routes: Seq<DeviceRoute>,
    channel: Channel,
) -> (Seq<PublicationView<V, Channel>>, u64) {
    match choose_slot(ps, node) {
        Some(i) => if same_route_set(ps[i].routes, routes) && ps[i].channel.same_channel_spec(&channel) {
            (ps, next)
        } else {
            (ps.update(i, PublicationView { node, sequence: ps[i].sequence, routes, channel }), next)
        },
        None => (
            ps.push(PublicationView { node, sequence: next, routes, channel }),
            if next == u64::MAX { 0 } else { (next + 1) as u64 },
        ),
    }
}

/// Replacing a route's winner keeps its priority: when two new nodes
/// publish the same route one after the other, and the first then
/// re-publishes it on another channel, the first still wins the route and
/// its publication carries the new channel (or one the registry counts as
/// the same, in which case nothing was replaced). Publications of other
/// routes before them do not matter.
pub proof fn lemma_replacing_winner_keeps_priority<V, Channel: ChannelIdentity>(
    ps: Seq<PublicationView<V, Channel>>,
    next: u64,
    first: V,
    second: V,
    route: DeviceRoute,
    a1: Channel,
    b: Channel,
    a2: Channel,
)
    requires
        first != second,
        forall|i: int, j: int| 0 <= i < j < ps.len() ==> (#[trigger] ps[i]).node != (#[trigger] ps[j]).node,
        forall|k: int| 0 <= k < ps.len() ==> (#[trigger] ps[k]).node != first && ps[k].node != second,
        forall|k: int| 0 <= k < ps.len() ==> (#[trigger] ps[k]).sequence < next,
        next < u64::MAX,
        winner(ps, route) is None,
    ensures
        ({
            let (p1, n1) = replaced(ps, next, first, seq![route], a1);
            let (p2, n2) = replaced(p1, n1, second, seq![route], b);
            let (p3, n3) = replaced(p2, n2, first, seq![route], a2);
            &&& winner(p3, route) == Some(ps.len() as int)
            &&& p3[ps.len() as int].node == first
            &&& (p3[ps.len() as int].channel == a2 || p3[ps.len() as int].channel.same_channel_spec(&a2))
        }),
{
    let len = ps.len() as int;
    lemma_choose_slot(ps, first);
    let v1 = PublicationView { node: first, sequence: next, routes: seq![route], channel: a1 };
    let p1 = ps.push(v1);
    let n1 = (next + 1) as u64;
    assert(replaced(ps, next, first, seq![route], a1) == (p1, n1));
    assert(seq![route][0].same(route));
    assert(route_in(seq![route], route));
    lemma_winner_prefix(ps, p1, route, ps.len());
    assert(winner(p1, route) == Some(len));
    assert forall|i: int, j: int| 0 <= i < j < p1.len() implies (#[trigger] p1[i]).node != (#[trigger] p1[j]).node by {
        if j < len {
            assert(ps[i].node != ps[j].node);
        }
    }
    lemma_choose_slot(p1, second);
    let v2 = PublicationView { node: second, sequence: n1, routes: seq![route], channel: b };
    let p2 = p1.push(v2);
    assert(replaced(p1, n1, second, seq![route], b).0 == p2);
    assert forall|k: int| 0 <= k < p1.len() implies (#[trigger] p1[k]).sequence < v2.sequence by {}
    lemma_new_publication_never_outranks(p1, v2, route);
    assert(winner(p2, route) == Some(len));
    assert forall|i: int, j: int| 0 <= i < j < p2.len() implies (#[trigger] p2[i]).node != (#[trigger] p2[j]).node by {
        if j < p1.len() {
            assert(p1[i].node != p1[j].node);
        }
    }
    lemma_choose_slot(p2, first);
    assert(p2[len].node == first);
    assert(choose_slot(p2, first) == Some(len));
    let (p3, n3) = replaced(p2, n1 as u64, first, seq![route], a2);
    if same_route_set(p2[len].routes, seq![route]) && p2[len].channel.same_channel_spec(&a2) {
        assert(p3 == p2);
    } else {
        let v3 = PublicationView { node: first, sequence: p2[len].sequence, routes: seq![route], channel: a2 };
        assert(p3 == p2.update(len, v3));
        lemma_republish_keeps_priority(p2, len, v3, route);
    }
}

} // verus!
