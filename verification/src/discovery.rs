//! The bookkeeping of Wi-Fi Direct peer discovery: which peers were seen in
//! the last poll of NetworkManager, and which arrivals and departures that
//! means for the front end.
use vstd::prelude::*;

use crate::endpoint::{departed_view, EndpointInfo, EndpointView};
use crate::text::{chars_of, find, find_chars};

verus! {

/// The views of a sequence of endpoints.
pub open spec fn endpoint_views(s: Seq<EndpointInfo>) -> Seq<EndpointView> {
    Seq::new(s.len(), |i: int| s[i]@)
}

/// The peers of `s` by their ids; where an id occurs more than once, the
/// last endpoint with it counts.
pub open spec fn peer_table(s: Seq<EndpointView>) -> Map<Seq<char>, EndpointView>
    decreases s.len(),
{
    if s.len() == 0 {
        Map::empty()
    } else {
        peer_table(s.drop_last()).insert(s.last().id, s.last())
    }
}

/// The peers of `peers` that are news against the ids `known`: each peer
/// whose id is neither known nor held by an earlier peer of the list, in
/// list order.
pub open spec fn arrivals(peers: Seq<EndpointView>, known: Set<Seq<char>>) -> Seq<EndpointView>
    decreases peers.len(),
{
    if peers.len() == 0 {
        Seq::empty()
    } else {
        let prev = arrivals(peers.drop_last(), known);
        let p = peers.last();
        if !known.contains(p.id) && !peer_table(peers.drop_last()).dom().contains(p.id) {
            prev.push(p)
        } else {
            prev
        }
    }
}

/// `events` tells, once for each id of `gone` and of nothing else, that
/// the peer with that id has left.
pub open spec fn departures_of(events: Seq<EndpointView>, gone: Set<Seq<char>>) -> bool {
    &&& forall|k: int| 0 <= k < events.len() ==> #[trigger] events[k] == departed_view(events[k].id)
    &&& forall|k: int, l: int| 0 <= k < l < events.len() ==> #[trigger] events[k].id != #[trigger] events[l].id
    &&& forall|id: Seq<char>|
        gone.contains(id) <==> exists|k: int| 0 <= k < events.len() && #[trigger] events[k].id == id
}

/// An id is in the peer table exactly when some peer of the list has it.
pub proof fn lemma_peer_table_domain(s: Seq<EndpointView>, id: Seq<char>)
    ensures
        peer_table(s).dom().contains(id) <==> exists|j: int| 0 <= j < s.len() && #[trigger] s[j].id == id,
    decreases s.len(),
{
    if s.len() > 0 {
        lemma_peer_table_domain(s.drop_last(), id);
        if exists|j: int| 0 <= j < s.len() && #[trigger] s[j].id == id {
            let j = choose|j: int| 0 <= j < s.len() && #[trigger] s[j].id == id;
            if j < s.len() - 1 {
                assert(s.drop_last()[j].id == id);
            }
        }
        if exists|j: int| 0 <= j < s.len() - 1 && #[trigger] s.drop_last()[j].id == id {
            let j = choose|j: int| 0 <= j < s.len() - 1 && #[trigger] s.drop_last()[j].id == id;
            assert(s[j].id == id);
        }
    }
}

/// The peers seen in the last poll.
pub struct PeerTracker {
    last_poll: Vec<EndpointInfo>,
}

impl View for PeerTracker {
    type V = Map<Seq<char>, EndpointView>;

    closed spec fn view(&self) -> Map<Seq<char>, EndpointView> {
        peer_table(endpoint_views(self.last_poll@))
    }
}

fn holds_id(s: &Vec<EndpointInfo>, upto: usize, id: &String) -> (r: bool)
    requires
        upto <= s.len(),
    ensures
        r == peer_table(endpoint_views(s@).take(upto as int)).dom().contains(id@),
{
    let ghost v = endpoint_views(s@).take(upto as int);
    proof {
        lemma_peer_table_domain(v, id@);
    }
    let mut j: usize = 0;
    while j < upto
        invariant
            j <= upto <= s.len(),
            v == endpoint_views(s@).take(upto as int),
            forall|k: int| 0 <= k < j ==> #[trigger] v[k].id != id@,
        decreases upto - j,
    {
        assert(v[j as int] == s@[j as int]@);
        if s[j].id == *id {
            assert(v[j as int].id == id@);
            proof {
                lemma_peer_table_domain(v, id@);
            }
            return true;
        }
        j = j + 1;
    }
    false
}

impl PeerTracker {
    /// No peer seen yet.
    pub fn new() -> (r: Self)
        ensures
            r@ == Map::<Seq<char>, EndpointView>::empty(),
    {
        PeerTracker { last_poll: Vec::new() }
    }

    /// Takes in the peers of a new poll. The result announces the peers
    /// that have arrived (see [`arrivals`]) and then tells of each peer
    /// seen before that this poll no longer lists; afterwards the tracker
    /// holds exactly this poll.
    pub fn observe(&mut self, peers: Vec<EndpointInfo>) -> (events: Vec<EndpointInfo>)
        ensures
            final(self)@ == peer_table(endpoint_views(peers@)),
            ({
                let fresh = arrivals(endpoint_views(peers@), old(self)@.dom());
                &&& fresh.len() <= events@.len()
                &&& endpoint_views(events@).take(fresh.len() as int) == fresh
                &&& departures_of(
                    endpoint_views(events@).skip(fresh.len() as int),
                    old(self)@.dom().difference(final(self)@.dom()),
                )
            }),
    {
        let ghost pv = endpoint_views(peers@);
        let ghost old_dom = self@.dom();
        let old_len = self.last_poll.len();
        let mut events: Vec<EndpointInfo> = Vec::new();
        let mut i: usize = 0;
        while i < peers.len()
            invariant
                i <= peers.len(),
                pv == endpoint_views(peers@),
                old_dom == self@.dom(),
                old_len == self.last_poll.len(),
                endpoint_views(events@) == arrivals(pv.take(i as int), old_dom),
            decreases peers.len() - i,
        {
            let ghost next = pv.take(i + 1);
            assert(next.drop_last() =~= pv.take(i as int));
            assert(next.last() == peers@[i as int]@);
            assert(endpoint_views(self.last_poll@).take(old_len as int) =~= endpoint_views(
                self.last_poll@,
            ));
            let known_before = holds_id(&self.last_poll, old_len, &peers[i].id);
            let seen_now = holds_id(&peers, i, &peers[i].id);
            if !known_before && !seen_now {
                let ghost before = endpoint_views(events@);
                let copy = peers[i].duplicate();
                events.push(copy);
                assert(endpoint_views(events@) =~= before.push(copy@));
            }
            i = i + 1;
        }
        assert(pv.take(peers.len() as int) =~= pv);
        let ghost fresh_count = events@.len();
        let ghost fresh = endpoint_views(events@);
        let ghost new_dom = peer_table(pv).dom();
        let mut k: usize = 0;
        while k < old_len
            invariant
                k <= old_len == self.last_poll.len(),
                pv == endpoint_views(peers@),
                new_dom == peer_table(pv).dom(),
                old_dom == self@.dom(),
                fresh_count <= events@.len(),
                endpoint_views(events@).take(fresh_count as int) == fresh,
                departures_of(
                    endpoint_views(events@).skip(fresh_count as int),
                    peer_table(endpoint_views(self.last_poll@).take(k as int)).dom().difference(
                        new_dom,
                    ),
                ),
            decreases old_len - k,
        {
            let ghost ov = endpoint_views(self.last_poll@);
            let ghost prefix = ov.take(k as int);
            let ghost next = ov.take(k + 1);
            assert(next.drop_last() =~= prefix);
            assert(next.last() == self.last_poll@[k as int]@);
            assert(endpoint_views(peers@).take(peers.len() as int) =~= pv);
            let id = &self.last_poll[k].id;
            let in_new = holds_id(&peers, peers.len(), id);
            let earlier = holds_id(&self.last_poll, k, id);
            let ghost before = endpoint_views(events@);
            let ghost dep = before.skip(fresh_count as int);
            if !in_new && !earlier {
                let e = EndpointInfo::departed(id.clone());
                events.push(e);
                let ghost after = endpoint_views(events@);
                assert(after =~= before.push(e@));
                assert(after.take(fresh_count as int) =~= before.take(fresh_count as int));
                assert(after.skip(fresh_count as int) =~= dep.push(e@));
                let ghost gone_before = peer_table(prefix).dom().difference(new_dom);
                let ghost d2 = dep.push(e@);
                assert(!peer_table(prefix).dom().contains(e@.id));
                assert(!new_dom.contains(e@.id));
                assert forall|x: Seq<char>|
                    peer_table(next).dom().difference(new_dom).contains(x) <==> exists|j: int|
                        0 <= j < d2.len() && #[trigger] d2[j].id == x by {
                    lemma_gone_step(next, new_dom, x);
                    assert(gone_before.contains(x) == next_gone(prefix, new_dom, x));
                    if x == e@.id {
                        assert(d2[dep.len() as int].id == x);
                    }
                    if exists|j: int| 0 <= j < dep.len() && #[trigger] dep[j].id == x {
                        let j = choose|j: int| 0 <= j < dep.len() && #[trigger] dep[j].id == x;
                        assert(d2[j].id == x);
                    }
                    if exists|j: int| 0 <= j < d2.len() && #[trigger] d2[j].id == x {
                        let j = choose|j: int| 0 <= j < d2.len() && #[trigger] d2[j].id == x;
                        if j < dep.len() {
                            assert(dep[j].id == x);
                        }
                    }
                }
                assert forall|a: int, b: int| 0 <= a < b < d2.len() implies #[trigger] d2[a].id
                    != #[trigger] d2[b].id by {
                    if b == dep.len() {
                        assert(dep[a].id == d2[a].id);
                        assert(gone_before.contains(dep[a].id));
                    }
                }
                assert forall|a: int| 0 <= a < d2.len() implies #[trigger] d2[a] == departed_view(
                    d2[a].id,
                ) by {
                    if a < dep.len() {
                        assert(d2[a] == dep[a]);
                    }
                }
            } else {
                let ghost gone_before = peer_table(prefix).dom().difference(new_dom);
                assert forall|x: Seq<char>|
                    peer_table(next).dom().difference(new_dom).contains(x) <==> exists|j: int|
                        0 <= j < dep.len() && #[trigger] dep[j].id == x by {
                    lemma_gone_step(next, new_dom, x);
                    assert(gone_before.contains(x) == next_gone(prefix, new_dom, x));
                }
                assert(endpoint_views(events@) == before);
            }
            k = k + 1;
        }
        let ghost ov = endpoint_views(self.last_poll@);
        assert(ov.take(old_len as int) =~= ov);
        self.last_poll = peers;
        events
    }

    /// The news, once for each peer still known, that it has left: what is
    /// told when discovery stops.
    pub fn finish(self) -> (events: Vec<EndpointInfo>)
        ensures
            departures_of(endpoint_views(events@), self@.dom()),
    {
        let mut t = self;
        let ghost dom = t@.dom();
        let none: Vec<EndpointInfo> = Vec::new();
        let ghost nv = endpoint_views(none@);
        assert(nv.len() == 0);
        let r = t.observe(none);
        assert(peer_table(nv) =~= Map::<Seq<char>, EndpointView>::empty());
        assert(arrivals(nv, dom).len() == 0);
        assert(endpoint_views(r@).skip(0) =~= endpoint_views(r@));
        assert(dom.difference(Set::<Seq<char>>::empty()) =~= dom);
        r
    }
}

/// `x` is the id of a peer among `seen` that `now` no longer holds.
pub open spec fn next_gone(seen: Seq<EndpointView>, now: Set<Seq<char>>, x: Seq<char>) -> bool {
    peer_table(seen).dom().contains(x) && !now.contains(x)
}

proof fn lemma_gone_step(seen: Seq<EndpointView>, now: Set<Seq<char>>, x: Seq<char>)
    requires
        seen.len() > 0,
    ensures
        next_gone(seen, now, x) == (next_gone(seen.drop_last(), now, x) || (x == seen.last().id
            && !now.contains(x))),
{
}

/// Whether a line of the `gdbus monitor` output is a signal that the set
/// of peers changed (`PeerAdded` or `PeerRemoved`).
pub fn signal_requests_refresh(line: &str) -> (r: bool)
    ensures
        r == (find(line@, "PeerAdded"@) is Some || find(line@, "PeerRemoved"@) is Some),
{
    let l = chars_of(line);
    find_chars(&l, &chars_of("PeerAdded"), 0).is_some() || find_chars(
        &l,
        &chars_of("PeerRemoved"),
        0,
    ).is_some()
}

/// Whether the peers are to be polled now: on a signal, or two seconds
/// after the last poll.
pub fn poll_due(signal_requested: bool, millis_since_last_poll: u64) -> (r: bool)
    ensures
        r == (signal_requested || millis_since_last_poll >= 2000),
{
    signal_requested || millis_since_last_poll >= 2000
}

/// Arrivals are new peers only, and each of them is announced once: the
/// ids announced are distinct, and are exactly the ids of the poll that
/// were not known before.
pub proof fn lemma_arrivals_are_new_peers_once(peers: Seq<EndpointView>, known: Set<Seq<char>>)
    ensures
        forall|k: int, l: int|
            0 <= k < l < arrivals(peers, known).len() ==> #[trigger] arrivals(peers, known)[k].id
                != #[trigger] arrivals(peers, known)[l].id,
        forall|id: Seq<char>|
            #![trigger peer_table(peers).dom().contains(id)]
            (exists|k: int|
                0 <= k < arrivals(peers, known).len() && #[trigger] arrivals(peers, known)[k].id
                    == id) <==> (peer_table(peers).dom().contains(id) && !known.contains(id)),
    decreases peers.len(),
{
    if peers.len() > 0 {
        let p = peers.drop_last();
        let x = peers.last();
        lemma_arrivals_are_new_peers_once(p, known);
        let prev = arrivals(p, known);
        let cur = arrivals(peers, known);
        assert forall|id: Seq<char>|
            #![trigger peer_table(peers).dom().contains(id)]
            (exists|k: int|
                0 <= k < arrivals(peers, known).len() && #[trigger] arrivals(peers, known)[k].id
                    == id) <==> (peer_table(peers).dom().contains(id) && !known.contains(id)) by {
            assert(peer_table(peers).dom() == peer_table(p).dom().insert(x.id));
            if peer_table(p).dom().contains(id) {
            }
            if exists|k: int| 0 <= k < prev.len() && #[trigger] prev[k].id == id {
                let k = choose|k: int| 0 <= k < prev.len() && #[trigger] prev[k].id == id;
                assert(cur[k] == prev[k]);
            }
            if exists|k: int| 0 <= k < cur.len() && #[trigger] cur[k].id == id {
                let k = choose|k: int| 0 <= k < cur.len() && #[trigger] cur[k].id == id;
                if k < prev.len() {
                    assert(prev[k] == cur[k]);
                }
            }
            if id == x.id && cur.len() > prev.len() {
                assert(cur[prev.len() as int].id == id);
            }
        }
        assert(cur == arrivals(peers, known));
        assert forall|k: int, l: int| 0 <= k < l < cur.len() implies #[trigger] cur[k].id
            != #[trigger] cur[l].id by {
            if l == prev.len() {
                assert(cur[k] == prev[k]);
                assert(peer_table(p).dom().contains(prev[k].id));
            } else {
                assert(cur[k] == prev[k]);
                assert(cur[l] == prev[l]);
            }
        }
    } else {
        assert(peer_table(peers).dom() =~= Set::<Seq<char>>::empty());
        assert(arrivals(peers, known).len() == 0);
    }
}

/// `id` is announced by a poll of `peers` against the ids `known`.
pub open spec fn announces(peers: Seq<EndpointView>, known: Set<Seq<char>>, id: Seq<char>) -> bool {
    exists|k: int| 0 <= k < arrivals(peers, known).len() && #[trigger] arrivals(peers, known)[k].id == id
}

/// Over two successive polls the news about one id alternates: an id is
/// announced only while it is not known and reported gone only while it
/// is; an id announced is neither reported gone by the same poll nor
/// announced again by the next, and an id reported gone is not reported
/// gone again by the next.
pub proof fn lemma_news_alternates(
    known: Set<Seq<char>>,
    first: Seq<EndpointView>,
    second: Seq<EndpointView>,
    id: Seq<char>,
)
    ensures
        ({
            let k1 = peer_table(first).dom();
            let k2 = peer_table(second).dom();
            &&& announces(first, known, id) ==> !known.contains(id) && k1.contains(id)
            &&& known.difference(k1).contains(id) ==> known.contains(id) && !k1.contains(id)
            &&& announces(first, known, id) ==> !known.difference(k1).contains(id) && !announces(
                second,
                k1,
                id,
            )
            &&& known.difference(k1).contains(id) ==> !k1.difference(k2).contains(id)
            &&& announces(second, k1, id) ==> !k1.contains(id)
            &&& k1.difference(k2).contains(id) ==> k1.contains(id)
        }),
{
    let k1 = peer_table(first).dom();
    lemma_arrivals_are_new_peers_once(first, known);
    assert(announces(first, known, id) <==> (peer_table(first).dom().contains(id) && !known.contains(
        id,
    )));
    lemma_arrivals_are_new_peers_once(second, k1);
    assert(peer_table(second).dom().contains(id) ==> (announces(second, k1, id) <==> !k1.contains(
        id,
    )));
    if announces(second, k1, id) {
        let k = choose|k: int| 0 <= k < arrivals(second, k1).len() && #[trigger] arrivals(second, k1)[k].id == id;
        assert(arrivals(second, k1)[k].id == id);
        assert(peer_table(second).dom().contains(id));
    }
}

/// Polling the same peers again is quiet: nothing arrives and nothing
/// leaves.
pub proof fn lemma_repeated_poll_is_quiet(peers: Seq<EndpointView>)
    ensures
        arrivals(peers, peer_table(peers).dom()).len() == 0,
        peer_table(peers).dom().difference(peer_table(peers).dom()).is_empty(),
{
    let d = peer_table(peers).dom();
    lemma_arrivals_are_new_peers_once(peers, d);
    let a = arrivals(peers, d);
    if a.len() > 0 {
        assert(a[0].id == a[0].id);
        assert(d.contains(a[0].id));
    }
    assert(d.difference(d) =~= Set::<Seq<char>>::empty());
}

} // verus!
