//! The host's table of temporary proxies: one per client port, each with
//! an id so that a late timer or failed bind only removes the proxy it was
//! meant for.
use vstd::prelude::*;
use crate::messages::{PortAction, PortsRequest};

verus! {

/// The id that follows `n` (`fetch_add(1)` on a `u64` counter).
pub open spec fn next_id_after(n: u64) -> u64 {
    if n == u64::MAX {
        0
    } else {
        (n + 1) as u64
    }
}

/// The proxies after starting one on `port`: nothing changes when one is
/// already active there; otherwise it gets id `next`.
pub open spec fn started(active: Map<u16, u64>, next: u64, port: u16) -> (Map<u16, u64>, u64) {
    if active.contains_key(port) {
        (active, next)
    } else {
        (active.insert(port, next), next_id_after(next))
    }
}

/// The proxies after a timer or a failed bind of proxy `id` on `port`: it
/// is removed only if it is still the one active there.
pub open spec fn expired(active: Map<u16, u64>, port: u16, id: u64) -> Map<u16, u64> {
    if active.contains_key(port) && active[port] == id {
        active.remove(port)
    } else {
        active
    }
}

/// Starting proxies for `ports` in order: the final table, the next id and
/// the `(port, id)` pairs of the proxies actually started.
pub open spec fn start_all(active: Map<u16, u64>, next: u64, ports: Seq<u16>) -> (
    Map<u16, u64>,
    u64,
    Seq<(u16, u64)>,
)
    decreases ports.len(),
{
    if ports.len() == 0 {
        (active, next, Seq::empty())
    } else {
        let (m, n, s) = start_all(active, next, ports.drop_last());
        let p = ports.last();
        if m.contains_key(p) {
            (m, n, s)
        } else {
            (m.insert(p, n), next_id_after(n), s.push((p, n)))
        }
    }
}

/// Stopping the proxies of `ports` in order: the final table and the
/// `(port, id)` pairs of the proxies actually stopped.
pub open spec fn stop_all(active: Map<u16, u64>, ports: Seq<u16>) -> (Map<u16, u64>, Seq<(u16, u64)>)
    decreases ports.len(),
{
    if ports.len() == 0 {
        (active, Seq::empty())
    } else {
        let (m, s) = stop_all(active, ports.drop_last());
        let p = ports.last();
        if m.contains_key(p) {
            (m.remove(p), s.push((p, m[p])))
        } else {
            (m, s)
        }
    }
}

/// How long a proxy lives unless it is deleted earlier, in seconds (five
/// minutes); then `expire(port, id)` ends it if it is still the active one.
pub open spec fn proxy_lifetime() -> int {
    300
}

pub fn proxy_lifetime_secs() -> (r: u64)
    ensures
        r == proxy_lifetime(),
{
    300
}

/// What a ports request changed: proxies to launch, each to be expired
/// after `lifetime_secs`, and proxies to shut down.
#[derive(Debug, Clone, PartialEq, Eq)]
pub struct PortsEffect {
    pub started: Vec<(u16, u64)>,
    pub stopped: Vec<(u16, u64)>,
    pub lifetime_secs: u64,
}

/// The active proxies, by client port.
pub struct ProxyRegistry {
    entries: Vec<(u16, u64)>,
    next_id: u64,
}

/// The table of a list of `(port, id)` entries.
pub open spec fn table_of(e: Seq<(u16, u64)>) -> Map<u16, u64>
    decreases e.len(),
{
    if e.len() == 0 {
        Map::empty()
    } else {
        table_of(e.drop_last()).insert(e.last().0, e.last().1)
    }
}

pub open spec fn ports_unique(e: Seq<(u16, u64)>) -> bool {
    forall|a: int, b: int| 0 <= a < e.len() && 0 <= b < e.len() && a != b ==> e[a].0 != e[b].0
}

proof fn lemma_table_lookup(e: Seq<(u16, u64)>)
    requires
        ports_unique(e),
    ensures
        forall|p: u16| #[trigger] table_of(e).contains_key(p) <==> exists|k: int| 0 <= k < e.len() && e[k].0 == p,
        forall|k: int| 0 <= k < e.len() ==> table_of(e).contains_key(#[trigger] e[k].0) && table_of(e)[e[k].0] == e[k].1,
    decreases e.len(),
{
    if e.len() > 0 {
        let d = e.drop_last();
        assert(ports_unique(d));
        lemma_table_lookup(d);
        assert forall|p: u16| #[trigger] table_of(e).contains_key(p) <==> exists|k: int| 0 <= k < e.len() && e[k].0 == p by {
            if table_of(e).contains_key(p) {
                if p == e.last().0 {
                    assert(e[e.len() - 1].0 == p);
                } else {
                    assert(table_of(d).contains_key(p));
                    let k = choose|k: int| 0 <= k < d.len() && d[k].0 == p;
                    assert(d[k] == e[k]);
                    assert(e[k].0 == p);
                }
            }
            if exists|k: int| 0 <= k < e.len() && e[k].0 == p {
                let k = choose|k: int| 0 <= k < e.len() && e[k].0 == p;
                if k < d.len() {
                    assert(d[k] == e[k]);
                    assert(d[k].0 == p);
                    assert(table_of(d).contains_key(d[k].0));
                }
            }
        }
        assert forall|k: int| 0 <= k < e.len() implies table_of(e).contains_key(#[trigger] e[k].0) && table_of(e)[e[k].0] == e[k].1 by {
            if k < d.len() {
                assert(d[k] == e[k]);
                assert(e[k].0 != e.last().0);
            }
        }
    }
}

impl ProxyRegistry {
    /// The id of the active proxy of each port.
    pub closed spec fn active(&self) -> Map<u16, u64> {
        table_of(self.entries@)
    }

    /// The id the next proxy gets.
    pub closed spec fn next_id(&self) -> u64 {
        self.next_id
    }

    pub closed spec fn wf(&self) -> bool {
        ports_unique(self.entries@)
    }

    /// No proxies; ids start at 0.
    pub fn new() -> (r: ProxyRegistry)
        ensures
            r.wf(),
            r.active() == Map::<u16, u64>::empty(),
            r.next_id() == 0,
    {
        ProxyRegistry { entries: Vec::new(), next_id: 0 }
    }

    fn find(&self, port: u16) -> (r: Option<usize>)
        requires
            self.wf(),
        ensures
            match r {
                Some(k) => k < self.entries@.len() && self.entries@[k as int].0 == port,
                None => !self.active().contains_key(port),
            },
    {
        proof {
            lemma_table_lookup(self.entries@);
        }
        let mut i: usize = 0;
        while i < self.entries.len()
            invariant
                i <= self.entries@.len(),
                forall|k: int| 0 <= k < i ==> self.entries@[k].0 != port,
            decreases self.entries.len() - i,
        {
            if self.entries[i].0 == port {
                return Some(i);
            }
            i = i + 1;
        }
        None
    }

    /// Whether a proxy is active on `port`, and its id.
    pub fn lookup(&self, port: u16) -> (r: Option<u64>)
        requires
            self.wf(),
        ensures
            r == if self.active().contains_key(port) {
                Some(self.active()[port])
            } else {
                None::<u64>
            },
    {
        proof {
            lemma_table_lookup(self.entries@);
        }
        match self.find(port) {
            Some(k) => Some(self.entries[k].1),
            None => None,
        }
    }

    /// Starts a proxy on `port` unless one is active there; returns the id
    /// of the new proxy, or `None` when the active one is reused. The new
    /// proxy lives until it is stopped, or until `expire(port, id)` once
    /// `proxy_lifetime()` seconds have passed.
    pub fn start(&mut self, port: u16) -> (r: Option<u64>)
        requires
            old(self).wf(),
        ensures
            final(self).wf(),
            (final(self).active(), final(self).next_id()) == started(
                old(self).active(),
                old(self).next_id(),
                port,
            ),
            r == if old(self).active().contains_key(port) {
                None::<u64>
            } else {
                Some(old(self).next_id())
            },
    {
        proof {
            lemma_table_lookup(self.entries@);
        }
        match self.find(port) {
            Some(_) => None,
            None => {
                let id = self.next_id;
                let ghost before = self.entries@;
                self.entries.push((port, id));
                assert(self.entries@.drop_last() =~= before);
                assert(ports_unique(self.entries@)) by {
                    assert forall|a: int, b: int|
                        0 <= a < self.entries@.len() && 0 <= b < self.entries@.len() && a != b
                        implies self.entries@[a].0 != self.entries@[b].0 by {
                        if a < before.len() && b < before.len() {
                            assert(before[a] == self.entries@[a]);
                            assert(before[b] == self.entries@[b]);
                        } else if a < before.len() {
                            assert(before[a] == self.entries@[a]);
                        } else if b < before.len() {
                            assert(before[b] == self.entries@[b]);
                        }
                    }
                }
                self.next_id = if id == u64::MAX {
                    0
                } else {
                    id + 1
                };
                Some(id)
            },
        }
    }

    /// Removes the proxy on `port`, if any; returns its id so that it can
    /// be shut down.
    pub fn stop(&mut self, port: u16) -> (r: Option<u64>)
        requires
            old(self).wf(),
        ensures
            final(self).wf(),
            final(self).active() == old(self).active().remove(port),
            final(self).next_id() == old(self).next_id(),
            r == if old(self).active().contains_key(port) {
                Some(old(self).active()[port])
            } else {
                None::<u64>
            },
    {
        proof {
            lemma_table_lookup(self.entries@);
        }
        match self.find(port) {
            None => {
                assert(old(self).active().remove(port) =~= old(self).active());
                None
            },
            Some(k) => {
                let ghost before = self.entries@;
                let (_, id) = self.entries.remove(k);
                proof {
                    let after = self.entries@;
                    assert(after =~= before.remove(k as int));
                    assert(ports_unique(after)) by {
                        assert forall|a: int, b: int|
                            0 <= a < after.len() && 0 <= b < after.len() && a != b
                            implies after[a].0 != after[b].0 by {
                            let a2 = if a < k { a } else { a + 1 };
                            let b2 = if b < k { b } else { b + 1 };
                            assert(after[a] == before[a2]);
                            assert(after[b] == before[b2]);
                        }
                    }
                    lemma_table_lookup(after);
                    assert forall|p: u16| #[trigger] table_of(after).contains_key(p) <==> table_of(before).remove(port).contains_key(p) by {
                        if table_of(after).contains_key(p) {
                            let j = choose|j: int| 0 <= j < after.len() && after[j].0 == p;
                            let j2 = if j < k { j } else { j + 1 };
                            assert(after[j] == before[j2]);
                            assert(j2 != k);
                        }
                        if table_of(before).remove(port).contains_key(p) {
                            let j = choose|j: int| 0 <= j < before.len() && before[j].0 == p;
                            assert(j != k);
                            let j2 = if j < k { j } else { j - 1 };
                            assert(after[j2] == before[j]);
                        }
                    }
                    assert forall|p: u16| #[trigger] table_of(after).contains_key(p) implies table_of(after)[p] == table_of(before)[p] by {
                        let j = choose|j: int| 0 <= j < after.len() && after[j].0 == p;
                        let j2 = if j < k { j } else { j + 1 };
                        assert(after[j] == before[j2]);
                    }
                    assert(table_of(after) =~= table_of(before).remove(port));
                }
                Some(id)
            },
        }
    }

    /// Removes the proxy on `port` only if it is proxy `id` (its timer ran
    /// out, or it failed to bind); returns whether it was removed.
    pub fn expire(&mut self, port: u16, id: u64) -> (r: bool)
        requires
            old(self).wf(),
        ensures
            final(self).wf(),
            final(self).active() == expired(old(self).active(), port, id),
            final(self).next_id() == old(self).next_id(),
            r == (old(self).active().contains_key(port) && old(self).active()[port] == id),
    {
        match self.lookup(port) {
            Some(current) => if current == id {
                self.stop(port);
                true
            } else {
                false
            },
            None => false,
        }
    }

    /// Applies a ports request: `Add` starts a proxy for each listed port
    /// not yet proxied, `Delete` stops the proxies of the listed ports.
    pub fn apply(&mut self, req: &PortsRequest) -> (r: PortsEffect)
        requires
            old(self).wf(),
        ensures
            final(self).wf(),
            r.lifetime_secs == proxy_lifetime(),
            req.action == PortAction::Add ==> {
                let (m, n, s) = start_all(old(self).active(), old(self).next_id(), req.ports@);
                &&& final(self).active() == m
                &&& final(self).next_id() == n
                &&& r.started@ == s
                &&& r.stopped@.len() == 0
            },
            req.action == PortAction::Delete ==> {
                let (m, s) = stop_all(old(self).active(), req.ports@);
                &&& final(self).active() == m
                &&& final(self).next_id() == old(self).next_id()
                &&& r.stopped@ == s
                &&& r.started@.len() == 0
            },
    {
        let mut started_list: Vec<(u16, u64)> = Vec::new();
        let mut stopped_list: Vec<(u16, u64)> = Vec::new();
        let ghost a0 = self.active();
        let ghost n0 = self.next_id();
        let mut i: usize = 0;
        assert(req.ports@.take(0) =~= Seq::<u16>::empty());
        if req.action == PortAction::Add {
            while i < req.ports.len()
                invariant
                    i <= req.ports@.len(),
                    self.wf(),
                    stopped_list@.len() == 0,
                    ({
                        let (m, n, s) = start_all(a0, n0, req.ports@.take(i as int));
                        self.active() == m && self.next_id() == n && started_list@ == s
                    }),
                decreases req.ports.len() - i,
            {
                let p = req.ports[i];
                assert(req.ports@.take(i + 1).drop_last() =~= req.ports@.take(i as int));
                let ghost n_before = self.next_id();
                match self.start(p) {
                    Some(id) => started_list.push((p, id)),
                    None => {},
                }
                i = i + 1;
            }
        } else {
            while i < req.ports.len()
                invariant
                    i <= req.ports@.len(),
                    self.wf(),
                    started_list@.len() == 0,
                    self.next_id() == n0,
                    ({
                        let (m, s) = stop_all(a0, req.ports@.take(i as int));
                        self.active() == m && stopped_list@ == s
                    }),
                decreases req.ports.len() - i,
            {
                let p = req.ports[i];
                assert(req.ports@.take(i + 1).drop_last() =~= req.ports@.take(i as int));
                match self.stop(p) {
                    Some(id) => stopped_list.push((p, id)),
                    None => {},
                }
                i = i + 1;
            }
        }
        assert(req.ports@.take(req.ports@.len() as int) =~= req.ports@);
        PortsEffect { started: started_list, stopped: stopped_list, lifetime_secs: proxy_lifetime_secs() }
    }
}

} // verus!

verus! {

/// Every active proxy has an id below `next`.
pub open spec fn ids_below(active: Map<u16, u64>, next: u64) -> bool {
    forall|p: u16| #[trigger] active.contains_key(p) ==> active[p] < next
}

/// Starting a proxy where one is active changes nothing: the active one is
/// reused.
pub proof fn lemma_start_reuses_active(active: Map<u16, u64>, next: u64, port: u16)
    requires
        active.contains_key(port),
    ensures
        started(active, next, port) == (active, next),
{
}

/// While the id counter has not wrapped around, every active id stays
/// below it, and removals keep it so.
pub proof fn lemma_ids_stay_below(active: Map<u16, u64>, next: u64, port: u16, id: u64)
    requires
        ids_below(active, next),
        next < u64::MAX,
    ensures
        ids_below(started(active, next, port).0, started(active, next, port).1),
        ids_below(expired(active, port, id), next),
        ids_below(active.remove(port), next),
{
    let (m, n) = started(active, next, port);
    assert forall|p: u16| #[trigger] m.contains_key(p) implies m[p] < n by {
        if !active.contains_key(port) && p == port {
        } else {
            assert(active.contains_key(p));
        }
    }
    assert forall|p: u16| #[trigger] expired(active, port, id).contains_key(p) implies expired(
        active,
        port,
        id,
    )[p] < next by {
        assert(active.contains_key(p));
    }
    assert forall|p: u16| #[trigger] active.remove(port).contains_key(p) implies active.remove(
        port,
    )[p] < next by {
        assert(active.contains_key(p));
    }
}

/// A timer or failed bind left over from an earlier proxy (any id issued
/// before) never removes a proxy started since: the new proxy's id is
/// fresh.
pub proof fn lemma_stale_expiry_keeps_new_proxy(
    active: Map<u16, u64>,
    next: u64,
    port: u16,
    stale: u64,
)
    requires
        ids_below(active, next),
        !active.contains_key(port),
        stale < next,
    ensures
        expired(started(active, next, port).0, port, stale) == started(active, next, port).0,
        started(active, next, port).0.contains_key(port),
{
}

/// A proxy's own timer removes exactly that proxy.
pub proof fn lemma_own_expiry_removes(active: Map<u16, u64>, next: u64, port: u16)
    requires
        !active.contains_key(port),
    ensures
        expired(started(active, next, port).0, port, next) == active,
{
    assert(active.insert(port, next).remove(port) =~= active);
}

proof fn lemma_contains_last(s: Seq<u16>, x: u16)
    requires
        s.len() > 0,
    ensures
        s.contains(x) <==> (s.drop_last().contains(x) || x == s.last()),
{
    if s.contains(x) {
        let k = choose|k: int| 0 <= k < s.len() && s[k] == x;
        if k < s.len() - 1 {
            assert(s.drop_last()[k] == x);
        }
    }
    if s.drop_last().contains(x) {
        let k = choose|k: int| 0 <= k < s.drop_last().len() && s.drop_last()[k] == x;
        assert(s[k] == x);
    }
    if x == s.last() {
        assert(s[s.len() - 1] == x);
    }
}

/// A delete request stops the proxy of every listed port and only those:
/// afterwards no listed port has a proxy, every other port keeps its own,
/// and each listed port that had a proxy is reported stopped with that
/// proxy's id (nothing else is reported).
pub proof fn lemma_delete_stops_every_listed_port(active: Map<u16, u64>, ports: Seq<u16>)
    ensures
        forall|p: u16|
            #[trigger] stop_all(active, ports).0.contains_key(p) <==> (active.contains_key(p)
                && !ports.contains(p)),
        forall|p: u16|
            #[trigger] stop_all(active, ports).0.contains_key(p) ==> stop_all(active, ports).0[p]
                == active[p],
        forall|p: u16|
            ports.contains(p) && active.contains_key(p) ==> #[trigger] stop_all(active, ports).1.contains(
                (p, active[p]),
            ),
        forall|k: int|
            0 <= k < stop_all(active, ports).1.len() ==> {
                let (p, id) = #[trigger] stop_all(active, ports).1[k];
                ports.contains(p) && active.contains_key(p) && active[p] == id
            },
    decreases ports.len(),
{
    if ports.len() > 0 {
        let d = ports.drop_last();
        let q = ports.last();
        lemma_delete_stops_every_listed_port(active, d);
        let (m, s) = stop_all(active, d);
        assert forall|p: u16| ports.contains(p) <==> (d.contains(p) || p == q) by {
            lemma_contains_last(ports, p);
        }
        let (m2, s2) = stop_all(active, ports);
        if m.contains_key(q) {
            assert(m2 == m.remove(q) && s2 == s.push((q, m[q])));
            assert forall|p: u16| ports.contains(p) && active.contains_key(p) implies s2.contains((p, active[p])) by {
                if p == q {
                    assert(s2[s.len() as int] == (q, active[q]));
                } else {
                    lemma_contains_last(ports, p);
                    assert(d.contains(p));
                    assert(stop_all(active, d).1.contains((p, active[p])));
                    let k = choose|k: int| 0 <= k < s.len() && s[k] == (p, active[p]);
                    assert(s2[k] == (p, active[p]));
                }
            }
        } else {
            assert(m2 == m && s2 == s);
            assert forall|p: u16| ports.contains(p) && active.contains_key(p) implies s2.contains((p, active[p])) by {
                if p == q {
                    assert(d.contains(q));
                }
            }
        }
    }
}

/// An add request gives every listed port a proxy and leaves the proxies
/// already running untouched: afterwards exactly the ports that had a
/// proxy or are listed have one, a port that had one keeps its id, and
/// each proxy reported started is a listed port that had none, with the id
/// it now has.
pub proof fn lemma_add_covers_every_listed_port(active: Map<u16, u64>, next: u64, ports: Seq<u16>)
    ensures
        forall|p: u16|
            #[trigger] start_all(active, next, ports).0.contains_key(p) <==> (active.contains_key(p)
                || ports.contains(p)),
        forall|p: u16|
            active.contains_key(p) ==> #[trigger] start_all(active, next, ports).0[p] == active[p],
        forall|k: int|
            0 <= k < start_all(active, next, ports).2.len() ==> {
                let (p, id) = #[trigger] start_all(active, next, ports).2[k];
                ports.contains(p) && !active.contains_key(p) && start_all(active, next, ports).0[p] == id
            },
    decreases ports.len(),
{
    if ports.len() > 0 {
        let d = ports.drop_last();
        let q = ports.last();
        lemma_add_covers_every_listed_port(active, next, d);
        assert forall|p: u16| ports.contains(p) <==> (d.contains(p) || p == q) by {
            lemma_contains_last(ports, p);
        }
        let (m, n, s) = start_all(active, next, d);
        let (m2, n2, s2) = start_all(active, next, ports);
        if m.contains_key(q) {
            assert(m2 == m && s2 == s);
        } else {
            assert(m2 == m.insert(q, n) && s2 == s.push((q, n)));
            assert forall|k: int| 0 <= k < s2.len() implies {
                let (p, id) = #[trigger] s2[k];
                ports.contains(p) && !active.contains_key(p) && m2[p] == id
            } by {
                if k < s.len() {
                    assert(s2[k] == s[k]);
                    lemma_contains_last(ports, s[k].0);
                    assert(m.contains_key(s[k].0));
                }
            }
        }
    }
}

} // verus!
