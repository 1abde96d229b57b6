//! The client's record of listening ports: which ports were open during the
//! last 15 seconds (announced to the host when a URL is opened), which
//! ports have been announced (and must be withdrawn when they close), and
//! which ports opened after a URL was opened.
use vstd::prelude::*;
use crate::port_sets::{add_ports, filter_ports, set_of};

verus! {

/// How long a sample of listening ports is remembered, in nanoseconds
/// (15 seconds).
pub open spec fn history_window_ns() -> int {
    15_000_000_000
}

/// The ports listening at one moment (`at_ns`, nanoseconds on a monotonic
/// clock).
#[derive(Debug, Clone)]
pub struct PortSample {
    pub at_ns: u64,
    pub ports: Vec<u16>,
}

/// A sample as a time and a set of ports.
pub open spec fn sample_view(s: PortSample) -> (u64, Set<u16>) {
    (s.at_ns, set_of(s.ports@))
}

/// Samples older than the window, at the front, are dropped.
pub open spec fn pruned(h: Seq<(u64, Set<u16>)>, now: u64) -> Seq<(u64, Set<u16>)>
    decreases h.len(),
{
    if h.len() > 0 && now - h[0].0 > history_window_ns() {
        pruned(h.drop_first(), now)
    } else {
        h
    }
}

/// Every port of every sample.
pub open spec fn seen_ports(h: Seq<(u64, Set<u16>)>) -> Set<u16>
    decreases h.len(),
{
    if h.len() == 0 {
        Set::empty()
    } else {
        seen_ports(h.drop_last()).union(h.last().1)
    }
}

/// Announced ports that are no longer listening: withdrawn from the host.
pub open spec fn closed_ports(sent: Set<u16>, current: Set<u16>) -> Set<u16> {
    sent.difference(current)
}

/// Announced ports that are still listening.
pub open spec fn still_open(sent: Set<u16>, current: Set<u16>) -> Set<u16> {
    sent.intersect(current)
}

/// The ports announced when a URL is opened: every port seen in the
/// remembered samples or listening now, except the client's own.
pub open spec fn ports_to_announce(h: Seq<(u64, Set<u16>)>, current: Set<u16>, own: u16) -> Set<u16> {
    seen_ports(h).union(current).remove(own)
}

/// Listening ports not announced yet, except the client's own.
pub open spec fn newly_opened(current: Set<u16>, sent: Set<u16>, own: u16) -> Set<u16> {
    current.difference(sent).remove(own)
}

/// The client daemon's port bookkeeping.
pub struct PortTracker {
    history: Vec<PortSample>,
    sent: Vec<u16>,
    client_port: u16,
}

impl PortTracker {
    /// The remembered samples, oldest first.
    pub closed spec fn history(&self) -> Seq<(u64, Set<u16>)> {
        self.history@.map_values(|s: PortSample| sample_view(s))
    }

    /// The ports announced to the host and not withdrawn since.
    pub closed spec fn sent(&self) -> Set<u16> {
        set_of(self.sent@)
    }

    /// The client daemon's own port, never announced.
    pub closed spec fn own_port(&self) -> u16 {
        self.client_port
    }

    pub closed spec fn wf(&self) -> bool {
        self.sent@.no_duplicates()
    }

    /// A tracker with no samples and nothing announced.
    pub fn new(client_port: u16) -> (r: PortTracker)
        ensures
            r.wf(),
            r.history() == Seq::<(u64, Set<u16>)>::empty(),
            r.sent() == Set::<u16>::empty(),
            r.own_port() == client_port,
    {
        let r = PortTracker { history: Vec::new(), sent: Vec::new(), client_port };
        assert(r.history() =~= Seq::<(u64, Set<u16>)>::empty());
        assert(r.sent() =~= Set::<u16>::empty());
        r
    }

    /// Records the ports listening at `now_ns`: forgets samples older than
    /// the window, and returns the announced ports that have closed (which
    /// are no longer counted as announced).
    pub fn on_tick(&mut self, now_ns: u64, ports: Vec<u16>) -> (closed: Vec<u16>)
        requires
            old(self).wf(),
        ensures
            final(self).wf(),
            closed@.no_duplicates(),
            set_of(closed@) == closed_ports(old(self).sent(), set_of(ports@)),
            final(self).sent() == still_open(old(self).sent(), set_of(ports@)),
            final(self).history() == pruned(
                old(self).history().push((now_ns, set_of(ports@))),
                now_ns,
            ),
            final(self).own_port() == old(self).own_port(),
    {
        let closed = filter_ports(&self.sent, &ports, false);
        let kept = filter_ports(&self.sent, &ports, true);
        self.sent = kept;
        let ghost kept_view = self.sent@;
        let ghost target = old(self).history().push((now_ns, set_of(ports@)));
        let ghost old_history = self.history@;
        self.history.push(PortSample { at_ns: now_ns, ports });
        assert(self.history() =~= target);
        while self.history.len() > 0 && now_ns > self.history[0].at_ns && now_ns
            - self.history[0].at_ns > 15_000_000_000
            invariant
                pruned(self.history(), now_ns) == pruned(target, now_ns),
                self.sent@ == kept_view,
                self.client_port == old(self).client_port,
            decreases self.history.len(),
        {
            let ghost before = self.history();
            self.history.remove(0);
            assert(self.history() =~= before.drop_first());
        }
        closed
    }

    /// The ports announced when a URL is opened: those of the remembered
    /// samples and of `current`, without the client's own port.
    pub fn ports_for_url(&self, current: &Vec<u16>) -> (r: Vec<u16>)
        ensures
            r@.no_duplicates(),
            set_of(r@) == ports_to_announce(self.history(), set_of(current@), self.own_port()),
    {
        let mut own: Vec<u16> = Vec::new();
        own.push(self.client_port);
        assert(set_of(own@) =~= set![self.client_port]) by {
            assert(own@[0] == self.client_port);
        }
        let mut acc: Vec<u16> = Vec::new();
        let ghost h = self.history();
        let mut i: usize = 0;
        assert(h.take(0) =~= Seq::<(u64, Set<u16>)>::empty());
        assert(set_of(acc@) =~= Set::<u16>::empty());
        while i < self.history.len()
            invariant
                h == self.history(),
                i <= self.history@.len(),
                acc@.no_duplicates(),
                set_of(own@) == set![self.client_port],
                set_of(acc@) =~= seen_ports(h.take(i as int)).remove(self.client_port),
            decreases self.history.len() - i,
        {
            add_ports(&mut acc, &self.history[i].ports, &own);
            assert(h.take(i + 1).drop_last() =~= h.take(i as int));
            assert(h.take(i + 1).last() == sample_view(self.history@[i as int]));
            i = i + 1;
        }
        assert(h.take(self.history.len() as int) =~= h);
        add_ports(&mut acc, current, &own);
        acc
    }

    /// Counts `ports` as announced.
    pub fn record_sent(&mut self, ports: &Vec<u16>)
        requires
            old(self).wf(),
        ensures
            final(self).wf(),
            final(self).sent() == old(self).sent().union(set_of(ports@)),
            final(self).history() == old(self).history(),
            final(self).own_port() == old(self).own_port(),
    {
        let none: Vec<u16> = Vec::new();
        assert(set_of(none@) =~= Set::<u16>::empty());
        add_ports(&mut self.sent, ports, &none);
    }

    /// The listening ports of `current` not announced yet, without the
    /// client's own port.
    pub fn new_ports(&self, current: &Vec<u16>) -> (r: Vec<u16>)
        requires
            self.wf(),
        ensures
            r@.no_duplicates(),
            set_of(r@) == newly_opened(set_of(current@), self.sent(), self.own_port()),
    {
        let mut exclude = self.sent.clone();
        let ghost sent_view = exclude@;
        exclude.push(self.client_port);
        proof {
            crate::port_sets::lemma_contains_push(sent_view, self.client_port);
        }
        assert(set_of(exclude@) =~= set_of(self.sent@).insert(self.client_port));
        let mut acc: Vec<u16> = Vec::new();
        add_ports(&mut acc, current, &exclude);
        assert(set_of(acc@) =~= newly_opened(set_of(current@), self.sent(), self.own_port()));
        acc
    }
}

/// After a URL is opened, the listening ports are checked again this many
/// times, one second apart, for ports that opened since.
pub open spec fn follow_up_checks() -> int {
    3
}

/// Milliseconds between two follow-up checks.
pub fn follow_up_pause_ms() -> (r: u64)
    ensures
        r == 1000,
{
    1000
}

/// Whether `check` (counted from 1) is one of the follow-up checks.
pub fn is_follow_up_check(check: u8) -> (r: bool)
    ensures
        r == (1 <= check && check <= follow_up_checks()),
{
    1 <= check && check <= 3
}

impl PortTracker {
    /// Follow-up check number `check` with the ports listening now,
    /// `current`: the ports to announce (`Add`) where it is one of the
    /// follow-up checks and some port opened that is not announced yet (nor
    /// the client's own); else nothing.
    pub fn follow_up(&self, check: u8, current: &Vec<u16>) -> (r: Option<Vec<u16>>)
        requires
            self.wf(),
        ensures
            match r {
                Some(v) => 1 <= check <= follow_up_checks() && v@.no_duplicates() && set_of(v@)
                    == newly_opened(set_of(current@), self.sent(), self.own_port()) && set_of(
                    v@,
                ) != Set::<u16>::empty(),
                None => !(1 <= check <= follow_up_checks()) || newly_opened(
                    set_of(current@),
                    self.sent(),
                    self.own_port(),
                ) == Set::<u16>::empty(),
            },
    {
        if !is_follow_up_check(check) {
            return None;
        }
        let fresh = self.new_ports(current);
        if fresh.len() == 0 {
            assert(set_of(fresh@) =~= Set::<u16>::empty());
            None
        } else {
            assert(set_of(fresh@).contains(fresh@[0]));
            Some(fresh)
        }
    }
}

/// What the client daemon does after a URL is opened, in order.
#[derive(Debug, Clone, PartialEq, Eq)]
pub enum UrlAction {
    /// Hand the URL to the host (`/open`).
    SendOpen(String),
    /// Announce these ports to the host (`/ports`, `Add`); where the host
    /// accepts them they count as announced (`record_sent`).
    Announce(Vec<u16>),
    /// Wait this many milliseconds.
    Pause(u64),
    /// Run follow-up check number `n` (`follow_up`) with the ports
    /// listening then, and announce what it gives as above.
    CheckNewPorts(u8),
}

pub enum UrlActionView {
    SendOpen(Seq<char>),
    Announce(Set<u16>),
    Pause(int),
    CheckNewPorts(int),
}

impl View for UrlAction {
    type V = UrlActionView;

    open spec fn view(&self) -> UrlActionView {
        match self {
            UrlAction::SendOpen(u) => UrlActionView::SendOpen(u@),
            UrlAction::Announce(v) => UrlActionView::Announce(set_of(v@)),
            UrlAction::Pause(ms) => UrlActionView::Pause(*ms as int),
            UrlAction::CheckNewPorts(n) => UrlActionView::CheckNewPorts(*n as int),
        }
    }
}

pub open spec fn url_actions_view(a: Seq<UrlAction>) -> Seq<UrlActionView> {
    a.map_values(|x: UrlAction| x@)
}

/// The follow-up checks, one second apart: 1, 2 and 3.
pub open spec fn follow_up_script() -> Seq<UrlActionView> {
    seq![
        UrlActionView::Pause(1000),
        UrlActionView::CheckNewPorts(1),
        UrlActionView::Pause(1000),
        UrlActionView::CheckNewPorts(2),
        UrlActionView::Pause(1000),
        UrlActionView::CheckNewPorts(3),
    ]
}

/// After `url` is opened, with `announce` the ports seen during the window:
/// the URL goes to the host first; then those ports, unless there are none;
/// then the three follow-up checks.
pub open spec fn url_script(url: Seq<char>, announce: Set<u16>) -> Seq<UrlActionView> {
    seq![UrlActionView::SendOpen(url)] + (if announce == Set::<u16>::empty() {
        Seq::empty()
    } else {
        seq![UrlActionView::Announce(announce)]
    }) + follow_up_script()
}

impl PortTracker {
    /// The actions that follow the opening of `url`, given the ports
    /// listening now, `current`.
    pub fn on_url_opened(&self, url: String, current: &Vec<u16>) -> (r: Vec<UrlAction>)
        ensures
            url_actions_view(r@) == url_script(
                url@,
                ports_to_announce(self.history(), set_of(current@), self.own_port()),
            ),
            forall|i: int| 0 <= i < r@.len() ==> (#[trigger] r@[i] matches UrlAction::Announce(v)
                ==> v@.no_duplicates()),
    {
        let ghost u = url@;
        let ports = self.ports_for_url(current);
        let ghost announce = set_of(ports@);
        let mut r: Vec<UrlAction> = Vec::new();
        r.push(UrlAction::SendOpen(url));
        let ghost head = url_actions_view(r@);
        assert(head =~= seq![UrlActionView::SendOpen(u)]);
        if ports.len() == 0 {
            assert(announce =~= Set::<u16>::empty());
        } else {
            assert(announce.contains(ports@[0]));
            r.push(UrlAction::Announce(ports));
        }
        let mut n: u8 = 1;
        while n <= 3
            invariant
                1 <= n <= 4,
                url_actions_view(r@) == head + (if announce == Set::<u16>::empty() {
                    Seq::<UrlActionView>::empty()
                } else {
                    seq![UrlActionView::Announce(announce)]
                }) + follow_up_script().take(2 * (n - 1)),
                forall|i: int| 0 <= i < r@.len() ==> (#[trigger] r@[i] matches UrlAction::Announce(v)
                    ==> v@.no_duplicates()),
            decreases 4 - n,
        {
            let ghost before = url_actions_view(r@);
            r.push(UrlAction::Pause(follow_up_pause_ms()));
            r.push(UrlAction::CheckNewPorts(n));
            assert(url_actions_view(r@) =~= before.push(UrlActionView::Pause(1000)).push(
                UrlActionView::CheckNewPorts(n as int),
            ));
            assert(follow_up_script().take(2 * n) =~= follow_up_script().take(2 * (n - 1)).push(
                UrlActionView::Pause(1000),
            ).push(UrlActionView::CheckNewPorts(n as int)));
            n = n + 1;
        }
        assert(follow_up_script().take(6) =~= follow_up_script());
        r
    }
}

/// At each sample, the announced ports split into those withdrawn and
/// those kept: nothing is lost, nothing is in both, and nothing withdrawn
/// is still listening.
pub proof fn lemma_tick_partitions_sent(sent: Set<u16>, current: Set<u16>)
    ensures
        closed_ports(sent, current).union(still_open(sent, current)) == sent,
        closed_ports(sent, current).intersect(still_open(sent, current)) == Set::<u16>::empty(),
        closed_ports(sent, current).intersect(current) == Set::<u16>::empty(),
{
    assert(closed_ports(sent, current).union(still_open(sent, current)) =~= sent);
    assert(closed_ports(sent, current).intersect(still_open(sent, current)) =~= Set::<u16>::empty());
    assert(closed_ports(sent, current).intersect(current) =~= Set::<u16>::empty());
}

/// The client daemon's own port is never announced, neither when a URL is
/// opened nor in the follow-up checks.
pub proof fn lemma_own_port_never_announced(
    h: Seq<(u64, Set<u16>)>,
    current: Set<u16>,
    sent: Set<u16>,
    own: u16,
)
    ensures
        !ports_to_announce(h, current, own).contains(own),
        !newly_opened(current, sent, own).contains(own),
{
}

/// Once ports are announced they are not announced again while they stay
/// announced.
pub proof fn lemma_announced_once(current: Set<u16>, sent: Set<u16>, announced: Set<u16>, own: u16)
    ensures
        newly_opened(current, sent.union(announced), own).intersect(announced) == Set::<u16>::empty(),
{
    assert(newly_opened(current, sent.union(announced), own).intersect(announced)
        =~= Set::<u16>::empty());
}

/// A port withdrawn because it closed is announced again if it opens again.
pub proof fn lemma_reopened_port_announced(
    sent: Set<u16>,
    at_close: Set<u16>,
    later: Set<u16>,
    own: u16,
    p: u16,
)
    requires
        closed_ports(sent, at_close).contains(p),
        later.contains(p),
        p != own,
    ensures
        newly_opened(later, still_open(sent, at_close), own).contains(p),
{
}

/// After a sample is recorded, the oldest remembered sample is at most
/// 15 seconds old.
pub proof fn lemma_pruned_within_window(h: Seq<(u64, Set<u16>)>, now: u64)
    ensures
        pruned(h, now).len() > 0 ==> now - pruned(h, now)[0].0 <= history_window_ns(),
        pruned(h, now).len() <= h.len(),
    decreases h.len(),
{
    if h.len() > 0 && now - h[0].0 > history_window_ns() {
        lemma_pruned_within_window(h.drop_first(), now);
    }
}


} // verus!
