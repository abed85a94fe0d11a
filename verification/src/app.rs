use vstd::prelude::*;
use std::collections::VecDeque;
use vstd::string::StringSliceAdditionalSpecFns;
use crate::clock::{is_clock_text, local_time_of_day, TIME_OF_DAY_FORMAT};
use crate::config::Config;
use crate::history::Average;
use crate::network::{NetworkEvent, ProbeAlert, EventView, announcement_line};
use crate::text::occurs_at;
use crate::text::{contains, contains_seq, replace, replace_all};
use crate::wifi::WifiStats;

verus! {

/// How many alerts the dashboard keeps.
pub const MAX_ALERTS: usize = 50;

/// How many log lines the dashboard keeps.
pub const MAX_LOGS: usize = 100;

/// `s` with `x` appended, the oldest element leaving when that makes more
/// than `cap` elements.
pub open spec fn bounded_push<T>(s: Seq<T>, x: T, cap: nat) -> Seq<T> {
    let p = s.push(x);
    if p.len() > cap {
        p.drop_first()
    } else {
        p
    }
}

/// `s` without the elements equal to `x`.
pub open spec fn without<T>(s: Seq<T>, x: T) -> Seq<T>
    decreases s.len(),
{
    if s.len() == 0 {
        s
    } else if s.last() == x {
        without(s.drop_last(), x)
    } else {
        without(s.drop_last(), x).push(s.last())
    }
}

/// A dashboard log line: the time of day in brackets, then the message.
pub open spec fn log_line(stamp: Seq<char>, message: Seq<char>) -> Seq<char> {
    "["@ + stamp + "] "@ + message
}

/// The marker of the log line that announces the local identity.
pub open spec fn announcement_marker() -> Seq<char> {
    "Local Peer ID:"@
}

/// The prefix that the announcement puts before the identity.
pub open spec fn announcement_prefix() -> Seq<char> {
    "Local Peer ID: "@
}

/// The dashboard state of a probe node.
pub struct App {
    /// The last readings of the local interface.
    pub wifi_stats: Option<WifiStats>,
    /// The moving average that came with them.
    pub avg_signal: Option<Average>,
    /// The peers currently known, in order of discovery.
    pub peers: Vec<String>,
    /// The latest alerts, oldest first.
    pub alerts: VecDeque<ProbeAlert>,
    /// The latest log lines, oldest first.
    pub logs: VecDeque<String>,
    pub local_peer_id: String,
    pub config: Config,
    pub should_quit: bool,
}

impl App {
    /// A dashboard with no readings, peers, alerts or logs yet.
    pub fn new(local_peer_id: String, config: Config) -> (app: Self)
        ensures
            app.wifi_stats is None,
            app.avg_signal is None,
            app.peers@ == Seq::<String>::empty(),
            app.alerts@ == Seq::<ProbeAlert>::empty(),
            app.logs@ == Seq::<String>::empty(),
            app.local_peer_id == local_peer_id,
            app.config == config,
            !app.should_quit,
    {
        App {
            wifi_stats: None,
            avg_signal: None,
            peers: Vec::new(),
            alerts: VecDeque::with_capacity(MAX_ALERTS),
            logs: VecDeque::with_capacity(MAX_LOGS),
            local_peer_id,
            config,
            should_quit: false,
        }
    }

    /// Appends a log line stamped with `stamp`, dropping the oldest line when
    /// more than [`MAX_LOGS`] would be kept.
    pub fn add_log_stamped(&mut self, stamp: &str, log: String)
        ensures
            final(self).logs.deep_view() == bounded_push(
                old(self).logs.deep_view(),
                log_line(stamp@, log@),
                MAX_LOGS as nat,
            ),
            final(self).wifi_stats == old(self).wifi_stats,
            final(self).avg_signal == old(self).avg_signal,
            final(self).peers == old(self).peers,
            final(self).alerts == old(self).alerts,
            final(self).local_peer_id == old(self).local_peer_id,
            final(self).config == old(self).config,
            final(self).should_quit == old(self).should_quit,
    {
        let mut line = String::from_str("[");
        line.append(stamp);
        line.append("] ");
        line.append(log.as_str());
        let ghost before = self.logs.deep_view();
        let ghost text = line@;
        self.logs.push_back(line);
        assert(self.logs.deep_view() =~= before.push(text));
        if self.logs.len() > MAX_LOGS {
            let ghost full = self.logs.deep_view();
            let _ = self.logs.pop_front();
            assert(self.logs.deep_view() =~= full.drop_first());
        }
    }

    /// Appends a log line stamped with the local time of day (`HH:MM:SS`).
    pub fn add_log(&mut self, log: String)
        ensures
            exists|stamp: Seq<char>|
                is_clock_text(stamp) && final(self).logs.deep_view() == bounded_push(
                    old(self).logs.deep_view(),
                    #[trigger] log_line(stamp, log@),
                    MAX_LOGS as nat,
                ),
            final(self).wifi_stats == old(self).wifi_stats,
            final(self).avg_signal == old(self).avg_signal,
            final(self).peers == old(self).peers,
            final(self).alerts == old(self).alerts,
            final(self).local_peer_id == old(self).local_peer_id,
            final(self).config == old(self).config,
            final(self).should_quit == old(self).should_quit,
    {
        let stamp = local_time_of_day(TIME_OF_DAY_FORMAT);
        self.add_log_stamped(stamp.as_str(), log);
    }

    /// Appends an alert, dropping the oldest one when more than
    /// [`MAX_ALERTS`] would be kept.
    pub fn add_alert(&mut self, alert: ProbeAlert)
        ensures
            final(self).alerts@ == bounded_push(old(self).alerts@, alert, MAX_ALERTS as nat),
            final(self).wifi_stats == old(self).wifi_stats,
            final(self).avg_signal == old(self).avg_signal,
            final(self).peers == old(self).peers,
            final(self).logs == old(self).logs,
            final(self).local_peer_id == old(self).local_peer_id,
            final(self).config == old(self).config,
            final(self).should_quit == old(self).should_quit,
    {
        self.alerts.push_back(alert);
        if self.alerts.len() > MAX_ALERTS {
            let _ = self.alerts.pop_front();
        }
    }

    /// Records a peer, unless it is known already.
    pub fn insert_peer(&mut self, peer: String)
        ensures
            old(self).peers.deep_view().no_duplicates() ==> final(self).peers.deep_view().no_duplicates(),
            final(self).peers.deep_view() == (if old(self).peers.deep_view().contains(peer@) {
                old(self).peers.deep_view()
            } else {
                old(self).peers.deep_view().push(peer@)
            }),
            final(self).wifi_stats == old(self).wifi_stats,
            final(self).avg_signal == old(self).avg_signal,
            final(self).alerts == old(self).alerts,
            final(self).logs == old(self).logs,
            final(self).local_peer_id == old(self).local_peer_id,
            final(self).config == old(self).config,
            final(self).should_quit == old(self).should_quit,
    {
        let n = self.peers.len();
        let ghost known = self.peers.deep_view();
        for i in 0..n
            invariant
                n == self.peers@.len(),
                known == self.peers.deep_view(),
                forall|j: int| 0 <= j < i ==> known[j] != peer@,
        {
            if self.peers[i] == peer {
                assert(known[i as int] == peer@);
                assert(known.contains(peer@));
                return;
            }
        }
        assert(!known.contains(peer@));
        let ghost p = peer@;
        self.peers.push(peer);
        assert(self.peers.deep_view() =~= known.push(p));
        proof {
            if known.no_duplicates() {
                lemma_peers_stay_distinct(known, p);
            }
        }
    }

    /// Forgets a peer.
    pub fn remove_peer(&mut self, peer: &String)
        ensures
            old(self).peers.deep_view().no_duplicates() ==> final(self).peers.deep_view().no_duplicates(),
            final(self).peers.deep_view() == without(old(self).peers.deep_view(), peer@),
            final(self).wifi_stats == old(self).wifi_stats,
            final(self).avg_signal == old(self).avg_signal,
            final(self).alerts == old(self).alerts,
            final(self).logs == old(self).logs,
            final(self).local_peer_id == old(self).local_peer_id,
            final(self).config == old(self).config,
            final(self).should_quit == old(self).should_quit,
    {
        let n = self.peers.len();
        let ghost known = self.peers.deep_view();
        let mut kept: Vec<String> = Vec::new();
        assert(known.take(0) =~= Seq::<Seq<char>>::empty());
        assert(kept.deep_view() =~= Seq::<Seq<char>>::empty());
        for i in 0..n
            invariant
                n == self.peers@.len(),
                known == self.peers.deep_view(),
                kept.deep_view() == without(known.take(i as int), peer@),
        {
            assert(known.take(i + 1).drop_last() =~= known.take(i as int));
            if self.peers[i] != *peer {
                let ghost before = kept.deep_view();
                kept.push(self.peers[i].clone());
                assert(kept.deep_view() =~= before.push(known[i as int]));
            }
        }
        assert(known.take(n as int) =~= known);
        proof {
            if known.no_duplicates() {
                lemma_peers_stay_distinct(known, peer@);
            }
        }
        self.peers = kept;
    }

    /// Takes in an event of the network task.
    pub fn handle_event(&mut self, event: NetworkEvent)
        ensures
            old(self).peers.deep_view().no_duplicates() ==> final(self).peers.deep_view().no_duplicates(),
            final(self).config == old(self).config,
            final(self).should_quit == old(self).should_quit,
            match event@ {
                EventView::StatsUpdate(stats, avg) => {
                    &&& final(self).wifi_stats matches Some(s) && s@ == stats
                    &&& final(self).avg_signal == Some(avg)
                    &&& final(self).peers == old(self).peers
                    &&& final(self).alerts == old(self).alerts
                    &&& final(self).logs == old(self).logs
                    &&& final(self).local_peer_id == old(self).local_peer_id
                },
                EventView::AlertReceived(alert) => {
                    &&& final(self).alerts@ == bounded_push(old(self).alerts@, alert, MAX_ALERTS as nat)
                    &&& final(self).wifi_stats == old(self).wifi_stats
                    &&& final(self).avg_signal == old(self).avg_signal
                    &&& final(self).peers == old(self).peers
                    &&& final(self).logs == old(self).logs
                    &&& final(self).local_peer_id == old(self).local_peer_id
                },
                EventView::PeerDiscovered(p) => {
                    &&& final(self).peers.deep_view() == (if old(self).peers.deep_view().contains(p) {
                        old(self).peers.deep_view()
                    } else {
                        old(self).peers.deep_view().push(p)
                    })
                    &&& final(self).wifi_stats == old(self).wifi_stats
                    &&& final(self).avg_signal == old(self).avg_signal
                    &&& final(self).alerts == old(self).alerts
                    &&& final(self).logs == old(self).logs
                    &&& final(self).local_peer_id == old(self).local_peer_id
                },
                EventView::PeerExpired(p) => {
                    &&& final(self).peers.deep_view() == without(old(self).peers.deep_view(), p)
                    &&& final(self).wifi_stats == old(self).wifi_stats
                    &&& final(self).avg_signal == old(self).avg_signal
                    &&& final(self).alerts == old(self).alerts
                    &&& final(self).logs == old(self).logs
                    &&& final(self).local_peer_id == old(self).local_peer_id
                },
                EventView::Log(m) => {
                    &&& exists|stamp: Seq<char>|
                        is_clock_text(stamp) && final(self).logs.deep_view() == bounded_push(
                            old(self).logs.deep_view(),
                            #[trigger] log_line(stamp, m),
                            MAX_LOGS as nat,
                        )
                    &&& final(self).local_peer_id@ == (if contains_seq(m, announcement_marker()) {
                        replace_all(m, announcement_prefix(), Seq::empty())
                    } else {
                        old(self).local_peer_id@
                    })
                    &&& !contains_seq(m, announcement_marker()) ==> final(self).local_peer_id
                        == old(self).local_peer_id
                    &&& final(self).wifi_stats == old(self).wifi_stats
                    &&& final(self).avg_signal == old(self).avg_signal
                    &&& final(self).peers == old(self).peers
                    &&& final(self).alerts == old(self).alerts
                },
            },
    {
        match event {
            NetworkEvent::StatsUpdate(stats, avg) => {
                self.wifi_stats = Some(stats);
                self.avg_signal = Some(avg);
            },
            NetworkEvent::AlertReceived(alert) => {
                self.add_alert(alert);
            },
            NetworkEvent::PeerDiscovered(peer) => {
                self.insert_peer(peer);
            },
            NetworkEvent::PeerExpired(peer) => {
                self.remove_peer(&peer);
            },
            NetworkEvent::Log(msg) => {
                if contains(msg.as_str(), "Local Peer ID:") {
                    proof {
                        reveal_strlit("Local Peer ID: ");
                        reveal_strlit("");
                        assert(""@ =~= Seq::<char>::empty());
                    }
                    self.local_peer_id = replace(msg.as_str(), "Local Peer ID: ", "");
                }
                self.add_log(msg);
            },
        }
    }

    /// Takes in a key press: `q` asks the dashboard to quit.
    pub fn handle_key(&mut self, key: char)
        ensures
            final(self).should_quit == (old(self).should_quit || key == 'q'),
            final(self).wifi_stats == old(self).wifi_stats,
            final(self).avg_signal == old(self).avg_signal,
            final(self).peers == old(self).peers,
            final(self).alerts == old(self).alerts,
            final(self).logs == old(self).logs,
            final(self).local_peer_id == old(self).local_peer_id,
            final(self).config == old(self).config,
    {
        if key == 'q' {
            self.should_quit = true;
        }
    }
}


/// How strong a signal percentage reads on the dashboard gauge.
#[derive(Clone, Copy, Debug, PartialEq, Eq, Structural)]
pub enum SignalLevel {
    Strong,
    Fair,
    Weak,
}

/// The level of a signal percentage: above 70 strong, above 40 fair, weak otherwise.
pub open spec fn signal_level_of(signal: u32) -> SignalLevel {
    if signal > 70 {
        SignalLevel::Strong
    } else if signal > 40 {
        SignalLevel::Fair
    } else {
        SignalLevel::Weak
    }
}

/// Grades a signal percentage for the gauge.
pub fn signal_level(signal: u32) -> (l: SignalLevel)
    ensures
        l == signal_level_of(signal),
{
    if signal > 70 {
        SignalLevel::Strong
    } else if signal > 40 {
        SignalLevel::Fair
    } else {
        SignalLevel::Weak
    }
}

/// The first eight bytes of a peer identity, or the whole identity when it is
/// no longer than that.
pub fn short_peer_id(id: &str) -> (r: &str)
    requires
        id.spec_bytes().len() > 8 ==> vstd::utf8::is_char_boundary(id.spec_bytes(), 8),
    ensures
        r.spec_bytes() == (if id.spec_bytes().len() > 8 {
            id.spec_bytes().subrange(0, 8)
        } else {
            id.spec_bytes()
        }),
{
    let bytes = id.as_bytes();
    if bytes.len() > 8 {
        let (head, _) = id.split_at(8);
        head
    } else {
        id
    }
}

/// A bounded list never grows past its capacity, and the element just added
/// is its newest: the alert and log histories of the dashboard stay within
/// [`MAX_ALERTS`] and [`MAX_LOGS`].
pub proof fn lemma_bounded_push_within_cap<T>(s: Seq<T>, x: T, cap: nat)
    requires
        s.len() <= cap,
        cap > 0,
    ensures
        bounded_push(s, x, cap).len() <= cap,
        bounded_push(s, x, cap).last() == x,
        s.len() < cap ==> bounded_push(s, x, cap) == s.push(x),
{
}

proof fn lemma_push_contains<T>(w: Seq<T>, l: T, y: T)
    ensures
        w.push(l).contains(y) <==> (w.contains(y) || y == l),
{
    let q = w.push(l);
    if q.contains(y) {
        let k = choose|k: int| 0 <= k < q.len() && q[k] == y;
        if k < w.len() {
            assert(w[k] == y);
        }
    }
    if w.contains(y) {
        let k = choose|k: int| 0 <= k < w.len() && w[k] == y;
        assert(q[k] == y);
    }
    if y == l {
        assert(q[w.len() as int] == y);
    }
}

proof fn lemma_without_contains<T>(s: Seq<T>, x: T, y: T)
    ensures
        without(s, x).contains(y) <==> (s.contains(y) && y != x),
    decreases s.len(),
{
    if s.len() > 0 {
        let p = s.drop_last();
        lemma_without_contains(p, x, y);
        assert(s =~= p.push(s.last()));
        lemma_push_contains(p, s.last(), y);
        lemma_push_contains(without(p, x), s.last(), y);
    }
}

proof fn lemma_without_absent<T>(s: Seq<T>, x: T)
    requires
        !s.contains(x),
    ensures
        without(s, x) == s,
    decreases s.len(),
{
    if s.len() > 0 {
        let p = s.drop_last();
        assert(s =~= p.push(s.last()));
        lemma_push_contains(p, s.last(), x);
        lemma_without_absent(p, x);
    }
}

/// Forgetting a peer undoes recording it: a peer that was unknown, once
/// recorded and then forgotten, leaves the known peers as they were.
pub proof fn lemma_forget_undoes_record(peers: Seq<Seq<char>>, p: Seq<char>)
    requires
        !peers.contains(p),
    ensures
        without(peers.push(p), p) == peers,
{
    assert(peers.push(p).drop_last() =~= peers);
    lemma_without_absent(peers, p);
}

proof fn lemma_without_distinct<T>(s: Seq<T>, x: T)
    requires
        s.no_duplicates(),
    ensures
        without(s, x).no_duplicates(),
    decreases s.len(),
{
    if s.len() > 0 {
        let p = s.drop_last();
        assert(p.no_duplicates());
        lemma_without_distinct(p, x);
        if s.last() != x {
            lemma_without_contains(p, x, s.last());
            assert(!p.contains(s.last()));
            let w = without(p, x);
            let q = w.push(s.last());
            assert forall|i: int, j: int| 0 <= i < q.len() && 0 <= j < q.len() && i != j implies q[i] != q[j] by {
                if i == w.len() && j < w.len() {
                    assert(w.contains(w[j]));
                } else if j == w.len() && i < w.len() {
                    assert(w.contains(w[i]));
                }
            }
        }
    }
}

/// The known peers never hold the same identity twice: recording a peer or
/// forgetting one keeps them free of duplicates. Recording adds exactly that
/// identity to the set of known peers, forgetting removes exactly it.
pub proof fn lemma_peers_stay_distinct(peers: Seq<Seq<char>>, p: Seq<char>)
    requires
        peers.no_duplicates(),
    ensures
        (if peers.contains(p) {
            peers
        } else {
            peers.push(p)
        }).no_duplicates(),
        without(peers, p).no_duplicates(),
        (if peers.contains(p) {
            peers
        } else {
            peers.push(p)
        }).to_set() == peers.to_set().insert(p),
        without(peers, p).to_set() == peers.to_set().remove(p),
{
    lemma_without_distinct(peers, p);
    if !peers.contains(p) {
        let q = peers.push(p);
        assert forall|i: int, j: int| 0 <= i < q.len() && 0 <= j < q.len() && i != j implies q[i] != q[j] by {
            if i == peers.len() && j < peers.len() {
                assert(peers.contains(peers[j]));
            } else if j == peers.len() && i < peers.len() {
                assert(peers.contains(peers[i]));
            }
        }
        assert forall|y: Seq<char>| q.contains(y) <==> peers.contains(y) || y == p by {
            if q.contains(y) {
                let k = choose|k: int| 0 <= k < q.len() && q[k] == y;
                if k < peers.len() {
                    assert(peers[k] == y);
                }
            }
            if peers.contains(y) {
                let k = choose|k: int| 0 <= k < peers.len() && peers[k] == y;
                assert(q[k] == y);
            }
            if y == p {
                assert(q[peers.len() as int] == y);
            }
        }
        assert(q.to_set() =~= peers.to_set().insert(p));
    } else {
        assert(peers.to_set() =~= peers.to_set().insert(p));
    }
    assert forall|y: Seq<char>| without(peers, p).contains(y) <==> peers.contains(y) && y != p by {
        lemma_without_contains(peers, p, y);
    }
    assert(without(peers, p).to_set() =~= peers.to_set().remove(p));
}


proof fn lemma_replace_absent(s: Seq<char>, pat: Seq<char>, rep: Seq<char>)
    requires
        pat.len() > 0,
        !contains_seq(s, pat),
    ensures
        replace_all(s, pat, rep) == s,
    decreases s.len(),
{
    if s.len() >= pat.len() {
        assert(s.take(pat.len() as int) =~= s.subrange(0, pat.len() as int));
        assert(!occurs_at(s, pat, 0));
        let t = s.drop_first();
        assert forall|i: int| !occurs_at(t, pat, i) by {
            if occurs_at(t, pat, i) {
                assert(s.subrange(i + 1, i + 1 + pat.len()) =~= t.subrange(i, i + pat.len()));
                assert(occurs_at(s, pat, i + 1));
            }
        }
        lemma_replace_absent(t, pat, rep);
        assert(seq![s[0]] + t =~= s);
    }
}

/// The identity that the network task announces is the one the dashboard
/// shows: the announcement carries the marker the dashboard looks for, and
/// taking the prefix out of it leaves the identity, as long as the identity
/// does not itself hold the prefix.
pub proof fn lemma_announced_identity_is_shown(peer_id: Seq<char>)
    requires
        !contains_seq(peer_id, announcement_prefix()),
    ensures
        contains_seq(announcement_line(peer_id), announcement_marker()),
        replace_all(announcement_line(peer_id), announcement_prefix(), Seq::empty()) == peer_id,
{
    reveal_strlit("Local Peer ID: ");
    reveal_strlit("Local Peer ID:");
    let line = announcement_line(peer_id);
    let pre = announcement_prefix();
    assert(line.subrange(0, announcement_marker().len() as int) =~= announcement_marker());
    assert(occurs_at(line, announcement_marker(), 0));
    assert(line.take(pre.len() as int) =~= pre);
    assert(line.skip(pre.len() as int) =~= peer_id);
    lemma_replace_absent(peer_id, pre, Seq::empty());
    assert(Seq::<char>::empty() + peer_id =~= peer_id);
}

} // verus!
