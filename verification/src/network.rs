use vstd::prelude::*;
use crate::bridge::{HardwareAlert, HardwareAlertView, NetworkCommand, hardware_line, hardware_log_line};
use crate::config::Config;
use crate::history::{
    Average,
    SignalHistory,
    below_threshold,
    is_average_of,
    lemma_history_keeps_latest,
    lemma_sum_at_most,
    record_all,
    lemma_uniform_window_decides,
    record_sample,
    sample_sum,
};
use crate::wifi::{WifiError, WifiStats, WifiStatsView, error_message};

verus! {

/// An interference alert as nodes gossip it to each other. The sender's
/// moving average travels as the bit pattern of an IEEE-754 single-precision
/// number.
pub struct ProbeAlert {
    pub peer_id: String,
    pub signal: u32,
    pub avg_signal_bits: u32,
    pub bssid: String,
    pub channel: u32,
    pub timestamp: i64,
}

/// What the network task reports to the dashboard.
pub enum NetworkEvent {
    StatsUpdate(WifiStats, Average),
    AlertReceived(ProbeAlert),
    PeerDiscovered(String),
    PeerExpired(String),
    Log(String),
}

/// The contents of a [`NetworkEvent`].
pub enum EventView {
    StatsUpdate(WifiStatsView, Average),
    AlertReceived(ProbeAlert),
    PeerDiscovered(Seq<char>),
    PeerExpired(Seq<char>),
    Log(Seq<char>),
}

impl View for NetworkEvent {
    type V = EventView;

    open spec fn view(&self) -> EventView {
        match self {
            NetworkEvent::StatsUpdate(s, a) => EventView::StatsUpdate(s@, *a),
            NetworkEvent::AlertReceived(a) => EventView::AlertReceived(*a),
            NetworkEvent::PeerDiscovered(p) => EventView::PeerDiscovered(p@),
            NetworkEvent::PeerExpired(p) => EventView::PeerExpired(p@),
            NetworkEvent::Log(m) => EventView::Log(m@),
        }
    }
}

/// What a node's own alert is made of; the node adds its identity, the time
/// and the average as a number before it gossips the alert.
pub struct AlertReport {
    pub signal: u32,
    pub average: Average,
    pub bssid: String,
    pub channel: u32,
}

/// The contents of an [`AlertReport`].
pub struct AlertReportView {
    pub signal: u32,
    pub average: Average,
    pub bssid: Seq<char>,
    pub channel: u32,
}

impl View for AlertReport {
    type V = AlertReportView;

    open spec fn view(&self) -> AlertReportView {
        AlertReportView {
            signal: self.signal,
            average: self.average,
            bssid: self.bssid@,
            channel: self.channel,
        }
    }
}

/// What happened around the network task since its last step.
pub enum SwarmInput {
    /// The WiFi interface was polled, with this outcome.
    Polled(Result<WifiStats, WifiError>),
    /// Local discovery found these peers.
    PeersDiscovered(Vec<String>),
    /// Local discovery lost these peers.
    PeersExpired(Vec<String>),
    /// A gossip message came from `source`; `alert` is the interference alert
    /// it holds, if it holds one, and `hardware` the sentinel anomaly it
    /// holds, if it holds one.
    Gossip { source: String, alert: Option<ProbeAlert>, hardware: Option<HardwareAlert> },
    /// The bridge asks for something.
    Command(NetworkCommand),
    /// The node listens on this address.
    ListeningOn(String),
    /// The connection to this peer closed.
    ConnectionClosed(String),
}

/// What the network task must do.
pub enum SwarmAction {
    /// Hand an event to the dashboard.
    Notify(NetworkEvent),
    /// Gossip an alert about the local signal.
    Publish(AlertReport),
    /// Gossip an anomaly that a hardware sentinel reported.
    PublishHardware(HardwareAlert),
    /// Keep exchanging gossip with this peer.
    AddExplicitPeer(String),
    /// Stop exchanging gossip with this peer.
    RemoveExplicitPeer(String),
}

/// The contents of a [`SwarmAction`].
pub enum ActionView {
    Notify(EventView),
    Publish(AlertReportView),
    PublishHardware(HardwareAlertView),
    AddExplicitPeer(Seq<char>),
    RemoveExplicitPeer(Seq<char>),
}

impl View for SwarmAction {
    type V = ActionView;

    open spec fn view(&self) -> ActionView {
        match self {
            SwarmAction::Notify(e) => ActionView::Notify(e@),
            SwarmAction::Publish(r) => ActionView::Publish(r@),
            SwarmAction::PublishHardware(h) => ActionView::PublishHardware(h@),
            SwarmAction::AddExplicitPeer(p) => ActionView::AddExplicitPeer(p@),
            SwarmAction::RemoveExplicitPeer(p) => ActionView::RemoveExplicitPeer(p@),
        }
    }
}

/// The contents of a sequence of actions.
pub open spec fn actions_view(actions: Seq<SwarmAction>) -> Seq<ActionView> {
    actions.map_values(|a: SwarmAction| a@)
}

/// The state the network task keeps between steps.
pub struct NetworkState {
    pub history: SignalHistory,
    pub signal_threshold: u32,
    pub peer_id: String,
}

/// The log line for a newly discovered peer.
pub open spec fn discovered_line(peer: Seq<char>) -> Seq<char> {
    "mDNS discovered a new peer: "@ + peer
}

/// The log line for a peer that discovery lost.
pub open spec fn expired_line(peer: Seq<char>) -> Seq<char> {
    "mDNS discovered peer has expired: "@ + peer
}

/// The log line for a failed poll of the interface.
pub open spec fn poll_error_line(e: WifiError) -> Seq<char> {
    "Error accessing WLAN API: "@ + error_message(e)
}

/// The log line for a gossip message that holds no alert.
pub open spec fn unknown_message_line(source: Seq<char>) -> Seq<char> {
    "Received unknown Gossipsub message from "@ + source
}

/// The log line for a new listening address.
pub open spec fn listening_line(address: Seq<char>) -> Seq<char> {
    "Local node is listening on "@ + address
}

/// The log line for a closed connection.
pub open spec fn closed_line(peer: Seq<char>) -> Seq<char> {
    "Connection closed with peer: "@ + peer
}

/// The log line that announces the identity of the local node.
pub open spec fn announcement_line(peer_id: Seq<char>) -> Seq<char> {
    "Local Peer ID: "@ + peer_id
}

/// The actions for peers found by discovery: for each, in order, a log line,
/// a discovery event and an explicit gossip peer.
pub open spec fn discovered_actions(peers: Seq<Seq<char>>) -> Seq<ActionView>
    decreases peers.len(),
{
    if peers.len() == 0 {
        seq![]
    } else {
        let p = peers.last();
        discovered_actions(peers.drop_last()) + seq![
            ActionView::Notify(EventView::Log(discovered_line(p))),
            ActionView::Notify(EventView::PeerDiscovered(p)),
            ActionView::AddExplicitPeer(p),
        ]
    }
}

/// The actions for peers that discovery lost: for each, in order, a log line,
/// an expiry event and the removal of the explicit gossip peer.
pub open spec fn expired_actions(peers: Seq<Seq<char>>) -> Seq<ActionView>
    decreases peers.len(),
{
    if peers.len() == 0 {
        seq![]
    } else {
        let p = peers.last();
        expired_actions(peers.drop_last()) + seq![
            ActionView::Notify(EventView::Log(expired_line(p))),
            ActionView::Notify(EventView::PeerExpired(p)),
            ActionView::RemoveExplicitPeer(p),
        ]
    }
}

/// The average of the samples held once `signal` is recorded.
pub open spec fn average_after(samples: Seq<u32>, window: nat, signal: u32) -> Average {
    let kept = record_sample(samples, window, signal);
    Average { sum: sample_sum(kept) as u128, count: kept.len() as usize }
}

/// The actions for a poll of the interface, given the samples held before it,
/// the window and the threshold: the readings and the new average go to the
/// dashboard and, when that average is below the threshold, an alert is
/// gossiped; a failed poll is logged.
pub open spec fn poll_actions(
    samples: Seq<u32>,
    window: nat,
    threshold: u32,
    polled: Result<WifiStatsView, WifiError>,
) -> Seq<ActionView> {
    match polled {
        Ok(stats) => {
            let avg = average_after(samples, window, stats.signal);
            let update = seq![ActionView::Notify(EventView::StatsUpdate(stats, avg))];
            if below_threshold(avg, threshold) {
                update + seq![
                    ActionView::Publish(
                        AlertReportView {
                            signal: stats.signal,
                            average: avg,
                            bssid: stats.bssid,
                            channel: stats.channel,
                        },
                    ),
                ]
            } else {
                update
            }
        },
        Err(e) => seq![ActionView::Notify(EventView::Log(poll_error_line(e)))],
    }
}


/// The actions for one step of the network task, given the samples held, the
/// window and the threshold.
pub open spec fn step_actions(samples: Seq<u32>, window: nat, threshold: u32, input: SwarmInput) -> Seq<
    ActionView,
> {
    match input {
        SwarmInput::Polled(r) => poll_actions(samples, window, threshold, crate::wifi::reading_view(r)),
        SwarmInput::PeersDiscovered(peers) => discovered_actions(peers.deep_view()),
        SwarmInput::PeersExpired(peers) => expired_actions(peers.deep_view()),
        SwarmInput::Gossip { source, alert, hardware } => match alert {
            Some(a) => seq![ActionView::Notify(EventView::AlertReceived(a))],
            None => match hardware {
                Some(h) => seq![
                    ActionView::Notify(EventView::Log(hardware_line(h.dev@, h.alert_type@, h.ch))),
                ],
                None => seq![ActionView::Notify(EventView::Log(unknown_message_line(source@)))],
            },
        },
        SwarmInput::Command(NetworkCommand::PublishHardwareAlert { dev, ch, pwr, alert_type }) => seq![
            ActionView::PublishHardware(
                HardwareAlertView { dev: dev@, ch, pwr, alert_type: alert_type@ },
            ),
        ],
        SwarmInput::ListeningOn(address) => seq![
            ActionView::Notify(EventView::Log(listening_line(address@))),
        ],
        SwarmInput::ConnectionClosed(peer) => seq![
            ActionView::Notify(EventView::Log(closed_line(peer@))),
            ActionView::Notify(EventView::PeerExpired(peer@)),
            ActionView::RemoveExplicitPeer(peer@),
        ],
    }
}

/// The samples held after one step: a successful poll records its signal.
pub open spec fn samples_after(samples: Seq<u32>, window: nat, input: SwarmInput) -> Seq<u32> {
    match input {
        SwarmInput::Polled(Ok(stats)) => record_sample(samples, window, stats.signal),
        _ => samples,
    }
}

fn log_action(prefix: &str, tail: &str) -> (a: SwarmAction)
    ensures
        a@ == ActionView::Notify(EventView::Log(prefix@ + tail@)),
{
    let mut line = String::from_str(prefix);
    line.append(tail);
    SwarmAction::Notify(NetworkEvent::Log(line))
}

fn push_action(out: &mut Vec<SwarmAction>, a: SwarmAction)
    ensures
        actions_view(final(out)@) == actions_view(old(out)@).push(a@),
{
    let ghost before = out@;
    out.push(a);
    assert(actions_view(out@) =~= actions_view(before).push(a@));
}

fn discovery_actions(peers: &Vec<String>, found: bool) -> (out: Vec<SwarmAction>)
    ensures
        actions_view(out@) == (if found {
            discovered_actions(peers.deep_view())
        } else {
            expired_actions(peers.deep_view())
        }),
{
    let mut out: Vec<SwarmAction> = Vec::new();
    let n = peers.len();
    let ghost ids = peers.deep_view();
    assert(actions_view(out@) =~= Seq::<ActionView>::empty());
    assert(ids.take(0) =~= Seq::<Seq<char>>::empty());
    for i in 0..n
        invariant
            n == peers@.len(),
            ids == peers.deep_view(),
            actions_view(out@) == (if found {
                discovered_actions(ids.take(i as int))
            } else {
                expired_actions(ids.take(i as int))
            }),
    {
        let p = peers[i].clone();
        assert(ids.take(i + 1).drop_last() =~= ids.take(i as int));
        assert(ids.take(i + 1).last() == p@);
        if found {
            push_action(&mut out, log_action("mDNS discovered a new peer: ", p.as_str()));
            push_action(&mut out, SwarmAction::Notify(NetworkEvent::PeerDiscovered(p.clone())));
            push_action(&mut out, SwarmAction::AddExplicitPeer(p));
        } else {
            push_action(&mut out, log_action("mDNS discovered peer has expired: ", p.as_str()));
            push_action(&mut out, SwarmAction::Notify(NetworkEvent::PeerExpired(p.clone())));
            push_action(&mut out, SwarmAction::RemoveExplicitPeer(p));
        }
    }
    assert(ids.take(n as int) =~= ids);
    out
}

impl NetworkState {
    /// The state of a node that starts with `config` under the identity `peer_id`.
    pub fn new(config: &Config, peer_id: String) -> (s: Self)
        ensures
            s.history.samples() == Seq::<u32>::empty(),
            s.history.window() == config.moving_average_window,
            s.signal_threshold == config.signal_threshold,
            s.peer_id == peer_id,
    {
        NetworkState {
            history: SignalHistory::new(config.moving_average_window),
            signal_threshold: config.signal_threshold,
            peer_id,
        }
    }

    /// Decides what the network task does about `input`.
    pub fn step(&mut self, input: SwarmInput) -> (actions: Vec<SwarmAction>)
        ensures
            final(self).signal_threshold == old(self).signal_threshold,
            final(self).peer_id == old(self).peer_id,
            final(self).history.window() == old(self).history.window(),
            final(self).history.samples() == samples_after(
                old(self).history.samples(),
                old(self).history.window(),
                input,
            ),
            actions_view(actions@) == step_actions(
                old(self).history.samples(),
                old(self).history.window(),
                old(self).signal_threshold,
                input,
            ),
    {
        let mut out: Vec<SwarmAction> = Vec::new();
        assert(actions_view(out@) =~= Seq::<ActionView>::empty());
        match input {
            SwarmInput::Polled(Ok(stats)) => {
                let signal = stats.signal;
                let channel = stats.channel;
                let bssid = stats.bssid.clone();
                let avg = self.history.add(signal);
                let below = avg.is_below(self.signal_threshold);
                push_action(&mut out, SwarmAction::Notify(NetworkEvent::StatsUpdate(stats, avg)));
                if below {
                    push_action(
                        &mut out,
                        SwarmAction::Publish(AlertReport { signal, average: avg, bssid, channel }),
                    );
                }
            },
            SwarmInput::Polled(Err(e)) => {
                let m = e.message();
                push_action(&mut out, log_action("Error accessing WLAN API: ", m.as_str()));
            },
            SwarmInput::PeersDiscovered(peers) => {
                out = discovery_actions(&peers, true);
            },
            SwarmInput::PeersExpired(peers) => {
                out = discovery_actions(&peers, false);
            },
            SwarmInput::Gossip { source, alert, hardware } => {
                match alert {
                    Some(a) => {
                        push_action(&mut out, SwarmAction::Notify(NetworkEvent::AlertReceived(a)));
                    },
                    None => match hardware {
                        Some(h) => {
                            let line = hardware_log_line(h.dev.as_str(), h.alert_type.as_str(), h.ch);
                            push_action(&mut out, SwarmAction::Notify(NetworkEvent::Log(line)));
                        },
                        None => {
                            push_action(
                                &mut out,
                                log_action(
                                    "Received unknown Gossipsub message from ",
                                    source.as_str(),
                                ),
                            );
                        },
                    },
                }
            },
            SwarmInput::Command(NetworkCommand::PublishHardwareAlert { dev, ch, pwr, alert_type }) => {
                push_action(
                    &mut out,
                    SwarmAction::PublishHardware(HardwareAlert { dev, ch, pwr, alert_type }),
                );
            },
            SwarmInput::ListeningOn(address) => {
                push_action(&mut out, log_action("Local node is listening on ", address.as_str()));
            },
            SwarmInput::ConnectionClosed(peer) => {
                push_action(&mut out, log_action("Connection closed with peer: ", peer.as_str()));
                push_action(&mut out, SwarmAction::Notify(NetworkEvent::PeerExpired(peer.clone())));
                push_action(&mut out, SwarmAction::RemoveExplicitPeer(peer));
            },
        }
        out
    }
}

/// The event that announces the identity of the local node.
pub fn local_peer_announcement(peer_id: &str) -> (e: NetworkEvent)
    ensures
        e@ == EventView::Log(announcement_line(peer_id@)),
{
    let mut line = String::from_str("Local Peer ID: ");
    line.append(peer_id);
    NetworkEvent::Log(line)
}


/// A poll raises an alert when every reading held after it, its own included,
/// is below the threshold, and raises none when none of them is.
pub proof fn lemma_poll_alerts_on_sustained_drop(
    samples: Seq<u32>,
    window: nat,
    threshold: u32,
    stats: WifiStatsView,
)
    requires
        samples.len() < usize::MAX,
    ensures
        ({
            let kept = record_sample(samples, window, stats.signal);
            let actions = poll_actions(samples, window, threshold, Ok(stats));
            &&& kept.len() > 0 && (forall|i: int| 0 <= i < kept.len() ==> kept[i] < threshold)
                ==> actions.len() == 2 && actions[1] is Publish
            &&& (forall|i: int| 0 <= i < kept.len() ==> kept[i] >= threshold) ==> actions.len()
                == 1
        }),
{
    let kept = record_sample(samples, window, stats.signal);
    let avg = average_after(samples, window, stats.signal);
    lemma_sum_at_most(kept);
    assert(kept.len() * 0xffff_ffff <= usize::MAX * 0xffff_ffff) by (nonlinear_arith)
        requires
            kept.len() <= usize::MAX,
    ;
    assert(is_average_of(avg, kept));
    lemma_uniform_window_decides(avg, kept, threshold);
}


/// A poll reports the average of the readings the window holds after it, and
/// gossips an alert exactly when that average lies strictly below the
/// threshold. Whatever readings came before (`feed`, the last of which is the
/// one just polled), the window holds the latest `window` of them, the update
/// carries their exact sum and count, and the alert carries the polled reading,
/// the same average, the access point and the channel.
pub proof fn lemma_poll_follows_window_average(
    window: nat,
    threshold: u32,
    feed: Seq<u32>,
    stats: WifiStatsView,
)
    requires
        feed.len() > 0,
        feed.last() == stats.signal,
        feed.len() < usize::MAX,
    ensures
        ({
            let held = if feed.len() > window {
                feed.subrange(feed.len() - window, feed.len() as int)
            } else {
                feed
            };
            let actions = poll_actions(record_all(window, feed.drop_last()), window, threshold, Ok(stats));
            &&& 1 <= actions.len() <= 2
            &&& actions[0] matches ActionView::Notify(EventView::StatsUpdate(s, a)) && s == stats
                && a.sum == sample_sum(held) && a.count == held.len()
            &&& (actions.len() == 2 <==> (held.len() > 0 && sample_sum(held) < threshold * held.len()))
            &&& actions.len() == 2 ==> (actions[1] matches ActionView::Publish(r) && r.signal
                == stats.signal && r.average.sum == sample_sum(held) && r.average.count == held.len()
                && r.bssid == stats.bssid && r.channel == stats.channel)
        }),
{
    let prev = feed.drop_last();
    lemma_history_keeps_latest(window, feed);
    assert(record_all(window, feed) == record_sample(record_all(window, prev), window, feed.last()));
    let held = record_all(window, feed);
    lemma_sum_at_most(held);
    assert(held.len() <= feed.len()) by {
        if feed.len() > window {
        }
    }
    assert(held.len() * 0xffff_ffff <= usize::MAX * 0xffff_ffff) by (nonlinear_arith)
        requires
            held.len() <= usize::MAX,
    ;
}

/// For peers `p_0 .. p_{n-1}` that discovery finds, the actions are three per
/// peer, in order: the log line `mDNS discovered a new peer: p_i`, the
/// discovery event for `p_i`, and `p_i` becoming an explicit gossip peer.
pub proof fn lemma_discovery_reports_every_peer(peers: Seq<Seq<char>>)
    ensures
        discovered_actions(peers).len() == 3 * peers.len(),
        forall|i: int|
            0 <= i < peers.len() ==> {
                &&& discovered_actions(peers)[3 * i] == ActionView::Notify(
                    EventView::Log("mDNS discovered a new peer: "@ + peers[i]),
                )
                &&& discovered_actions(peers)[3 * i + 1] == ActionView::Notify(
                    EventView::PeerDiscovered(peers[i]),
                )
                &&& #[trigger] discovered_actions(peers)[3 * i + 2] == ActionView::AddExplicitPeer(
                    peers[i],
                )
            },
    decreases peers.len(),
{
    if peers.len() > 0 {
        let prev = peers.drop_last();
        lemma_discovery_reports_every_peer(prev);
        assert forall|i: int| 0 <= i < prev.len() implies prev[i] == peers[i] by {}
    }
}

/// For peers `p_0 .. p_{n-1}` that discovery loses, the actions are three per
/// peer, in order: the log line `mDNS discovered peer has expired: p_i`, the
/// expiry event for `p_i`, and the removal of `p_i` from the explicit gossip
/// peers.
pub proof fn lemma_expiry_reports_every_peer(peers: Seq<Seq<char>>)
    ensures
        expired_actions(peers).len() == 3 * peers.len(),
        forall|i: int|
            0 <= i < peers.len() ==> {
                &&& expired_actions(peers)[3 * i] == ActionView::Notify(
                    EventView::Log("mDNS discovered peer has expired: "@ + peers[i]),
                )
                &&& expired_actions(peers)[3 * i + 1] == ActionView::Notify(
                    EventView::PeerExpired(peers[i]),
                )
                &&& #[trigger] expired_actions(peers)[3 * i + 2] == ActionView::RemoveExplicitPeer(
                    peers[i],
                )
            },
    decreases peers.len(),
{
    if peers.len() > 0 {
        let prev = peers.drop_last();
        lemma_expiry_reports_every_peer(prev);
        assert forall|i: int| 0 <= i < prev.len() implies prev[i] == peers[i] by {}
    }
}

/// A gossip message that holds an interference alert hands exactly that
/// alert, unchanged, to the dashboard, whoever relayed the message and
/// whatever else it holds; nothing else happens and the history is untouched.
pub proof fn lemma_gossiped_alert_reaches_dashboard_unchanged(
    samples: Seq<u32>,
    window: nat,
    threshold: u32,
    source: String,
    alert: ProbeAlert,
    hardware: Option<HardwareAlert>,
)
    ensures
        step_actions(
            samples,
            window,
            threshold,
            SwarmInput::Gossip { source, alert: Some(alert), hardware },
        ) == seq![ActionView::Notify(EventView::AlertReceived(alert))],
        samples_after(samples, window, SwarmInput::Gossip { source, alert: Some(alert), hardware })
            == samples,
{
}

} // verus!
