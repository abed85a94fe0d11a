use netprobe::bridge::{HardwareAlert, NetworkCommand};
use netprobe::config::Config;
use netprobe::history::Average;
use netprobe::network::{
    local_peer_announcement, NetworkEvent, NetworkState, ProbeAlert, SwarmAction, SwarmInput,
};
use netprobe::wifi::{WifiError, WifiStats};

fn stats(signal: u32) -> WifiStats {
    WifiStats {
        signal,
        receive_rate: "100".to_string(),
        transmit_rate: "90".to_string(),
        bssid: "aa:bb".to_string(),
        channel: 6,
    }
}

fn state() -> NetworkState {
    NetworkState::new(&Config::default(), "12D3KooWpeer".to_string())
}

fn log_text(a: &SwarmAction) -> &str {
    match a {
        SwarmAction::Notify(NetworkEvent::Log(m)) => m.as_str(),
        _ => panic!("not a log action"),
    }
}

#[test]
fn good_signal_only_updates_dashboard() {
    let mut s = state();
    let actions = s.step(SwarmInput::Polled(Ok(stats(90))));
    assert_eq!(actions.len(), 1);
    match &actions[0] {
        SwarmAction::Notify(NetworkEvent::StatsUpdate(st, avg)) => {
            assert_eq!(st.signal, 90);
            assert_eq!(*avg, Average { sum: 90, count: 1 });
        }
        _ => panic!("expected a stats update"),
    }
}

#[test]
fn low_average_publishes_alert() {
    let mut s = state();
    s.step(SwarmInput::Polled(Ok(stats(90))));
    let actions = s.step(SwarmInput::Polled(Ok(stats(30))));
    // average (90 + 30) / 2 = 60 < 70
    assert_eq!(actions.len(), 2);
    match &actions[1] {
        SwarmAction::Publish(r) => {
            assert_eq!(r.signal, 30);
            assert_eq!(r.average, Average { sum: 120, count: 2 });
            assert_eq!(r.bssid, "aa:bb");
            assert_eq!(r.channel, 6);
        }
        _ => panic!("expected an alert"),
    }
}

#[test]
fn average_at_threshold_does_not_publish() {
    let mut s = state();
    s.step(SwarmInput::Polled(Ok(stats(80))));
    let actions = s.step(SwarmInput::Polled(Ok(stats(60))));
    assert_eq!(actions.len(), 1);
}

#[test]
fn sustained_drop_publishes() {
    let mut s = state();
    for _ in 0..3 {
        s.step(SwarmInput::Polled(Ok(stats(100))));
    }
    let mut last = Vec::new();
    for _ in 0..3 {
        last = s.step(SwarmInput::Polled(Ok(stats(10))));
    }
    assert_eq!(last.len(), 2);
    assert!(matches!(last[1], SwarmAction::Publish(_)));
}

#[test]
fn failed_poll_is_logged() {
    let mut s = state();
    let actions = s.step(SwarmInput::Polled(Err(WifiError::SignalNotFound)));
    assert_eq!(actions.len(), 1);
    assert_eq!(log_text(&actions[0]), "Error accessing WLAN API: Could not find Signal strength");
    let failed = s.step(SwarmInput::Polled(Err(WifiError::CommandFailed(
        "No such file or directory (os error 2)".to_string(),
    ))));
    assert_eq!(log_text(&failed[0]), "Error accessing WLAN API: No such file or directory (os error 2)");
}

#[test]
fn discovered_peers_are_logged_announced_and_added() {
    let mut s = state();
    let actions = s.step(SwarmInput::PeersDiscovered(vec!["A".to_string(), "B".to_string()]));
    assert_eq!(actions.len(), 6);
    assert_eq!(log_text(&actions[0]), "mDNS discovered a new peer: A");
    assert!(matches!(&actions[1], SwarmAction::Notify(NetworkEvent::PeerDiscovered(p)) if p == "A"));
    assert!(matches!(&actions[2], SwarmAction::AddExplicitPeer(p) if p == "A"));
    assert_eq!(log_text(&actions[3]), "mDNS discovered a new peer: B");
    assert!(matches!(&actions[5], SwarmAction::AddExplicitPeer(p) if p == "B"));
}

#[test]
fn expired_peers_are_logged_and_removed() {
    let mut s = state();
    let actions = s.step(SwarmInput::PeersExpired(vec!["A".to_string()]));
    assert_eq!(actions.len(), 3);
    assert_eq!(log_text(&actions[0]), "mDNS discovered peer has expired: A");
    assert!(matches!(&actions[1], SwarmAction::Notify(NetworkEvent::PeerExpired(p)) if p == "A"));
    assert!(matches!(&actions[2], SwarmAction::RemoveExplicitPeer(p) if p == "A"));
}

#[test]
fn gossip_alert_reaches_dashboard() {
    let mut s = state();
    let alert = ProbeAlert {
        peer_id: "peer".to_string(),
        signal: 20,
        avg_signal_bits: 25.5f32.to_bits(),
        bssid: "aa".to_string(),
        channel: 1,
        timestamp: 1_700_000_000,
    };
    let actions = s.step(SwarmInput::Gossip { source: "peer".to_string(), alert: Some(alert), hardware: None });
    assert_eq!(actions.len(), 1);
    match &actions[0] {
        SwarmAction::Notify(NetworkEvent::AlertReceived(a)) => {
            assert_eq!(a.signal, 20);
            assert_eq!(f32::from_bits(a.avg_signal_bits), 25.5);
        }
        _ => panic!("expected the alert"),
    }
}

#[test]
fn unknown_gossip_is_logged() {
    let mut s = state();
    let actions = s.step(SwarmInput::Gossip { source: "peerX".to_string(), alert: None, hardware: None });
    assert_eq!(log_text(&actions[0]), "Received unknown Gossipsub message from peerX");
}

#[test]
fn listen_address_and_closed_connection() {
    let mut s = state();
    let a = s.step(SwarmInput::ListeningOn("/ip4/127.0.0.1/tcp/4242".to_string()));
    assert_eq!(log_text(&a[0]), "Local node is listening on /ip4/127.0.0.1/tcp/4242");
    let c = s.step(SwarmInput::ConnectionClosed("P".to_string()));
    assert_eq!(c.len(), 3);
    assert_eq!(log_text(&c[0]), "Connection closed with peer: P");
    assert!(matches!(&c[1], SwarmAction::Notify(NetworkEvent::PeerExpired(p)) if p == "P"));
    assert!(matches!(&c[2], SwarmAction::RemoveExplicitPeer(p) if p == "P"));
}

#[test]
fn announcement_text() {
    match local_peer_announcement("12D3KooWabc") {
        NetworkEvent::Log(m) => assert_eq!(m, "Local Peer ID: 12D3KooWabc"),
        _ => panic!("expected a log line"),
    }
}

#[test]
fn hardware_command_is_gossiped() {
    let mut s = state();
    let actions = s.step(SwarmInput::Command(NetworkCommand::PublishHardwareAlert {
        dev: "esp32-01".to_string(),
        ch: 6,
        pwr: -40,
        alert_type: "jammer".to_string(),
    }));
    assert_eq!(actions.len(), 1);
    match &actions[0] {
        SwarmAction::PublishHardware(h) => {
            assert_eq!(h.dev, "esp32-01");
            assert_eq!((h.ch, h.pwr), (6, -40));
            assert_eq!(h.alert_type, "jammer");
        }
        _ => panic!("expected a hardware alert to gossip"),
    }
}

#[test]
fn gossiped_hardware_alert_is_logged() {
    let mut s = state();
    let hardware = HardwareAlert { dev: "esp32-02".to_string(), ch: 11, pwr: -55, alert_type: "burst".to_string() };
    let actions = s.step(SwarmInput::Gossip { source: "peer".to_string(), alert: None, hardware: Some(hardware) });
    assert_eq!(actions.len(), 1);
    assert_eq!(log_text(&actions[0]), "[Hardware] Alert from esp32-02: burst on Ch 11");
}
