use netprobe::app::{short_peer_id, signal_level, App, SignalLevel, MAX_ALERTS, MAX_LOGS};
use netprobe::bridge::{relay_sensor_data, NetworkCommand, RfAlert, SensorData};
use netprobe::config::Config;
use netprobe::history::Average;
use netprobe::network::{local_peer_announcement, NetworkEvent, ProbeAlert};
use netprobe::wifi::WifiStats;

fn app() -> App {
    App::new("Initializing...".to_string(), Config::default())
}

fn alert(signal: u32) -> ProbeAlert {
    ProbeAlert {
        peer_id: "p".to_string(),
        signal,
        avg_signal_bits: 0,
        bssid: "b".to_string(),
        channel: 1,
        timestamp: 0,
    }
}

#[test]
fn new_dashboard_is_empty() {
    let a = app();
    assert!(a.wifi_stats.is_none());
    assert!(a.avg_signal.is_none());
    assert!(a.peers.is_empty() && a.alerts.is_empty() && a.logs.is_empty());
    assert_eq!(a.local_peer_id, "Initializing...");
    assert!(!a.should_quit);
}

#[test]
fn alerts_are_capped() {
    let mut a = app();
    for i in 0..(MAX_ALERTS as u32 + 5) {
        a.add_alert(alert(i));
    }
    assert_eq!(a.alerts.len(), MAX_ALERTS);
    assert_eq!(a.alerts.front().unwrap().signal, 5);
    assert_eq!(a.alerts.back().unwrap().signal, MAX_ALERTS as u32 + 4);
}

#[test]
fn logs_are_capped_and_stamped() {
    let mut a = app();
    for i in 0..(MAX_LOGS + 3) {
        a.add_log_stamped("12:00:00", format!("m{}", i));
    }
    assert_eq!(a.logs.len(), MAX_LOGS);
    assert_eq!(a.logs.front().unwrap(), "[12:00:00] m3");
    assert_eq!(a.logs.back().unwrap(), &format!("[12:00:00] m{}", MAX_LOGS + 2));
}

#[test]
fn add_log_uses_clock() {
    let mut a = app();
    a.add_log("hello".to_string());
    let line = a.logs.back().unwrap();
    assert!(line.starts_with('['));
    assert!(line.ends_with("] hello"));
    assert_eq!(line.len(), "[HH:MM:SS] hello".len());
    let stamp: Vec<char> = line[1..9].chars().collect();
    assert_eq!((stamp[2], stamp[5]), (':', ':'));
    for i in [0, 1, 3, 4, 6, 7] {
        assert!(stamp[i].is_ascii_digit());
    }
    let two = |i: usize| stamp[i].to_digit(10).unwrap() * 10 + stamp[i + 1].to_digit(10).unwrap();
    assert!(two(0) <= 23 && two(3) <= 59 && two(6) <= 60);
}

#[test]
fn peers_are_recorded_once_and_forgotten() {
    let mut a = app();
    a.handle_event(NetworkEvent::PeerDiscovered("A".to_string()));
    a.handle_event(NetworkEvent::PeerDiscovered("B".to_string()));
    a.handle_event(NetworkEvent::PeerDiscovered("A".to_string()));
    assert_eq!(a.peers, vec!["A".to_string(), "B".to_string()]);
    a.handle_event(NetworkEvent::PeerExpired("A".to_string()));
    assert_eq!(a.peers, vec!["B".to_string()]);
    a.handle_event(NetworkEvent::PeerExpired("Z".to_string()));
    assert_eq!(a.peers, vec!["B".to_string()]);
}

#[test]
fn stats_update_replaces_readings() {
    let mut a = app();
    let s = WifiStats {
        signal: 55,
        receive_rate: "1".to_string(),
        transmit_rate: "2".to_string(),
        bssid: "x".to_string(),
        channel: 3,
    };
    a.handle_event(NetworkEvent::StatsUpdate(s, Average { sum: 110, count: 2 }));
    assert_eq!(a.wifi_stats.as_ref().unwrap().signal, 55);
    assert_eq!(a.avg_signal, Some(Average { sum: 110, count: 2 }));
}

#[test]
fn received_alert_is_newest() {
    let mut a = app();
    a.handle_event(NetworkEvent::AlertReceived(alert(11)));
    a.handle_event(NetworkEvent::AlertReceived(alert(22)));
    assert_eq!(a.alerts.back().unwrap().signal, 22);
    assert_eq!(a.alerts.len(), 2);
}

#[test]
fn announced_identity_is_shown() {
    let mut a = app();
    a.handle_event(local_peer_announcement("12D3KooWxyz"));
    assert_eq!(a.local_peer_id, "12D3KooWxyz");
    assert!(a.logs.back().unwrap().ends_with("] Local Peer ID: 12D3KooWxyz"));
}

#[test]
fn ordinary_log_keeps_identity() {
    let mut a = app();
    a.handle_event(NetworkEvent::Log("Configuration loaded".to_string()));
    assert_eq!(a.local_peer_id, "Initializing...");
    assert_eq!(a.logs.len(), 1);
}

#[test]
fn q_quits() {
    let mut a = app();
    a.handle_key('x');
    assert!(!a.should_quit);
    a.handle_key('q');
    assert!(a.should_quit);
    a.handle_key('x');
    assert!(a.should_quit);
}

#[test]
fn gauge_levels() {
    assert_eq!(signal_level(100), SignalLevel::Strong);
    assert_eq!(signal_level(71), SignalLevel::Strong);
    assert_eq!(signal_level(70), SignalLevel::Fair);
    assert_eq!(signal_level(41), SignalLevel::Fair);
    assert_eq!(signal_level(40), SignalLevel::Weak);
    assert_eq!(signal_level(0), SignalLevel::Weak);
}

#[test]
fn peer_ids_are_shortened() {
    assert_eq!(short_peer_id("12D3KooWabcdef"), "12D3KooW");
    assert_eq!(short_peer_id("12345678"), "12345678");
    assert_eq!(short_peer_id("abc"), "abc");
}

#[test]
fn sensor_alerts_are_relayed() {
    let data = SensorData {
        dev: "esp32-01".to_string(),
        status: "ok".to_string(),
        alerts: vec![
            RfAlert { ch: 6, pwr: -40, alert_type: "jammer".to_string() },
            RfAlert { ch: 112, pwr: -70, alert_type: "burst".to_string() },
        ],
    };
    let out = relay_sensor_data(&data);
    assert_eq!(out.len(), 2);
    match &out[0] {
        (NetworkEvent::Log(m), NetworkCommand::PublishHardwareAlert { dev, ch, pwr, alert_type }) => {
            assert_eq!(m, "[Hardware] Alert from esp32-01: jammer on Ch 6");
            assert_eq!(dev, "esp32-01");
            assert_eq!((*ch, *pwr), (6, -40));
            assert_eq!(alert_type, "jammer");
        }
        _ => panic!("expected a log line and a command"),
    }
    match &out[1] {
        (NetworkEvent::Log(m), NetworkCommand::PublishHardwareAlert { ch, .. }) => {
            assert_eq!(m, "[Hardware] Alert from esp32-01: burst on Ch 112");
            assert_eq!(*ch, 112);
        }
        _ => panic!("expected a log line and a command"),
    }
}

#[test]
fn forgetting_undoes_recording() {
    let mut a = app();
    a.handle_event(NetworkEvent::PeerDiscovered("A".to_string()));
    a.handle_event(NetworkEvent::PeerDiscovered("B".to_string()));
    let before = a.peers.clone();
    a.handle_event(NetworkEvent::PeerDiscovered("C".to_string()));
    a.handle_event(NetworkEvent::PeerExpired("C".to_string()));
    assert_eq!(a.peers, before);
}

#[test]
fn peers_stay_distinct_through_events() {
    let mut a = app();
    for p in ["A", "B", "A", "C", "B"] {
        a.handle_event(NetworkEvent::PeerDiscovered(p.to_string()));
    }
    a.handle_event(NetworkEvent::PeerExpired("C".to_string()));
    a.handle_event(NetworkEvent::PeerDiscovered("C".to_string()));
    let mut sorted = a.peers.clone();
    sorted.sort();
    sorted.dedup();
    assert_eq!(sorted.len(), a.peers.len());
    assert_eq!(a.peers, vec!["A".to_string(), "B".to_string(), "C".to_string()]);
}
