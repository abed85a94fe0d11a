use netprobe::config::{resolve_config, Config};
use netprobe::history::{Average, SignalHistory};

#[test]
fn default_config_values() {
    let c = Config::default();
    assert_eq!(c.poll_interval_secs, 15);
    assert_eq!(c.signal_threshold, 70);
    assert_eq!(c.moving_average_window, 3);
}

#[test]
fn stored_config_is_used_as_is() {
    let stored = Config { poll_interval_secs: 5, signal_threshold: 55, moving_average_window: 7 };
    let (c, write_back) = resolve_config(Some(stored));
    assert_eq!(c, stored);
    assert!(!write_back);
}

#[test]
fn missing_config_falls_back_to_defaults_and_is_written() {
    let (c, write_back) = resolve_config(None);
    assert_eq!(c, Config::default());
    assert!(write_back);
}

#[test]
fn history_averages_over_window() {
    let mut h = SignalHistory::new(3);
    assert_eq!(h.add(90), Average { sum: 90, count: 1 });
    assert_eq!(h.add(60), Average { sum: 150, count: 2 });
    assert_eq!(h.add(30), Average { sum: 180, count: 3 });
    // the oldest sample (90) leaves
    assert_eq!(h.add(60), Average { sum: 150, count: 3 });
    assert_eq!(h.add(60), Average { sum: 150, count: 3 });
    assert_eq!(h.add(60), Average { sum: 180, count: 3 });
}

#[test]
fn history_keeps_only_latest_samples() {
    let mut h = SignalHistory::new(2);
    let feed = [10u32, 20, 30, 40, 50];
    let mut last = Average { sum: 0, count: 0 };
    for v in feed {
        last = h.add(v);
    }
    assert_eq!(last, Average { sum: 90, count: 2 });
}

#[test]
fn zero_window_holds_nothing() {
    let mut h = SignalHistory::new(0);
    let avg = h.add(10);
    assert_eq!(avg, Average { sum: 0, count: 0 });
    assert!(!avg.is_below(70));
}

#[test]
fn large_samples_do_not_overflow() {
    let mut h = SignalHistory::new(4);
    for _ in 0..4 {
        h.add(u32::MAX);
    }
    let avg = h.add(u32::MAX);
    assert_eq!(avg, Average { sum: 4 * (u32::MAX as u128), count: 4 });
    assert!(!avg.is_below(u32::MAX));
}

#[test]
fn average_below_threshold_is_strict() {
    assert!(Average { sum: 209, count: 3 }.is_below(70));
    assert!(!Average { sum: 210, count: 3 }.is_below(70));
    assert!(!Average { sum: 0, count: 0 }.is_below(70));
    assert!(Average { sum: 0, count: 1 }.is_below(1));
}

#[test]
fn uniform_window_decides_alert() {
    let mut low = SignalHistory::new(3);
    low.add(10);
    low.add(20);
    assert!(low.add(69).is_below(70));
    let mut high = SignalHistory::new(3);
    high.add(70);
    high.add(100);
    assert!(!high.add(70).is_below(70));
}
