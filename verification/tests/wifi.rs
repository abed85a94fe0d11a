use netprobe::wifi::{netsh_reading, nmcli_line_reading, parse_netsh_output, parse_nmcli_output, WifiError};

const NETSH_REPORT: &str = "\
There is 1 interface on the system:

    Name                   : Wi-Fi
    Description            : Intel(R) Wi-Fi 6 AX201 160MHz
    Physical address       : aa:bb:cc:dd:ee:ff
    State                  : connected
    SSID                   : HomeNet
    BSSID                  : 12:34:56:78:9a:bc
    Network type           : Infrastructure
    Radio type             : 802.11ax
    Channel                : 36
    Receive rate (Mbps)    : 573.5
    Transmit rate (Mbps)   : 480
    Signal                 : 87%
    Profile                : HomeNet
";

#[test]
fn netsh_report_is_read() {
    let s = parse_netsh_output(NETSH_REPORT).unwrap();
    assert_eq!(s.signal, 87);
    assert_eq!(s.receive_rate, "573.5");
    assert_eq!(s.transmit_rate, "480");
    assert_eq!(s.bssid, "12:34:56:78:9a:bc");
    assert_eq!(s.channel, 36);
}

#[test]
fn netsh_without_signal_is_an_error() {
    let report = "    State                  : disconnected\n    Channel                : 6\n";
    assert_eq!(parse_netsh_output(report).err(), Some(WifiError::SignalNotFound));
}

#[test]
fn netsh_missing_fields_take_defaults() {
    let s = parse_netsh_output("    Signal                 : 12%\n").unwrap();
    assert_eq!(s.signal, 12);
    assert_eq!(s.receive_rate, "");
    assert_eq!(s.transmit_rate, "");
    assert_eq!(s.bssid, "Unknown");
    assert_eq!(s.channel, 0);
}

#[test]
fn netsh_oversized_signal_reads_as_zero() {
    let s = parse_netsh_output("Signal : 99999999999%").unwrap();
    assert_eq!(s.signal, 0);
}

#[test]
fn nmcli_listing_is_read() {
    let listing = "no:40:130 Mbit/s:AA\\:BB\\:CC\\:DD\\:EE\\:FF:11\nyes:82:270 Mbit/s:12\\:34\\:56\\:78\\:9A\\:BC:36\n";
    let s = parse_nmcli_output(listing).unwrap();
    assert_eq!(s.signal, 82);
    assert_eq!(s.receive_rate, "270");
    assert_eq!(s.transmit_rate, "270");
    assert_eq!(s.bssid, "12:34:56:78:9A:BC");
    assert_eq!(s.channel, 36);
}

#[test]
fn nmcli_first_active_line_wins() {
    let listing = "yes:50:54 Mbit/s:AA\\:AA:1\nyes:90:300 Mbit/s:BB\\:BB:2";
    let s = parse_nmcli_output(listing).unwrap();
    assert_eq!(s.signal, 50);
    assert_eq!(s.bssid, "AA:AA");
    assert_eq!(s.channel, 1);
}

#[test]
fn nmcli_without_active_connection_is_an_error() {
    let listing = "no:40:130 Mbit/s:AA\\:BB:11\n";
    assert_eq!(parse_nmcli_output(listing).err(), Some(WifiError::NoActiveConnection));
    assert_eq!(parse_nmcli_output("").err(), Some(WifiError::NoActiveConnection));
}

#[test]
fn error_messages() {
    assert_eq!(WifiError::SignalNotFound.message(), "Could not find Signal strength");
    assert_eq!(WifiError::NoActiveConnection.message(), "No active WiFi connection found via nmcli");
    assert_eq!(WifiError::UnsupportedPlatform.message(), "Platform not supported for WiFi monitoring");
    assert_eq!(WifiError::InvalidPattern.message(), "Invalid interface pattern");
    assert_eq!(
        WifiError::CommandFailed("No such file or directory (os error 2)".to_string()).message(),
        "No such file or directory (os error 2)"
    );
}

fn some(t: &str) -> Option<String> {
    Some(t.to_string())
}

#[test]
fn netsh_reading_from_groups() {
    let s = netsh_reading(some("64"), some("54"), None, None, some("x11")).unwrap();
    assert_eq!(s.signal, 64);
    assert_eq!(s.receive_rate, "54");
    assert_eq!(s.transmit_rate, "");
    assert_eq!(s.bssid, "Unknown");
    assert_eq!(s.channel, 0);
    assert_eq!(netsh_reading(None, some("1"), some("2"), some("b"), some("3")).err(), Some(WifiError::SignalNotFound));
    assert_eq!(netsh_reading(some("abc"), None, None, some("aa:bb"), some("6")).unwrap().signal, 0);
}

#[test]
fn nmcli_line_reading_from_groups() {
    let found = Some(vec![some("yes:70:54 Mbit/s:A\\:B:6"), some("70"), some("54 Mbit/s"), some("A\\:B"), some("6")]);
    let s = nmcli_line_reading(&found).unwrap();
    assert_eq!(s.signal, 70);
    assert_eq!(s.receive_rate, "54");
    assert_eq!(s.transmit_rate, "54");
    assert_eq!(s.bssid, "A:B");
    assert_eq!(s.channel, 6);
    let partial = Some(vec![some("x"), None, None, None, None]);
    let p = nmcli_line_reading(&partial).unwrap();
    assert_eq!((p.signal, p.receive_rate.as_str(), p.bssid.as_str(), p.channel), (0, "", "Unknown", 0));
}
