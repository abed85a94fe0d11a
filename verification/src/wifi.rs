use vstd::prelude::*;
use crate::pattern::{Pattern, capture_group, regex_captures, regex_compiles};
use crate::text::{lines, lines_of, parse_u32, parse_u32_spec, replace, replace_all, texts};

verus! {

/// Signal quality line of `netsh wlan show interfaces`.
pub const SIGNAL_PATTERN: &'static str = "Signal\\s+:\\s+(\\d+)%";

/// Receive rate line of `netsh wlan show interfaces`.
pub const RECEIVE_RATE_PATTERN: &'static str = "Receive rate \\(Mbps\\)\\s+:\\s+([\\d.]+)";

/// Transmit rate line of `netsh wlan show interfaces`.
pub const TRANSMIT_RATE_PATTERN: &'static str = "Transmit rate \\(Mbps\\)\\s+:\\s+([\\d.]+)";

/// Access point line of `netsh wlan show interfaces`.
pub const BSSID_PATTERN: &'static str = "BSSID\\s+:\\s+([0-9a-fA-F:]+)";

/// Channel line of `netsh wlan show interfaces`.
pub const CHANNEL_PATTERN: &'static str = "Channel\\s+:\\s+(\\d+)";

/// Active connection line of `nmcli -t -f ACTIVE,SIGNAL,RATE,BSSID,CHAN dev wifi`.
pub const NMCLI_LINE_PATTERN: &'static str = "^yes:(\\d+):([^:]+):(.+):(\\d+)$";

/// The number within an `nmcli` rate field.
pub const RATE_NUMBER_PATTERN: &'static str = "([\\d.]+)";


/// What a probe reads from the WiFi interface. The rates are the text the
/// system printed for them, in Mbps (empty when it printed none).
pub struct WifiStats {
    pub signal: u32,
    pub receive_rate: String,
    pub transmit_rate: String,
    pub bssid: String,
    pub channel: u32,
}

/// The contents of a [`WifiStats`].
pub struct WifiStatsView {
    pub signal: u32,
    pub receive_rate: Seq<char>,
    pub transmit_rate: Seq<char>,
    pub bssid: Seq<char>,
    pub channel: u32,
}

impl View for WifiStats {
    type V = WifiStatsView;

    open spec fn view(&self) -> WifiStatsView {
        WifiStatsView {
            signal: self.signal,
            receive_rate: self.receive_rate@,
            transmit_rate: self.transmit_rate@,
            bssid: self.bssid@,
            channel: self.channel,
        }
    }
}

/// Why the interface could not be read.
#[derive(Clone, Debug, PartialEq, Eq)]
pub enum WifiError {
    /// A pattern the reader relies on was refused by the regular expression engine.
    InvalidPattern,
    /// The `netsh` report holds no signal quality.
    SignalNotFound,
    /// `nmcli` lists no active connection.
    NoActiveConnection,
    /// The platform offers no known way to read the interface.
    UnsupportedPlatform,
    /// The command that reports on the interface could not be run; the text
    /// describes the system error.
    CommandFailed(String),
}

/// The message that describes an error.
pub open spec fn error_message(e: WifiError) -> Seq<char> {
    match e {
        WifiError::InvalidPattern => "Invalid interface pattern"@,
        WifiError::SignalNotFound => "Could not find Signal strength"@,
        WifiError::NoActiveConnection => "No active WiFi connection found via nmcli"@,
        WifiError::UnsupportedPlatform => "Platform not supported for WiFi monitoring"@,
        WifiError::CommandFailed(detail) => detail@,
    }
}

impl WifiError {
    /// Describes the error.
    pub fn message(&self) -> (m: String)
        ensures
            m@ == error_message(*self),
    {
        match self {
            WifiError::InvalidPattern => String::from_str("Invalid interface pattern"),
            WifiError::SignalNotFound => String::from_str("Could not find Signal strength"),
            WifiError::NoActiveConnection => String::from_str(
                "No active WiFi connection found via nmcli",
            ),
            WifiError::UnsupportedPlatform => String::from_str(
                "Platform not supported for WiFi monitoring",
            ),
            WifiError::CommandFailed(detail) => detail.clone(),
        }
    }
}

/// The contents of a reading attempt.
pub open spec fn reading_view(r: Result<WifiStats, WifiError>) -> Result<WifiStatsView, WifiError> {
    match r {
        Ok(s) => Ok(s@),
        Err(e) => Err(e),
    }
}

/// A captured number, or zero when there is none or it does not read as one.
pub open spec fn number_or_zero(t: Option<Seq<char>>) -> u32 {
    match t {
        Some(x) => match parse_u32_spec(x) {
            Some(v) => v,
            None => 0,
        },
        None => 0,
    }
}

/// A captured text, or `default` when there is none.
pub open spec fn text_or(t: Option<Seq<char>>, default: Seq<char>) -> Seq<char> {
    match t {
        Some(x) => x,
        None => default,
    }
}

fn read_number(t: &Option<String>) -> (n: u32)
    ensures
        n == number_or_zero(t.deep_view()),
{
    match t {
        Some(x) => match parse_u32(x.as_str()) {
            Some(v) => v,
            None => 0,
        },
        None => 0,
    }
}

fn read_text(t: Option<String>, default: &str) -> (s: String)
    ensures
        s@ == text_or(t.deep_view(), default@),
{
    match t {
        Some(x) => x,
        None => String::from_str(default),
    }
}

/// Whether the regular expression engine accepts every pattern of the `netsh` reader.
pub open spec fn netsh_patterns_compile() -> bool {
    &&& regex_compiles(SIGNAL_PATTERN@)
    &&& regex_compiles(RECEIVE_RATE_PATTERN@)
    &&& regex_compiles(TRANSMIT_RATE_PATTERN@)
    &&& regex_compiles(BSSID_PATTERN@)
    &&& regex_compiles(CHANNEL_PATTERN@)
}

/// The first group that `pattern` captures in `text`.
pub open spec fn first_group(pattern: Seq<char>, text: Seq<char>) -> Option<Seq<char>> {
    capture_group(regex_captures(pattern, text), 1)
}

/// What the report of `netsh wlan show interfaces` says of the interface,
/// given the first group that each of its five patterns captured (signal,
/// receive rate, transmit rate, access point, channel): the signal quality is
/// required; a missing rate reads as empty, a missing access point as
/// `Unknown`, a missing channel as zero, and a number that does not read as
/// one as zero.
pub open spec fn netsh_from_groups(
    signal: Option<Seq<char>>,
    receive_rate: Option<Seq<char>>,
    transmit_rate: Option<Seq<char>>,
    bssid: Option<Seq<char>>,
    channel: Option<Seq<char>>,
) -> Result<WifiStatsView, WifiError> {
    match signal {
        None => Err(WifiError::SignalNotFound),
        Some(sig) => Ok(
            WifiStatsView {
                signal: number_or_zero(Some(sig)),
                receive_rate: text_or(receive_rate, Seq::empty()),
                transmit_rate: text_or(transmit_rate, Seq::empty()),
                bssid: text_or(bssid, "Unknown"@),
                channel: number_or_zero(channel),
            },
        ),
    }
}

/// What the report of `netsh wlan show interfaces` says of the interface.
pub open spec fn netsh_stats(output: Seq<char>) -> Result<WifiStatsView, WifiError> {
    if !netsh_patterns_compile() {
        Err(WifiError::InvalidPattern)
    } else {
        netsh_from_groups(
            first_group(SIGNAL_PATTERN@, output),
            first_group(RECEIVE_RATE_PATTERN@, output),
            first_group(TRANSMIT_RATE_PATTERN@, output),
            first_group(BSSID_PATTERN@, output),
            first_group(CHANNEL_PATTERN@, output),
        )
    }
}

/// Builds the reading of a `netsh` report from the first group that each of
/// its five patterns captured.
pub fn netsh_reading(
    signal: Option<String>,
    receive_rate: Option<String>,
    transmit_rate: Option<String>,
    bssid: Option<String>,
    channel: Option<String>,
) -> (r: Result<WifiStats, WifiError>)
    ensures
        reading_view(r) == netsh_from_groups(
            signal.deep_view(),
            receive_rate.deep_view(),
            transmit_rate.deep_view(),
            bssid.deep_view(),
            channel.deep_view(),
        ),
{
    proof {
        reveal_strlit("");
        assert(""@ =~= Seq::<char>::empty());
    }
    if signal.is_none() {
        return Err(WifiError::SignalNotFound);
    }
    let signal = read_number(&signal);
    let receive_rate = read_text(receive_rate, "");
    let transmit_rate = read_text(transmit_rate, "");
    let bssid = read_text(bssid, "Unknown");
    let channel = read_number(&channel);
    Ok(WifiStats { signal, receive_rate, transmit_rate, bssid, channel })
}

/// Reads the report of `netsh wlan show interfaces`.
pub fn parse_netsh_output(output: &str) -> (r: Result<WifiStats, WifiError>)
    ensures
        reading_view(r) == netsh_stats(output@),
{
    let signal_re = Pattern::new(SIGNAL_PATTERN);
    let rx_re = Pattern::new(RECEIVE_RATE_PATTERN);
    let tx_re = Pattern::new(TRANSMIT_RATE_PATTERN);
    let bssid_re = Pattern::new(BSSID_PATTERN);
    let channel_re = Pattern::new(CHANNEL_PATTERN);
    let (signal_re, rx_re, tx_re, bssid_re, channel_re) = match (
        signal_re,
        rx_re,
        tx_re,
        bssid_re,
        channel_re,
    ) {
        (Ok(a), Ok(b), Ok(c), Ok(d), Ok(e)) => (a, b, c, d, e),
        _ => return Err(WifiError::InvalidPattern),
    };
    netsh_reading(
        signal_re.capture(output, 1),
        rx_re.capture(output, 1),
        tx_re.capture(output, 1),
        bssid_re.capture(output, 1),
        channel_re.capture(output, 1),
    )
}

/// What one matching line of `nmcli` says of the interface, from the groups
/// that the line pattern captured in it: the rate is the first number in the
/// rate field (empty when there is none) and stands for both directions, and
/// the backslashes that escape the colons of the access point are dropped.
pub open spec fn nmcli_line_stats(found: Option<Seq<Option<Seq<char>>>>) -> Result<
    WifiStatsView,
    WifiError,
> {
    let rate_field = text_or(capture_group(found, 2), Seq::empty());
    if !regex_compiles(RATE_NUMBER_PATTERN@) {
        Err(WifiError::InvalidPattern)
    } else {
        let rate = text_or(first_group(RATE_NUMBER_PATTERN@, rate_field), Seq::empty());
        Ok(
            WifiStatsView {
                signal: number_or_zero(capture_group(found, 1)),
                receive_rate: rate,
                transmit_rate: rate,
                bssid: match capture_group(found, 3) {
                    Some(b) => replace_all(b, "\\"@, ""@),
                    None => "Unknown"@,
                },
                channel: number_or_zero(capture_group(found, 4)),
            },
        )
    }
}

/// What the lines of `nmcli` from the `k`-th on say of the interface: the
/// first line that the line pattern matches describes it.
pub open spec fn nmcli_stats_from(lines: Seq<Seq<char>>, k: int) -> Result<WifiStatsView, WifiError>
    decreases lines.len() - k,
{
    if k < 0 || k >= lines.len() {
        Err(WifiError::NoActiveConnection)
    } else if regex_captures(NMCLI_LINE_PATTERN@, lines[k]) is Some {
        nmcli_line_stats(regex_captures(NMCLI_LINE_PATTERN@, lines[k]))
    } else {
        nmcli_stats_from(lines, k + 1)
    }
}

/// What the listing of `nmcli -t -f ACTIVE,SIGNAL,RATE,BSSID,CHAN dev wifi`
/// says of the active connection.
pub open spec fn nmcli_stats(output: Seq<char>) -> Result<WifiStatsView, WifiError> {
    if !regex_compiles(NMCLI_LINE_PATTERN@) {
        Err(WifiError::InvalidPattern)
    } else {
        nmcli_stats_from(lines_of(output), 0)
    }
}

/// Builds the reading of the `nmcli` line whose search result is `found`.
pub fn nmcli_line_reading(found: &Option<Vec<Option<String>>>) -> (r: Result<WifiStats, WifiError>)
    ensures
        reading_view(r) == nmcli_line_stats(found.deep_view()),
{
    proof {
        reveal_strlit("");
        assert(""@ =~= Seq::<char>::empty());
    }
    let signal = read_number(&crate::pattern::group_of(found, 1));
    let rate_field = read_text(crate::pattern::group_of(found, 2), "");
    let bssid = match crate::pattern::group_of(found, 3) {
        Some(b) => {
            proof {
                reveal_strlit("\\");
            }
            replace(b.as_str(), "\\", "")
        },
        None => String::from_str("Unknown"),
    };
    let channel = read_number(&crate::pattern::group_of(found, 4));
    let rate_re = match Pattern::new(RATE_NUMBER_PATTERN) {
        Ok(p) => p,
        Err(_) => return Err(WifiError::InvalidPattern),
    };
    let rate = read_text(rate_re.capture(rate_field.as_str(), 1), "");
    let transmit_rate = rate.clone();
    Ok(WifiStats { signal, receive_rate: rate, transmit_rate, bssid, channel })
}

/// Reads the listing of `nmcli -t -f ACTIVE,SIGNAL,RATE,BSSID,CHAN dev wifi`.
pub fn parse_nmcli_output(output: &str) -> (r: Result<WifiStats, WifiError>)
    ensures
        reading_view(r) == nmcli_stats(output@),
{
    let line_re = match Pattern::new(NMCLI_LINE_PATTERN) {
        Ok(p) => p,
        Err(_) => return Err(WifiError::InvalidPattern),
    };
    let ls = lines(output);
    let n = ls.len();
    let mut k: usize = 0;
    while k < n
        invariant
            k <= n,
            n == ls@.len(),
            line_re@ == NMCLI_LINE_PATTERN@,
            regex_compiles(NMCLI_LINE_PATTERN@),
            texts(ls@) == lines_of(output@),
            nmcli_stats_from(lines_of(output@), 0) == nmcli_stats_from(lines_of(output@), k as int),
        decreases n - k,
    {
        let found = line_re.captures(ls[k].as_str());
        assert(texts(ls@)[k as int] == ls@[k as int]@);
        if found.is_some() {
            let r = nmcli_line_reading(&found);
            assert(regex_captures(NMCLI_LINE_PATTERN@, lines_of(output@)[k as int]) == found.deep_view());
            assert(nmcli_stats_from(lines_of(output@), k as int) == nmcli_line_stats(found.deep_view()));
            return r;
        }
        k = k + 1;
    }
    Err(WifiError::NoActiveConnection)
}

} // verus!
