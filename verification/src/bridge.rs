use vstd::prelude::*;
use crate::network::{EventView, NetworkEvent};
use crate::text::{decimal, decimal_string};

verus! {

/// One anomaly that a hardware sentinel saw on a radio channel.
pub struct RfAlert {
    pub ch: u8,
    pub pwr: i16,
    /// The kind of anomaly (`type` on the wire).
    pub alert_type: String,
}

/// A report of a hardware sentinel.
pub struct SensorData {
    pub dev: String,
    pub status: String,
    pub alerts: Vec<RfAlert>,
}

/// What the bridge asks of the network task.
pub enum NetworkCommand {
    /// Gossip an anomaly that a hardware sentinel reported.
    PublishHardwareAlert { dev: String, ch: u8, pwr: i16, alert_type: String },
}

/// An anomaly of a hardware sentinel as nodes gossip it to each other.
pub struct HardwareAlert {
    pub dev: String,
    pub ch: u8,
    pub pwr: i16,
    pub alert_type: String,
}

/// The contents of a [`HardwareAlert`].
pub struct HardwareAlertView {
    pub dev: Seq<char>,
    pub ch: u8,
    pub pwr: i16,
    pub alert_type: Seq<char>,
}

impl View for HardwareAlert {
    type V = HardwareAlertView;

    open spec fn view(&self) -> HardwareAlertView {
        HardwareAlertView { dev: self.dev@, ch: self.ch, pwr: self.pwr, alert_type: self.alert_type@ }
    }
}

/// The log line for an anomaly reported by sentinel `dev`.
pub open spec fn hardware_line(dev: Seq<char>, alert_type: Seq<char>, ch: u8) -> Seq<char> {
    "[Hardware] Alert from "@ + dev + ": "@ + alert_type + " on Ch "@ + decimal(ch as nat)
}

/// Whether `out` is what the bridge forwards for anomaly `alert` of sentinel
/// `dev`: a log line for the dashboard and a command to gossip the anomaly.
pub open spec fn forwards(out: (NetworkEvent, NetworkCommand), dev: Seq<char>, alert: RfAlert) -> bool {
    &&& out.0@ == EventView::Log(hardware_line(dev, alert.alert_type@, alert.ch))
    &&& match out.1 {
        NetworkCommand::PublishHardwareAlert { dev: d, ch, pwr, alert_type } => {
            &&& d@ == dev
            &&& ch == alert.ch
            &&& pwr == alert.pwr
            &&& alert_type@ == alert.alert_type@
        },
    }
}

/// Writes the log line for an anomaly of kind `alert_type` that sentinel
/// `dev` saw on channel `ch`.
pub fn hardware_log_line(dev: &str, alert_type: &str, ch: u8) -> (line: String)
    ensures
        line@ == hardware_line(dev@, alert_type@, ch),
{
    let mut line = String::from_str("[Hardware] Alert from ");
    line.append(dev);
    line.append(": ");
    line.append(alert_type);
    line.append(" on Ch ");
    let number = decimal_string(ch as u64);
    line.append(number.as_str());
    line
}

/// What the bridge forwards for a sentinel report: for each anomaly, in
/// order, a log line and a command to gossip it.
pub fn relay_sensor_data(data: &SensorData) -> (out: Vec<(NetworkEvent, NetworkCommand)>)
    ensures
        out@.len() == data.alerts@.len(),
        forall|i: int| 0 <= i < out@.len() ==> forwards(#[trigger] out@[i], data.dev@, data.alerts@[i]),
{
    let mut out: Vec<(NetworkEvent, NetworkCommand)> = Vec::new();
    let n = data.alerts.len();
    for i in 0..n
        invariant
            n == data.alerts@.len(),
            out@.len() == i,
            forall|j: int| 0 <= j < i ==> forwards(#[trigger] out@[j], data.dev@, data.alerts@[j]),
    {
        let alert = &data.alerts[i];
        let line = hardware_log_line(data.dev.as_str(), alert.alert_type.as_str(), alert.ch);
        let command = NetworkCommand::PublishHardwareAlert {
            dev: data.dev.clone(),
            ch: alert.ch,
            pwr: alert.pwr,
            alert_type: alert.alert_type.clone(),
        };
        out.push((NetworkEvent::Log(line), command));
    }
    out
}

} // verus!
