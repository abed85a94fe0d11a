# netprobe

A WiFi disruption detector for a local mesh of machines. Each node polls its
WiFi interface, keeps a moving average of the signal quality, gossips an alert
to its peers when the average falls below a threshold, relays anomalies that
hardware sentinels report over UDP, and shows everything on a terminal
dashboard.

Layout:

- `src/` holds the logic, verified with Verus:
  - `history.rs`: the window of recent signal samples and its exact average;
  - `wifi.rs`: reading the reports of `netsh` and `nmcli`;
  - `pattern.rs`: the regular expressions those readers use;
  - `text.rs`: decimal numbers, substring search and replacement, line splitting;
  - `network.rs`: what the network task does about each swarm event;
  - `app.rs`: the dashboard state (peers, alerts, logs, identity, quitting);
  - `bridge.rs`: relaying sentinel reports;
  - `config.rs`: node settings and their defaults.
- `app/` holds the program around it: terminal drawing, the libp2p swarm,
  the UDP socket, running the interface commands, JSON files and messages.
- `tests/` exercises the library on concrete values.
