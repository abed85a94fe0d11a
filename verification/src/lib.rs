//! Monitoring core of a peer-to-peer WiFi disruption detector.
//!
//! The library holds the decisions of the probe: how the signal average is
//! kept, when an alert is raised, how interface reports are read, what the
//! network task answers to swarm events, and how the dashboard state evolves.
//! Terminal drawing, sockets and the swarm itself live outside of it.

pub mod app;
pub mod bridge;
pub mod clock;
pub mod config;
pub mod history;
pub mod network;
pub mod pattern;
pub mod text;
pub mod wifi;
