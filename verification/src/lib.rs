//! Verified core of a small WebRTC client: text helpers, peer-connection
//! event reports, the data-channel watchers, the signaling session plans and
//! RTP forwarding.

pub mod util;
pub mod report;
pub mod channel;
pub mod session;
pub mod config;
pub mod rtp;
