//! Control-plane client for a peer-to-peer UDP tunnel.
//!
//! Given a rendezvous coordinator, the client registers its UDP socket,
//! watches the coordinator's presence channel for the address of one named
//! peer, exchanges `vpn-ping` / `vpn-pong` probes with that peer, and drives a
//! session state machine from `Unresolved` to `Established` before an overall
//! deadline, or fails with a timeout.
//!
//! The crate holds the verified logic: wire codecs, the presence table, the
//! session state machine, and the packet/device helpers of the capture side.
//! Socket, websocket and capture I/O live outside the library and feed it
//! plain values.

pub mod capture;
pub mod codec;
pub mod device;
pub mod json;
pub mod packet;
pub mod presence;
pub mod session;
pub mod text;
