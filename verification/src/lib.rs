//! Connection lifecycle and telemetry dissemination for a single-peer
//! wireless sensor beacon.
//!
//! The device advertises itself, accepts one peer connection at a time,
//! samples two environmental sensors each second while a peer is present,
//! and pushes readings to the peer through typed data channels. This crate
//! holds the protocol-level engine: the channel registry, the peer session
//! with its push/cache semantics, the per-cycle sampling logic, and the
//! advertise/connect/serve/disconnect state machine. Radio, bus and sensor
//! transactions are the surrounding runtime's business; the engine receives
//! their results as plain values and decides everything else.

pub mod ble;
pub mod channel;
pub mod sampler;
pub mod server_loop;
pub mod session;
