//! Control logic for a Bluetooth adapter managed through an out-of-process
//! daemon: a local mirror of the adapter's properties, the fixed sequences
//! that make the adapter discoverable and tear it down again, and the
//! callback policies of the pairing agent and the network-bridge server.
//!
//! Every remote operation (a property write, a daemon method call) is
//! performed by the embedding program; this library decides which calls to
//! issue, in which order, and how the local state changes for every
//! possible outcome of each call.

pub mod agent;
pub mod bluetooth_manager;
pub mod pan_server;
pub mod remote;
