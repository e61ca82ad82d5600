//! A gateway that exposes a Bluetooth Low Energy peripheral over an IP network.
//!
//! The crate holds the decisions of both ends of the bridge: the topology model
//! and its mapping from and to the two BLE stacks, the validation done by the
//! gateway service next to the device, and the per-characteristic event router
//! that turns local GATT events into remote calls.

pub mod discovery;
pub mod error;
pub mod flags;
pub mod gateway;
pub mod gateway_laws;
pub mod gatt_uuid;
pub mod native;
pub mod peripheral;
pub mod router;
pub mod router_laws;
pub mod topology;
pub mod topology_laws;
