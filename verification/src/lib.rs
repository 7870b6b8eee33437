//! Verified core of an ECS-driven network plugin: channel routing, node
//! state, reconnect policy, transformer bookkeeping and the decisions that
//! transports take between their reads and writes.

pub mod payload;
pub mod error;
pub mod network_node;
pub mod network;
pub mod channels;
pub mod client;
pub mod transformer;
pub mod transports;
pub mod shared;
pub mod addr_text;
pub mod event;
