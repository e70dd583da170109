//! MessagePack-RPC: the wire codec for requests, responses and notifications,
//! and the per-connection state that numbers outbound calls and routes inbound
//! messages.

pub mod client;
pub mod datum;
pub mod dispatch;
pub mod endpoint;
pub mod error;
pub mod message;
pub mod outside;
pub mod reader;
pub mod wire;
pub mod writer;
