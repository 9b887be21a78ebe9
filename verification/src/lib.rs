//! Packet codec and connection logic for a game relay/proxy server.
pub mod outside;
pub mod wire;
pub mod packet_type;
pub mod error;
pub mod packet;
pub mod addr;
pub mod server;
pub mod relay;
pub mod proxy;
pub mod reverse_proxy;

