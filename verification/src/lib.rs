//! A chat relay's core: the grammar of its line protocol, the registry of
//! connected sessions, the decisions of a session from handshake to
//! departure, and the transcoding done by the frame bridge.

pub mod bridge;
pub mod channel;
pub mod commands;
pub mod credentials;
pub mod exchange;
pub mod handshake;
pub mod laws;
pub mod message;
pub mod protocol;
pub mod registry;
pub mod reply;
pub mod session;
pub mod store;
pub mod style;
pub mod table;
pub mod text;
