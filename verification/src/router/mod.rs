//! The inbound side: the listener's accept loop and the life of one
//! accepted connection, both as state machines that the caller drives.

pub mod handler;
pub mod socks5;
