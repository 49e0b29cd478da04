//! A local SOCKS5 relay's routing core: how to reach a target through an
//! upstream proxy, and how one inbound connection is driven from handshake
//! to relay. All I/O is left to the caller; this crate decides.

pub mod address;
pub mod proxy;
pub mod reply;
pub mod router;
pub mod url_parts;
pub mod written_port;
