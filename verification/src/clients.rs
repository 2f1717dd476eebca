//! Client implementations of the supported proxification protocols:
//! the legacy SOCKS4 handshake and the richer SOCKS5 handshake with
//! pluggable authentication and several destination address kinds.

pub mod socks4;
pub mod socks5;
