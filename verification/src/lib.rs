//! Client-side implementations of the SOCKS4 and SOCKS5 proxification
//! handshake protocols.
//!
//! The crate covers the protocol core: the binary request encoders, the
//! reply classifiers that map server status codes onto a typed error
//! taxonomy, and the phase-by-phase SOCKS5 negotiation. Each step of a
//! handshake is an ordinary function from plain values (parameter
//! bundles, reply buffers, transfer events) to plain values, with a
//! contract stating exactly which bytes are produced and how every
//! reply is classified. Driving those steps over a real socket - the
//! timeout-bounded writes and reads themselves - is left to the caller.

pub mod clients;
pub mod general;
