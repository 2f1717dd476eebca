//! The SOCKS4 client flavor that sends an identification string with
//! the connection request.

use vstd::prelude::*;

use crate::clients::socks4::spec_request_bytes;
use crate::clients::socks4::Command;
use crate::general::ConnectionTimeouts;

verus! {

/// Parameters of a SOCKS4 connection attempt with an ident: the
/// destination address and port, the identification string's bytes,
/// and the timeout set. A reply classifier for the request this
/// encodes lives beside the shared protocol core.
pub struct Socks4General {
    /// The IPv4 address octets of the service to connect to through
    /// the proxy.
    pub dest_addr: [u8; 4],
    /// The destination service's port.
    pub dest_port: u16,
    /// The identification string's bytes (see the SOCKS4 ident
    /// lookup); an empty ident is allowed.
    pub ident: Vec<u8>,
    /// The timeout set.
    pub timeouts: ConnectionTimeouts,
}

/// An error that can occur while parsing a `Socks4General` from its
/// textual form; the parser itself lives with the I/O glue outside
/// the protocol core.
#[derive(Clone, Copy, Debug, PartialEq, Eq, Structural)]
pub enum StrParsingError {
    /// The string is not formatted appropriately for parsing.
    SyntaxError,
    /// The destination address cannot be parsed.
    InvalidAddr,
    /// The timeouts cannot be parsed.
    InvalidTimeouts,
}

impl Socks4General {
    pub fn new(dest_addr: [u8; 4], dest_port: u16, ident: Vec<u8>, timeouts: ConnectionTimeouts)
        -> (r: Socks4General)
        ensures
            r.dest_addr == dest_addr,
            r.dest_port == dest_port,
            r.ident == ident,
            r.timeouts == timeouts,
    {
        Socks4General { dest_addr, dest_port, ident, timeouts }
    }

    /// Encodes the SOCKS4 connection request for these parameters:
    /// version, command, port in network byte order, the address
    /// octets, the ident bytes, and the zero terminator.
    pub fn encode_request(&self) -> (buf: Vec<u8>)
        ensures
            buf@ == spec_request_bytes(self.dest_addr@, self.dest_port, self.ident@),
    {
        let mut buf: Vec<u8> = Vec::new();
        buf.push(4);
        buf.push(Command::TcpConnectionEstablishment.code());
        buf.push((self.dest_port / 256) as u8);
        buf.push((self.dest_port % 256) as u8);
        buf.push(self.dest_addr[0]);
        buf.push(self.dest_addr[1]);
        buf.push(self.dest_addr[2]);
        buf.push(self.dest_addr[3]);
        let mut i: usize = 0;
        while i < self.ident.len()
            invariant
                i <= self.ident.len(),
                buf@ == seq![
                    4u8,
                    1u8,
                    (self.dest_port / 256) as u8,
                    (self.dest_port % 256) as u8,
                ] + self.dest_addr@ + self.ident@.subrange(0, i as int),
            decreases self.ident.len() - i,
        {
            buf.push(self.ident[i]);
            assert(self.ident@.subrange(0, i + 1) =~= self.ident@.subrange(0, i as int).push(
                self.ident@[i as int],
            ));
            i = i + 1;
        }
        buf.push(0);
        proof {
            assert(self.dest_addr@ =~= seq![
                self.dest_addr[0],
                self.dest_addr[1],
                self.dest_addr[2],
                self.dest_addr[3],
            ]);
            assert(self.ident@.subrange(0, self.ident@.len() as int) =~= self.ident@);
            assert(buf@ =~= spec_request_bytes(self.dest_addr@, self.dest_port, self.ident@));
        }
        buf
    }
}

/// Encoding is idempotent: two clients built from the same parameters
/// encode byte-identical request buffers, whatever else happened in
/// between - no hidden mutable state affects encoding.
pub proof fn lemma_encoding_deterministic(
    c1: Socks4General,
    c2: Socks4General,
    b1: Vec<u8>,
    b2: Vec<u8>,
)
    requires
        c1.dest_addr@ == c2.dest_addr@,
        c1.dest_port == c2.dest_port,
        c1.ident@ == c2.ident@,
        call_ensures(Socks4General::encode_request, (&c1,), b1),
        call_ensures(Socks4General::encode_request, (&c2,), b2),
    ensures
        b1@ == b2@,
{
}

} // verus!
