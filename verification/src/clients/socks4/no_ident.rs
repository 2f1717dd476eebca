//! The SOCKS4 client flavor that sends no identification string: the
//! ident field of the request is empty, so the encoded request is the
//! eight fixed bytes followed directly by the zero terminator.

use vstd::prelude::*;

use crate::clients::socks4::spec_request_bytes;
use crate::clients::socks4::Command;
use crate::general::ConnectionTimeouts;

verus! {

/// Parameters of a SOCKS4 connection attempt without an ident: the
/// destination address and port, and the timeout set.
pub struct Socks4NoIdent {
    /// The IPv4 address octets of the service to connect to through
    /// the proxy.
    pub dest_addr: [u8; 4],
    /// The destination service's port.
    pub dest_port: u16,
    /// The timeout set.
    pub timeouts: ConnectionTimeouts,
}

/// An error that can occur while parsing a `Socks4NoIdent` from its
/// textual form; the parser itself lives with the I/O glue outside
/// the protocol core.
#[derive(Clone, Copy, Debug, PartialEq, Eq, Structural)]
pub enum StrParsingError {
    /// The string is not formatted appropriately for parsing.
    SyntaxError,
    /// The destination address cannot be parsed.
    InvalidAddr,
    /// The timeouts cannot be parsed.
    InvalidTimeouts,
}

impl Socks4NoIdent {
    pub fn new(dest_addr: [u8; 4], dest_port: u16, timeouts: ConnectionTimeouts) -> (r:
        Socks4NoIdent)
        ensures
            r.dest_addr == dest_addr,
            r.dest_port == dest_port,
            r.timeouts == timeouts,
    {
        Socks4NoIdent { dest_addr, dest_port, timeouts }
    }

    /// Encodes the SOCKS4 connection request for these parameters:
    /// version, command, port in network byte order, the address
    /// octets, and the zero terminator, with an empty ident.
    pub fn encode_request(&self) -> (buf: Vec<u8>)
        ensures
            buf@ == spec_request_bytes(self.dest_addr@, self.dest_port, Seq::<u8>::empty()),
    {
        let mut buf: Vec<u8> = Vec::new();
        buf.push(4);
        buf.push(Command::TcpConnectionEstablishment.code());
        buf.push((self.dest_port / 256) as u8);
        buf.push((self.dest_port % 256) as u8);
        buf.push(self.dest_addr[0]);
        buf.push(self.dest_addr[1]);
        buf.push(self.dest_addr[2]);
        buf.push(self.dest_addr[3]);
        buf.push(0);
        proof {
            assert(self.dest_addr@ =~= seq![
                self.dest_addr[0],
                self.dest_addr[1],
                self.dest_addr[2],
                self.dest_addr[3],
            ]);
            assert(buf@ =~= spec_request_bytes(
                self.dest_addr@,
                self.dest_port,
                Seq::<u8>::empty(),
            ));
        }
        buf
    }
}

/// Encoding is idempotent: two clients built from the same parameters
/// encode byte-identical request buffers, whatever else happened in
/// between - no hidden mutable state affects encoding.
pub proof fn lemma_encoding_deterministic(
    c1: Socks4NoIdent,
    c2: Socks4NoIdent,
    b1: Vec<u8>,
    b2: Vec<u8>,
)
    requires
        c1.dest_addr@ == c2.dest_addr@,
        c1.dest_port == c2.dest_port,
        call_ensures(Socks4NoIdent::encode_request, (&c1,), b1),
        call_ensures(Socks4NoIdent::encode_request, (&c2,), b2),
    ensures
        b1@ == b2@,
{
}

} // verus!
