//! The SOCKS4 protocol core shared by both client flavors: the
//! protocol command, the error taxonomy, and the classifier that maps
//! a server reply onto a typed outcome.

use vstd::prelude::*;

use crate::general::TransferEvent;

pub mod general;
pub mod no_ident;

pub use general::Socks4General;
pub use no_ident::Socks4NoIdent;

verus! {

/// A SOCKS4 protocol command. Only TCP connection establishment is
/// ever sent by the clients in this crate.
pub enum Command {
    TcpConnectionEstablishment,
    TcpPortBinding,
}

impl Command {
    /// The one-byte code of this command on the wire.
    pub open spec fn spec_code(self) -> u8 {
        match self {
            Command::TcpConnectionEstablishment => 1,
            Command::TcpPortBinding => 2,
        }
    }

    /// Returns the one-byte code of this command on the wire.
    pub fn code(&self) -> (r: u8)
        ensures
            r == self.spec_code(),
    {
        match self {
            Command::TcpConnectionEstablishment => 1,
            Command::TcpPortBinding => 2,
        }
    }
}

/// A SOCKS4 protocol error that can occur when connecting to a
/// destination through a proxy.
pub enum ErrorKind {
    /// An error occurred during a native I/O operation, such as
    /// writing to or reading from the transport.
    IOError(std::io::Error),
    /// A bad (wrong, not readable as SOCKS4) reply was received.
    BadBuffer,
    /// The connection request was denied.
    RequestDenied,
    /// The ident service is not available on the server side.
    IdentIsUnavailable,
    /// A bad ident was passed, so the server refused the request.
    BadIdent,
    /// A timeout was reached during a write or read step.
    OperationTimeoutReached,
}

impl ErrorKind {
    /// Renders this error as a human-readable message. For the
    /// `IOError` variant the message also carries the native error's
    /// own description, which is opaque here, so only the other
    /// variants have their text pinned down.
    pub fn message(&self) -> (r: String)
        ensures
            self is BadBuffer ==> r@ == "bad buffer has been received"@,
            self is RequestDenied ==> r@ == "request denied"@,
            self is IdentIsUnavailable ==> r@ == "ident is unavailable"@,
            self is BadIdent ==> r@ == "bad ident"@,
            self is OperationTimeoutReached ==> r@ == "operation timeout reached"@,
    {
        match self {
            ErrorKind::IOError(e) => crate::general::io_error_text(e),
            ErrorKind::BadBuffer => "bad buffer has been received".to_owned(),
            ErrorKind::RequestDenied => "request denied".to_owned(),
            ErrorKind::IdentIsUnavailable => "ident is unavailable".to_owned(),
            ErrorKind::BadIdent => "bad ident".to_owned(),
            ErrorKind::OperationTimeoutReached => "operation timeout reached".to_owned(),
        }
    }
}

/// The bytes of a SOCKS4 connection request: one version byte (4),
/// one command byte (TCP connection establishment), the destination
/// port in network byte order, the four destination address octets,
/// the ident bytes, and a terminating zero byte.
pub open spec fn spec_request_bytes(addr: Seq<u8>, port: u16, ident: Seq<u8>) -> Seq<u8> {
    seq![4u8, 1u8, (port / 256) as u8, (port % 256) as u8] + addr + ident + seq![0u8]
}

/// The encoded SOCKS4 request always has the shape the protocol
/// prescribes: eight fixed leading bytes (version 4, command 1, the
/// port in network byte order, the four address octets), then the
/// ident, then a zero terminator, for a total of `8 + ident.len() + 1`
/// bytes.
pub proof fn lemma_request_shape(addr: Seq<u8>, port: u16, ident: Seq<u8>)
    requires
        addr.len() == 4,
    ensures
        spec_request_bytes(addr, port, ident).len() == 8 + ident.len() + 1,
        spec_request_bytes(addr, port, ident)[0] == 4,
        spec_request_bytes(addr, port, ident)[1] == 1,
        spec_request_bytes(addr, port, ident)[2] == port / 256,
        spec_request_bytes(addr, port, ident)[3] == port % 256,
        spec_request_bytes(addr, port, ident).subrange(4, 8) == addr,
        spec_request_bytes(addr, port, ident).subrange(8, 8 + ident.len() as int) == ident,
        spec_request_bytes(addr, port, ident).last() == 0,
{
    assert(spec_request_bytes(addr, port, ident).subrange(4, 8) =~= addr);
    assert(spec_request_bytes(addr, port, ident).subrange(8, 8 + ident.len() as int) =~= ident);
}

/// The typed outcome of one SOCKS4 request round trip, as a function
/// of the transfer event and of the reply buffer.
///
/// A reply is well-formed only if exactly 8 bytes were read; byte 1
/// of a well-formed reply is the status code. `Ok(())` means the
/// request was granted and the transport now tunnels to the
/// destination.
pub open spec fn spec_reply_outcome(event: TransferEvent, reply: Seq<u8>) -> Result<(), ErrorKind> {
    match event {
        TransferEvent::TimedOut => Err(ErrorKind::OperationTimeoutReached),
        TransferEvent::Failed(e) => Err(ErrorKind::IOError(e)),
        TransferEvent::Replied(n) => if n != 8 {
            Err(ErrorKind::BadBuffer)
        } else if reply[1] == 0x5a {
            Ok(())
        } else if reply[1] == 0x5b {
            Err(ErrorKind::RequestDenied)
        } else if reply[1] == 0x5c {
            Err(ErrorKind::IdentIsUnavailable)
        } else if reply[1] == 0x5d {
            Err(ErrorKind::BadIdent)
        } else {
            Err(ErrorKind::BadBuffer)
        },
    }
}

/// Classifies the server's reply to a SOCKS4 connection request.
///
/// `event` is the outcome of the write-then-read round trip that sent
/// the request; `reply` is the buffer the reply was read into. Exactly
/// 8 reply bytes must have been read, anything else is a framing
/// error; byte 1 of the reply then selects the outcome, and a status
/// code outside the protocol's table is a framing error as well,
/// never a success.
pub fn reply_outcome(event: TransferEvent, reply: &Vec<u8>) -> (r: Result<(), ErrorKind>)
    requires
        event matches TransferEvent::Replied(n) ==> n <= reply@.len(),
    ensures
        r == spec_reply_outcome(event, reply@),
{
    match event {
        TransferEvent::TimedOut => Err(ErrorKind::OperationTimeoutReached),
        TransferEvent::Failed(e) => Err(ErrorKind::IOError(e)),
        TransferEvent::Replied(n) => {
            if n != 8 {
                Err(ErrorKind::BadBuffer)
            } else {
                match reply[1] {
                    0x5a => Ok(()),
                    0x5b => Err(ErrorKind::RequestDenied),
                    0x5c => Err(ErrorKind::IdentIsUnavailable),
                    0x5d => Err(ErrorKind::BadIdent),
                    _ => Err(ErrorKind::BadBuffer),
                }
            }
        },
    }
}

} // verus!
