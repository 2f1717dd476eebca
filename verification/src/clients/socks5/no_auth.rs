//! The SOCKS5 TCP client: a reusable parameter bundle plus the
//! phase-by-phase handshake logic. A handshake is two or three
//! write-then-read round trips: method negotiation, an optional
//! username/password sub-negotiation, and the connection request.
//! Each round trip is one request encoder and one reply classifier
//! here; the caller performs the bounded I/O in between and reports
//! its outcome as a `TransferEvent`.

use vstd::prelude::*;

use crate::clients::socks5::Command;
use crate::clients::socks5::Destination;
use crate::general::ConnectionTimeouts;
use crate::general::TransferEvent;

verus! {

/// The parameters of a SOCKS5 connection attempt: the destination and
/// its port, the timeout set, and the authentication selection. The
/// authentication field may be rewritten between attempts, so one
/// value can drive successive handshakes against fresh transports.
pub struct TcpNoAuth {
    /// The address of the service the user wants to reach through the
    /// proxy.
    pub destination: Destination,
    /// The port of the destination service.
    pub port: u16,
    /// The timeout set for the connection.
    pub timeouts: ConnectionTimeouts,
    /// The kind of authentication offered to the server; by default
    /// no authentication is required.
    pub auth: AuthenticationKind,
}

/// The authentication selections a handshake can be configured with.
/// Only no-authentication and username/password are supported; the
/// remaining kinds are recognized but rejected before any bytes are
/// sent.
pub enum AuthenticationKind {
    /// No authentication required.
    NoAuthentication,
    /// GSSAPI; recognized but not supported.
    GenericSecurityServicesAPI,
    /// Authentication by username and password, each held as its
    /// bytes. Both must fit behind a single length byte (at most 255
    /// bytes); the caller is responsible for staying within that
    /// bound - nothing is silently truncated here.
    UsernamePassword { username: Vec<u8>, password: Vec<u8> },
    /// The private-method range; recognized but not supported.
    PrivateMethods,
    /// No method acceptable to both sides.
    NoAcceptable,
}

/// An error that can occur when connecting to a service through a
/// SOCKS5 proxy.
#[derive(Debug)]
pub enum ErrorKind {
    /// An operation took too much time, so a timeout was reached.
    OperationTimeoutReached,
    /// A native I/O error.
    IOError(std::io::Error),
    /// The SOCKS5 server replied with a bad buffer.
    BadBuffer,
    /// The destination is a domain name of more than 255 bytes, which
    /// the protocol cannot represent.
    DomainNameTooLong,
    /// The SOCKS5 server is currently unavailable.
    SocksServerFailure,
    /// The connection request was denied by the server's rules.
    RequestDenied,
    /// The network is unreachable.
    NetworkUnreachable,
    /// The destination host is unreachable.
    HostUnreachable,
    /// The connection was refused.
    ConnectionRefused,
    /// A TTL expired on the way to the destination.
    TTLExpired,
    /// The command is not supported by the server.
    NotSupported,
    /// The type of the destination address is not supported.
    DestinationNotSupported,
    /// The server selected an authentication method this client
    /// cannot proceed with.
    Method(NotSupportedMethod),
}

/// The authentication methods a server may select that this client
/// does not support.
#[derive(Debug)]
pub enum NotSupportedMethod {
    /// The server asks for no authentication while the client
    /// expected to authenticate.
    NoAuthRequired,
    /// GSSAPI.
    GssAPI,
    /// The range of method identifiers reserved for IANA.
    IANA,
    /// The range of method identifiers reserved for private methods.
    PrivateMethods,
}

/// An error that can occur while parsing a `TcpNoAuth` from its
/// textual form; the parser itself lives with the I/O glue outside
/// the protocol core.
#[derive(Clone, Copy, Debug, PartialEq, Eq, Structural)]
pub enum StrParsingError {
    /// The string is not formatted appropriately for parsing.
    SyntaxError,
    /// The destination address cannot be parsed.
    InvalidDestination,
    /// The port cannot be parsed.
    InvalidPort,
    /// The timeouts cannot be parsed.
    InvalidTimeouts,
}

/// The phase a SOCKS5 handshake proceeds to after a successful method
/// negotiation round trip: straight to the connection request, or
/// through the username/password sub-negotiation first.
#[derive(Clone, Copy, Debug, PartialEq, Eq, Structural)]
pub enum NextPhase {
    /// The server selected username/password authentication; the
    /// sub-negotiation round trip comes next.
    Authenticating,
    /// The server requires no authentication; the connection request
    /// comes next.
    ConnectRequest,
}

/// The outcome table shared by the sub-negotiation reply and the
/// connection reply: status code zero is success, codes one through
/// eight name the protocol's failure conditions, and any other code
/// is a framing error, never a success.
pub open spec fn spec_status_outcome(code: u8) -> Result<(), ErrorKind> {
    if code == 0 {
        Ok(())
    } else if code == 1 {
        Err(ErrorKind::SocksServerFailure)
    } else if code == 2 {
        Err(ErrorKind::RequestDenied)
    } else if code == 3 {
        Err(ErrorKind::NetworkUnreachable)
    } else if code == 4 {
        Err(ErrorKind::HostUnreachable)
    } else if code == 5 {
        Err(ErrorKind::ConnectionRefused)
    } else if code == 6 {
        Err(ErrorKind::TTLExpired)
    } else if code == 7 {
        Err(ErrorKind::NotSupported)
    } else if code == 8 {
        Err(ErrorKind::DestinationNotSupported)
    } else {
        Err(ErrorKind::BadBuffer)
    }
}

/// How the method negotiation reply is classified, as a function of
/// the configured authentication, the transfer event and the reply
/// bytes. Exactly two bytes must have been read; the first must be
/// the version (5) and the second must not be the generic rejection
/// (0xFF). The server-chosen method then either advances the
/// handshake - when it matches what the client offered - or names the
/// unsupported method family the handshake fails with.
pub open spec fn spec_method_reply_outcome(
    auth: AuthenticationKind,
    event: TransferEvent,
    reply: Seq<u8>,
) -> Result<NextPhase, ErrorKind> {
    match event {
        TransferEvent::TimedOut => Err(ErrorKind::OperationTimeoutReached),
        TransferEvent::Failed(e) => Err(ErrorKind::IOError(e)),
        TransferEvent::Replied(n) => if n != 2 {
            Err(ErrorKind::BadBuffer)
        } else if reply[0] != 5 || reply[1] == 0xff {
            Err(ErrorKind::BadBuffer)
        } else if reply[1] == 0 {
            if auth is NoAuthentication {
                Ok(NextPhase::ConnectRequest)
            } else {
                Err(ErrorKind::Method(NotSupportedMethod::NoAuthRequired))
            }
        } else if reply[1] == 1 {
            Err(ErrorKind::Method(NotSupportedMethod::GssAPI))
        } else if reply[1] == 2 {
            if auth matches AuthenticationKind::UsernamePassword { .. } {
                Ok(NextPhase::Authenticating)
            } else {
                Err(ErrorKind::BadBuffer)
            }
        } else if reply[1] <= 0x7f {
            Err(ErrorKind::Method(NotSupportedMethod::IANA))
        } else {
            Err(ErrorKind::Method(NotSupportedMethod::PrivateMethods))
        },
    }
}

/// How the username/password sub-negotiation reply is classified:
/// exactly two bytes must have been read, and byte 1 of value zero
/// means authenticated; any other value is a terminal failure, mapped
/// through the generic status table.
pub open spec fn spec_auth_reply_outcome(event: TransferEvent, reply: Seq<u8>) -> Result<
    (),
    ErrorKind,
> {
    match event {
        TransferEvent::TimedOut => Err(ErrorKind::OperationTimeoutReached),
        TransferEvent::Failed(e) => Err(ErrorKind::IOError(e)),
        TransferEvent::Replied(n) => if n != 2 {
            Err(ErrorKind::BadBuffer)
        } else {
            spec_status_outcome(reply[1])
        },
    }
}

/// How the connection request reply is classified: at least two bytes
/// must have been read, and byte 1 is the status code, mapped through
/// the generic status table. `Ok(())` means the tunnel is established
/// and the transport now carries raw application data.
pub open spec fn spec_connect_reply_outcome(event: TransferEvent, reply: Seq<u8>) -> Result<
    (),
    ErrorKind,
> {
    match event {
        TransferEvent::TimedOut => Err(ErrorKind::OperationTimeoutReached),
        TransferEvent::Failed(e) => Err(ErrorKind::IOError(e)),
        TransferEvent::Replied(n) => if n < 2 {
            Err(ErrorKind::BadBuffer)
        } else {
            spec_status_outcome(reply[1])
        },
    }
}

/// The bytes of the username/password sub-negotiation request: the
/// sub-negotiation version (1), the username behind its length byte,
/// then the password behind its length byte.
pub open spec fn spec_auth_request_bytes(username: Seq<u8>, password: Seq<u8>) -> Seq<u8> {
    seq![1u8, username.len() as u8] + username + seq![password.len() as u8] + password
}

/// The bytes of the connection request: the version (5), the TCP
/// connection establishment command, a reserved zero byte, the
/// serialized destination, and the port in network byte order.
pub open spec fn spec_connect_request_bytes(dest: Destination, port: u16) -> Seq<u8> {
    seq![5u8, 1u8, 0u8] + dest.spec_buffer_bytes() + seq![(port / 256) as u8, (port % 256) as u8]
}

impl TcpNoAuth {
    pub fn new(destination: Destination, port: u16, timeouts: ConnectionTimeouts) -> (r: TcpNoAuth)
        ensures
            r.destination == destination,
            r.port == port,
            r.timeouts == timeouts,
            r.auth is NoAuthentication,
    {
        TcpNoAuth { destination, port, timeouts, auth: AuthenticationKind::NoAuthentication }
    }

    /// Selects username/password authentication for the following
    /// connection attempts. Both credentials must fit behind a single
    /// length byte; supplying them within that bound is the caller's
    /// responsibility, since the protocol core never truncates.
    pub fn with_authentication(&mut self, username: Vec<u8>, password: Vec<u8>)
        requires
            username@.len() <= 255,
            password@.len() <= 255,
        ensures
            final(self).auth == (AuthenticationKind::UsernamePassword { username, password }),
            final(self).destination == old(self).destination,
            final(self).port == old(self).port,
            final(self).timeouts == old(self).timeouts,
    {
        self.auth = AuthenticationKind::UsernamePassword { username, password };
    }

    /// Encodes the method negotiation request: the version (5), the
    /// method count (1, since only one method is ever offered), and
    /// the offered method's identifier. A selection this client
    /// cannot carry through is rejected here, before any bytes are
    /// sent.
    pub fn method_negotiation_request(&self) -> (r: Result<Vec<u8>, ErrorKind>)
        ensures
            self.auth is NoAuthentication ==> (r matches Ok(b) && b@ == seq![5u8, 1u8, 0u8]),
            self.auth matches AuthenticationKind::UsernamePassword { .. } ==> (r matches Ok(b)
                && b@ == seq![5u8, 1u8, 2u8]),
            self.auth is GenericSecurityServicesAPI ==> r == Err::<Vec<u8>, ErrorKind>(
                ErrorKind::Method(NotSupportedMethod::GssAPI),
            ),
            self.auth is PrivateMethods ==> r == Err::<Vec<u8>, ErrorKind>(
                ErrorKind::Method(NotSupportedMethod::PrivateMethods),
            ),
            self.auth is NoAcceptable ==> r == Err::<Vec<u8>, ErrorKind>(ErrorKind::BadBuffer),
    {
        let method: u8 = match &self.auth {
            AuthenticationKind::NoAuthentication => 0,
            AuthenticationKind::UsernamePassword { .. } => 2,
            AuthenticationKind::GenericSecurityServicesAPI => {
                return Err(ErrorKind::Method(NotSupportedMethod::GssAPI));
            },
            AuthenticationKind::PrivateMethods => {
                return Err(ErrorKind::Method(NotSupportedMethod::PrivateMethods));
            },
            AuthenticationKind::NoAcceptable => {
                return Err(ErrorKind::BadBuffer);
            },
        };
        let mut buf: Vec<u8> = Vec::new();
        buf.push(5);
        buf.push(1);
        buf.push(method);
        proof {
            assert(buf@ =~= seq![5u8, 1u8, method]);
        }
        Ok(buf)
    }

    /// Classifies the server's reply to the method negotiation
    /// request. On success the returned phase says whether the
    /// username/password sub-negotiation comes next or the handshake
    /// can proceed straight to the connection request.
    pub fn process_method_reply(&self, event: TransferEvent, reply: &Vec<u8>) -> (r: Result<
        NextPhase,
        ErrorKind,
    >)
        requires
            event matches TransferEvent::Replied(n) ==> n <= reply@.len(),
        ensures
            r == spec_method_reply_outcome(self.auth, event, reply@),
    {
        match event {
            TransferEvent::TimedOut => Err(ErrorKind::OperationTimeoutReached),
            TransferEvent::Failed(e) => Err(ErrorKind::IOError(e)),
            TransferEvent::Replied(n) => {
                if n != 2 {
                    return Err(ErrorKind::BadBuffer);
                }
                let b0 = reply[0];
                let b1 = reply[1];
                if b0 != 5 || b1 == 0xff {
                    Err(ErrorKind::BadBuffer)
                } else if b1 == 0 {
                    match &self.auth {
                        AuthenticationKind::NoAuthentication => Ok(NextPhase::ConnectRequest),
                        _ => Err(ErrorKind::Method(NotSupportedMethod::NoAuthRequired)),
                    }
                } else if b1 == 1 {
                    Err(ErrorKind::Method(NotSupportedMethod::GssAPI))
                } else if b1 == 2 {
                    match &self.auth {
                        AuthenticationKind::UsernamePassword { .. } => Ok(NextPhase::Authenticating),
                        _ => Err(ErrorKind::BadBuffer),
                    }
                } else if b1 <= 0x7f {
                    Err(ErrorKind::Method(NotSupportedMethod::IANA))
                } else {
                    Err(ErrorKind::Method(NotSupportedMethod::PrivateMethods))
                }
            },
        }
    }

    /// Encodes the username/password sub-negotiation request. Only
    /// meaningful - and only callable - when username/password
    /// authentication was selected and the server chose it.
    pub fn authentication_request(&self) -> (buf: Vec<u8>)
        requires
            self.auth matches AuthenticationKind::UsernamePassword { username, password }
                && username@.len() <= 255 && password@.len() <= 255,
        ensures
            self.auth matches AuthenticationKind::UsernamePassword { username, password } ==> buf@
                == spec_auth_request_bytes(username@, password@),
    {
        match &self.auth {
            AuthenticationKind::UsernamePassword { username, password } => {
                let mut buf: Vec<u8> = Vec::new();
                buf.push(1);
                buf.push(username.len() as u8);
                let mut i: usize = 0;
                while i < username.len()
                    invariant
                        i <= username.len(),
                        username@.len() <= 255,
                        buf@ == seq![1u8, username@.len() as u8] + username@.subrange(0, i as int),
                    decreases username.len() - i,
                {
                    buf.push(username[i]);
                    assert(username@.subrange(0, i + 1) =~= username@.subrange(0, i as int).push(
                        username@[i as int],
                    ));
                    i = i + 1;
                }
                proof {
                    assert(username@.subrange(0, username@.len() as int) =~= username@);
                }
                buf.push(password.len() as u8);
                let mut j: usize = 0;
                while j < password.len()
                    invariant
                        j <= password.len(),
                        password@.len() <= 255,
                        buf@ == seq![1u8, username@.len() as u8] + username@ + seq![
                            password@.len() as u8,
                        ] + password@.subrange(0, j as int),
                    decreases password.len() - j,
                {
                    buf.push(password[j]);
                    assert(password@.subrange(0, j + 1) =~= password@.subrange(0, j as int).push(
                        password@[j as int],
                    ));
                    j = j + 1;
                }
                proof {
                    assert(password@.subrange(0, password@.len() as int) =~= password@);
                    assert(buf@ =~= spec_auth_request_bytes(username@, password@));
                }
                buf
            },
            _ => {
                proof {
                    assert(false);
                }
                Vec::new()
            },
        }
    }

    /// Classifies the server's reply to the username/password
    /// sub-negotiation. `Ok(())` means authenticated; the handshake
    /// then proceeds to the connection request.
    pub fn process_authentication_reply(event: TransferEvent, reply: &Vec<u8>) -> (r: Result<
        (),
        ErrorKind,
    >)
        requires
            event matches TransferEvent::Replied(n) ==> n <= reply@.len(),
        ensures
            r == spec_auth_reply_outcome(event, reply@),
    {
        match event {
            TransferEvent::TimedOut => Err(ErrorKind::OperationTimeoutReached),
            TransferEvent::Failed(e) => Err(ErrorKind::IOError(e)),
            TransferEvent::Replied(n) => {
                if n != 2 {
                    return Err(ErrorKind::BadBuffer);
                }
                status_outcome(reply[1])
            },
        }
    }

    /// Encodes the connection request: version, command, the reserved
    /// zero byte, the serialized destination and the port in network
    /// byte order. A domain name of more than 255 bytes fails here,
    /// with no bytes produced for the wire.
    pub fn connect_request(&self) -> (r: Result<Vec<u8>, ErrorKind>)
        ensures
            self.destination.wf() ==> (r matches Ok(b) && b@ == spec_connect_request_bytes(
                self.destination,
                self.port,
            )),
            !self.destination.wf() ==> r == Err::<Vec<u8>, ErrorKind>(ErrorKind::DomainNameTooLong),
    {
        let mut buf: Vec<u8> = Vec::new();
        buf.push(5);
        buf.push(Command::TcpConnectionEstablishment.code());
        buf.push(0);
        match self.destination.extend_buffer(&mut buf) {
            Ok(()) => {},
            Err(()) => {
                return Err(ErrorKind::DomainNameTooLong);
            },
        }
        buf.push((self.port / 256) as u8);
        buf.push((self.port % 256) as u8);
        proof {
            assert(buf@ =~= spec_connect_request_bytes(self.destination, self.port));
        }
        Ok(buf)
    }

    /// Classifies the server's reply to the connection request.
    /// `Ok(())` means the tunnel is established: the transport now
    /// tunnels to the destination and can be handed back to the
    /// caller as a transparent stream.
    pub fn process_connect_reply(event: TransferEvent, reply: &Vec<u8>) -> (r: Result<
        (),
        ErrorKind,
    >)
        requires
            event matches TransferEvent::Replied(n) ==> n <= reply@.len(),
        ensures
            r == spec_connect_reply_outcome(event, reply@),
    {
        match event {
            TransferEvent::TimedOut => Err(ErrorKind::OperationTimeoutReached),
            TransferEvent::Failed(e) => Err(ErrorKind::IOError(e)),
            TransferEvent::Replied(n) => {
                if n < 2 {
                    return Err(ErrorKind::BadBuffer);
                }
                status_outcome(reply[1])
            },
        }
    }
}

/// Maps one status code through the shared outcome table.
fn status_outcome(code: u8) -> (r: Result<(), ErrorKind>)
    ensures
        r == spec_status_outcome(code),
{
    match code {
        0 => Ok(()),
        1 => Err(ErrorKind::SocksServerFailure),
        2 => Err(ErrorKind::RequestDenied),
        3 => Err(ErrorKind::NetworkUnreachable),
        4 => Err(ErrorKind::HostUnreachable),
        5 => Err(ErrorKind::ConnectionRefused),
        6 => Err(ErrorKind::TTLExpired),
        7 => Err(ErrorKind::NotSupported),
        8 => Err(ErrorKind::DestinationNotSupported),
        _ => Err(ErrorKind::BadBuffer),
    }
}

impl ErrorKind {
    /// Renders this error as a human-readable message. For the
    /// `IOError` variant the message also carries the native error's
    /// own description, which is opaque here, so only the other
    /// variants have their text pinned down.
    pub fn message(&self) -> (r: String)
        ensures
            self is OperationTimeoutReached ==> r@ == "operation timeout reached"@,
            self is BadBuffer ==> r@ == "bad buffer has been received"@,
            self is DomainNameTooLong ==> r@ == "domain name is too long"@,
            self is SocksServerFailure ==> r@ == "SOCKS5 server is unavailable"@,
            self is RequestDenied ==> r@ == "request denied"@,
            self is NetworkUnreachable ==> r@ == "network is unreachable"@,
            self is HostUnreachable ==> r@ == "destination host is unreachable"@,
            self is ConnectionRefused ==> r@ == "connection refused"@,
            self is TTLExpired ==> r@ == "TTL is expired"@,
            self is NotSupported ==> r@ == "operation is not supported by the SOCKS server"@,
            self is DestinationNotSupported ==> r@
                == "the type of passed destination is not supported"@,
            self matches ErrorKind::Method(NotSupportedMethod::NoAuthRequired) ==> r@
                == "the authentication not required"@,
            self matches ErrorKind::Method(NotSupportedMethod::GssAPI) ==> r@
                == "method of auth are GssAPI. Currently not supprted"@,
            self matches ErrorKind::Method(NotSupportedMethod::IANA) ==> r@
                == "field of method assignd for IANA. Currently not supported"@,
            self matches ErrorKind::Method(NotSupportedMethod::PrivateMethods) ==> r@
                == "field of method reserved for private method. Currently not supported"@,
    {
        match self {
            ErrorKind::DomainNameTooLong => "domain name is too long".to_owned(),
            ErrorKind::IOError(e) => crate::general::io_error_text(e),
            ErrorKind::BadBuffer => "bad buffer has been received".to_owned(),
            ErrorKind::RequestDenied => "request denied".to_owned(),
            ErrorKind::SocksServerFailure => "SOCKS5 server is unavailable".to_owned(),
            ErrorKind::NetworkUnreachable => "network is unreachable".to_owned(),
            ErrorKind::HostUnreachable => "destination host is unreachable".to_owned(),
            ErrorKind::ConnectionRefused => "connection refused".to_owned(),
            ErrorKind::TTLExpired => "TTL is expired".to_owned(),
            ErrorKind::NotSupported => "operation is not supported by the SOCKS server".to_owned(),
            ErrorKind::DestinationNotSupported => {
                "the type of passed destination is not supported".to_owned()
            },
            ErrorKind::OperationTimeoutReached => "operation timeout reached".to_owned(),
            ErrorKind::Method(method_kind) => match method_kind {
                NotSupportedMethod::NoAuthRequired => "the authentication not required".to_owned(),
                NotSupportedMethod::GssAPI => {
                    "method of auth are GssAPI. Currently not supprted".to_owned()
                },
                NotSupportedMethod::IANA => {
                    "field of method assignd for IANA. Currently not supported".to_owned()
                },
                NotSupportedMethod::PrivateMethods => {
                    "field of method reserved for private method. Currently not supported".to_owned()
                },
            },
        }
    }
}

/// Encoding the connection request is idempotent: two parameter
/// bundles that agree on the destination's tag and address bytes and
/// on the port either both fail or both produce byte-identical
/// request buffers - no hidden mutable state affects encoding.
pub proof fn lemma_connect_request_deterministic(
    c1: TcpNoAuth,
    c2: TcpNoAuth,
    r1: Result<Vec<u8>, ErrorKind>,
    r2: Result<Vec<u8>, ErrorKind>,
)
    requires
        c1.destination.spec_tag() == c2.destination.spec_tag(),
        c1.destination.spec_addr_bytes() == c2.destination.spec_addr_bytes(),
        c1.port == c2.port,
        call_ensures(TcpNoAuth::connect_request, (&c1,), r1),
        call_ensures(TcpNoAuth::connect_request, (&c2,), r2),
    ensures
        r1 is Ok && r2 is Ok ==> r1->Ok_0@ == r2->Ok_0@,
        r1 is Err <==> r2 is Err,
{
    crate::clients::socks5::lemma_buffer_bytes_of_model(c1.destination, c2.destination);
    if c1.destination.wf() {
        assert(spec_connect_request_bytes(c1.destination, c1.port)
            == spec_connect_request_bytes(c2.destination, c2.port));
    }
}

/// Encoding the sub-negotiation request is idempotent: equal
/// credentials encode to byte-identical buffers.
pub proof fn lemma_authentication_request_deterministic(
    c1: TcpNoAuth,
    c2: TcpNoAuth,
    b1: Vec<u8>,
    b2: Vec<u8>,
)
    requires
        ({
            &&& c1.auth matches AuthenticationKind::UsernamePassword {
                username: u1,
                password: p1,
            }
            &&& c2.auth matches AuthenticationKind::UsernamePassword {
                username: u2,
                password: p2,
            }
            &&& u1@ == u2@
            &&& p1@ == p2@
        }),
        call_ensures(TcpNoAuth::authentication_request, (&c1,), b1),
        call_ensures(TcpNoAuth::authentication_request, (&c2,), b2),
    ensures
        b1@ == b2@,
{
}

} // verus!
