//! The SOCKS5 protocol core: the protocol command and the destination
//! descriptor with its serialized form, used by the connection request
//! of the version-5 handshake.

use vstd::prelude::*;

pub mod no_auth;

pub use no_auth::TcpNoAuth;

verus! {

/// A SOCKS5 protocol command. Only TCP connection establishment is
/// ever sent by the clients in this crate.
pub enum Command {
    TcpConnectionEstablishment,
    TcpPortBinding,
    UdpPortBinding,
}

impl Command {
    /// The one-byte code of this command on the wire.
    pub open spec fn spec_code(self) -> u8 {
        match self {
            Command::TcpConnectionEstablishment => 1,
            Command::TcpPortBinding => 2,
            Command::UdpPortBinding => 3,
        }
    }

    /// Returns the one-byte code of this command on the wire.
    pub fn code(&self) -> (r: u8)
        ensures
            r == self.spec_code(),
    {
        match self {
            Command::TcpConnectionEstablishment => 1,
            Command::TcpPortBinding => 2,
            Command::UdpPortBinding => 3,
        }
    }
}

/// The destination address of the service a user wants to reach
/// through a SOCKS5 proxy: an IPv4 address, a domain name held as its
/// bytes, or an IPv6 address.
pub enum Destination {
    /// An IPv4 address, as its four octets.
    Ipv4Addr([u8; 4]),
    /// A domain name, as its bytes.
    DomainName(Vec<u8>),
    /// An IPv6 address, as its sixteen octets.
    Ipv6Addr([u8; 16]),
}

impl Destination {
    /// Whether the destination is representable on the wire. A domain
    /// name is serialized behind a single length byte, so a name of
    /// more than 255 bytes is unrepresentable and must fail encoding
    /// before any bytes are produced.
    pub open spec fn wf(self) -> bool {
        match self {
            Destination::DomainName(name) => name@.len() <= 255,
            _ => true,
        }
    }

    /// The one-byte type tag that starts the serialized destination.
    pub open spec fn spec_tag(self) -> u8 {
        match self {
            Destination::Ipv4Addr(_) => 1,
            Destination::DomainName(_) => 3,
            Destination::Ipv6Addr(_) => 4,
        }
    }

    /// The address bytes of the destination: the octets of an IP
    /// address, or the bytes of a domain name.
    pub open spec fn spec_addr_bytes(self) -> Seq<u8> {
        match self {
            Destination::Ipv4Addr(addr) => addr@,
            Destination::DomainName(name) => name@,
            Destination::Ipv6Addr(addr) => addr@,
        }
    }

    /// The serialized form of the destination: the type tag, then the
    /// address bytes, fixed-width for an IP address and behind a
    /// length byte for a domain name.
    pub open spec fn spec_buffer_bytes(self) -> Seq<u8> {
        match self {
            Destination::Ipv4Addr(addr) => seq![1u8] + addr@,
            Destination::DomainName(name) => seq![3u8, name@.len() as u8] + name@,
            Destination::Ipv6Addr(addr) => seq![4u8] + addr@,
        }
    }

    /// The length in bytes of the serialized destination.
    pub open spec fn spec_len_as_buffer(self) -> int {
        match self {
            Destination::Ipv4Addr(_) => 4 + 1int,
            Destination::DomainName(name) => name@.len() + 2int,
            Destination::Ipv6Addr(_) => 16 + 1int,
        }
    }

    /// Returns the length in bytes of the destination, represented as
    /// a buffer.
    pub fn len_as_buffer(&self) -> (r: usize)
        requires
            self matches Destination::DomainName(name) ==> name@.len() + 2 <= usize::MAX,
        ensures
            r == self.spec_len_as_buffer(),
    {
        match self {
            Destination::Ipv4Addr(_) => 4 + 1,
            Destination::DomainName(name) => name.len() + 2,
            Destination::Ipv6Addr(_) => 16 + 1,
        }
    }

    /// Extends `buf` with the serialized form of the destination.
    /// A domain name of more than 255 bytes is unrepresentable: the
    /// call fails and `buf` is left untouched, so not a single byte
    /// of a malformed request can reach the wire.
    pub fn extend_buffer(&self, buf: &mut Vec<u8>) -> (r: Result<(), ()>)
        ensures
            self.wf() ==> r is Ok,
            !self.wf() ==> r is Err,
            r is Ok ==> final(buf)@ == old(buf)@ + self.spec_buffer_bytes(),
            r is Err ==> final(buf)@ == old(buf)@,
    {
        match self {
            Destination::Ipv4Addr(addr) => {
                buf.push(1);
                buf.push(addr[0]);
                buf.push(addr[1]);
                buf.push(addr[2]);
                buf.push(addr[3]);
                proof {
                    assert(addr@ =~= seq![addr[0], addr[1], addr[2], addr[3]]);
                    assert(buf@ =~= old(buf)@ + self.spec_buffer_bytes());
                }
                Ok(())
            },
            Destination::DomainName(name) => {
                if name.len() > 255 {
                    return Err(());
                }
                buf.push(3);
                buf.push(name.len() as u8);
                let mut i: usize = 0;
                while i < name.len()
                    invariant
                        i <= name.len(),
                        name@.len() <= 255,
                        buf@ == old(buf)@ + seq![3u8, name@.len() as u8] + name@.subrange(
                            0,
                            i as int,
                        ),
                    decreases name.len() - i,
                {
                    buf.push(name[i]);
                    assert(name@.subrange(0, i + 1) =~= name@.subrange(0, i as int).push(
                        name@[i as int],
                    ));
                    i = i + 1;
                }
                proof {
                    assert(name@.subrange(0, name@.len() as int) =~= name@);
                    assert(buf@ =~= old(buf)@ + self.spec_buffer_bytes());
                }
                Ok(())
            },
            Destination::Ipv6Addr(addr) => {
                buf.push(4);
                let mut i: usize = 0;
                while i < 16
                    invariant
                        i <= 16,
                        buf@ == old(buf)@ + seq![4u8] + addr@.subrange(0, i as int),
                    decreases 16 - i,
                {
                    buf.push(addr[i]);
                    assert(addr@.subrange(0, i + 1) =~= addr@.subrange(0, i as int).push(
                        addr@[i as int],
                    ));
                    i = i + 1;
                }
                proof {
                    assert(addr@.subrange(0, 16) =~= addr@);
                    assert(buf@ =~= old(buf)@ + self.spec_buffer_bytes());
                }
                Ok(())
            },
        }
    }

    /// Decodes a serialized destination back from a buffer. `Some` is
    /// returned exactly when the whole buffer is the serialized form
    /// of a representable destination, and the decoded value then
    /// serializes back to the very same bytes.
    pub fn decode_buffer(buf: &Vec<u8>) -> (r: Option<Destination>)
        ensures
            match r {
                Some(d) => d.wf() && d.spec_buffer_bytes() == buf@,
                None => forall|d: Destination| d.wf() ==> d.spec_buffer_bytes() != buf@,
            },
    {
        if buf.len() == 0 {
            proof {
                lemma_undecodable(buf@);
            }
            return None;
        }
        match buf[0] {
            1 => {
                if buf.len() == 5 {
                    let d = Destination::Ipv4Addr([buf[1], buf[2], buf[3], buf[4]]);
                    proof {
                        assert(d.spec_buffer_bytes() =~= buf@);
                    }
                    Some(d)
                } else {
                    proof {
                        lemma_undecodable(buf@);
                    }
                    None
                }
            },
            3 => {
                if buf.len() < 2 {
                    proof {
                        lemma_undecodable(buf@);
                    }
                    return None;
                }
                let n = buf[1] as usize;
                if buf.len() != 2 + n {
                    proof {
                        lemma_undecodable(buf@);
                    }
                    return None;
                }
                let mut name: Vec<u8> = Vec::new();
                let mut i: usize = 0;
                while i < n
                    invariant
                        i <= n,
                        n <= 255,
                        buf@.len() == 2 + n,
                        name@ == buf@.subrange(2, 2 + i as int),
                    decreases n - i,
                {
                    name.push(buf[2 + i]);
                    assert(buf@.subrange(2, 2 + (i + 1 as int)) =~= buf@.subrange(
                        2,
                        2 + i as int,
                    ).push(buf@[2 + i as int]));
                    i = i + 1;
                }
                let d = Destination::DomainName(name);
                proof {
                    assert(d.spec_buffer_bytes() =~= buf@);
                }
                Some(d)
            },
            4 => {
                if buf.len() == 17 {
                    let d = Destination::Ipv6Addr(
                        [
                            buf[1],
                            buf[2],
                            buf[3],
                            buf[4],
                            buf[5],
                            buf[6],
                            buf[7],
                            buf[8],
                            buf[9],
                            buf[10],
                            buf[11],
                            buf[12],
                            buf[13],
                            buf[14],
                            buf[15],
                            buf[16],
                        ],
                    );
                    proof {
                        assert(d.spec_buffer_bytes() =~= buf@);
                    }
                    Some(d)
                } else {
                    proof {
                        lemma_undecodable(buf@);
                    }
                    None
                }
            },
            _ => {
                proof {
                    lemma_undecodable(buf@);
                }
                None
            },
        }
    }
}

/// A buffer that does not have the exact shape of any serialized
/// destination - wrong tag, or a length that does not fit the tag -
/// is the serialized form of no representable destination at all.
proof fn lemma_undecodable(s: Seq<u8>)
    requires
        s.len() == 0 || (s[0] != 1 && s[0] != 3 && s[0] != 4) || (s[0] == 1 && s.len() != 5) || (
        s[0] == 4 && s.len() != 17) || (s[0] == 3 && (s.len() < 2 || s.len() != 2 + s[1])),
    ensures
        forall|d: Destination| d.wf() ==> d.spec_buffer_bytes() != s,
{
    assert forall|d: Destination| d.wf() implies d.spec_buffer_bytes() != s by {
        if d.spec_buffer_bytes() == s {
            match d {
                Destination::Ipv4Addr(addr) => {
                    assert(s[0] == 1 && s.len() == 5);
                },
                Destination::DomainName(name) => {
                    assert(s[0] == 3 && s.len() == 2 + name@.len());
                    assert(s[1] == name@.len() as u8);
                    assert(s.len() == 2 + s[1]);
                },
                Destination::Ipv6Addr(addr) => {
                    assert(s[0] == 4 && s.len() == 17);
                },
            }
        }
    }
}

/// `len_as_buffer` names exactly the number of bytes that serializing
/// the destination produces.
pub proof fn lemma_len_as_buffer_matches(d: Destination)
    ensures
        d.spec_len_as_buffer() == d.spec_buffer_bytes().len(),
{
}

/// Serialization is injective on representable destinations: equal
/// serialized buffers can only come from destinations that agree on
/// the type tag and on the address bytes. Together with
/// `decode_buffer`'s contract this says that decoding an encoded
/// destination reproduces the original tag and bytes.
pub proof fn lemma_buffer_bytes_injective(d1: Destination, d2: Destination)
    requires
        d1.wf(),
        d2.wf(),
        d1.spec_buffer_bytes() == d2.spec_buffer_bytes(),
    ensures
        d1.spec_tag() == d2.spec_tag(),
        d1.spec_addr_bytes() == d2.spec_addr_bytes(),
{
    let s1 = d1.spec_buffer_bytes();
    let s2 = d2.spec_buffer_bytes();
    assert(s1[0] == d1.spec_tag());
    assert(s2[0] == d2.spec_tag());
    match d1 {
        Destination::Ipv4Addr(a1) => {
            match d2 {
                Destination::Ipv4Addr(a2) => {
                    assert(a1@ =~= a2@) by {
                        assert(forall|i: int| 0 <= i < 4 ==> a1@[i] == s1[i + 1] && a2@[i] == s2[i
                            + 1]);
                    }
                },
                _ => {
                    assert(false);
                },
            }
        },
        Destination::DomainName(n1) => {
            match d2 {
                Destination::DomainName(n2) => {
                    assert(n1@.len() == s1.len() - 2 && n2@.len() == s2.len() - 2);
                    assert(n1@ =~= n2@) by {
                        assert(forall|i: int|
                            0 <= i < n1@.len() ==> n1@[i] == s1[i + 2] && n2@[i] == s2[i + 2]);
                    }
                },
                _ => {
                    assert(false);
                },
            }
        },
        Destination::Ipv6Addr(a1) => {
            match d2 {
                Destination::Ipv6Addr(a2) => {
                    assert(a1@ =~= a2@) by {
                        assert(forall|i: int| 0 <= i < 16 ==> a1@[i] == s1[i + 1] && a2@[i] == s2[i
                            + 1]);
                    }
                },
                _ => {
                    assert(false);
                },
            }
        },
    }
}

/// The converse direction: the serialized form is a function of the
/// type tag and the address bytes alone, so destinations that agree
/// on both serialize identically - encoding hides no other state.
pub proof fn lemma_buffer_bytes_of_model(d1: Destination, d2: Destination)
    requires
        d1.spec_tag() == d2.spec_tag(),
        d1.spec_addr_bytes() == d2.spec_addr_bytes(),
    ensures
        d1.spec_buffer_bytes() == d2.spec_buffer_bytes(),
        d1.wf() == d2.wf(),
{
    match (d1, d2) {
        (Destination::Ipv4Addr(a1), Destination::Ipv4Addr(a2)) => {
            assert(d1.spec_buffer_bytes() =~= d2.spec_buffer_bytes());
        },
        (Destination::DomainName(n1), Destination::DomainName(n2)) => {
            assert(d1.spec_buffer_bytes() =~= d2.spec_buffer_bytes());
        },
        (Destination::Ipv6Addr(a1), Destination::Ipv6Addr(a2)) => {
            assert(d1.spec_buffer_bytes() =~= d2.spec_buffer_bytes());
        },
        _ => {
            assert(false);
        },
    }
}

} // verus!
