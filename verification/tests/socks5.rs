use socks_client::clients::socks5::no_auth::AuthenticationKind;
use socks_client::clients::socks5::no_auth::ErrorKind;
use socks_client::clients::socks5::no_auth::NextPhase;
use socks_client::clients::socks5::no_auth::NotSupportedMethod;
use socks_client::clients::socks5::no_auth::TcpNoAuth;
use socks_client::clients::socks5::Command;
use socks_client::clients::socks5::Destination;
use socks_client::general::ConnectionTimeouts;
use socks_client::general::TransferEvent;

fn timeouts() -> ConnectionTimeouts {
    ConnectionTimeouts::new(8000, 8000, 8000)
}

fn no_auth_client() -> TcpNoAuth {
    TcpNoAuth::new(Destination::Ipv4Addr([52, 20, 16, 20]), 30000, timeouts())
}

fn userpass_client() -> TcpNoAuth {
    let mut c = no_auth_client();
    c.with_authentication(b"user".to_vec(), b"pass".to_vec());
    c
}

#[test]
fn v5_command_codes() {
    assert_eq!(Command::TcpConnectionEstablishment.code(), 1);
    assert_eq!(Command::TcpPortBinding.code(), 2);
    assert_eq!(Command::UdpPortBinding.code(), 3);
}

#[test]
fn v5_new_selects_no_authentication() {
    let c = no_auth_client();
    assert!(matches!(c.auth, AuthenticationKind::NoAuthentication));
}

#[test]
fn v5_method_request_no_auth() {
    let c = no_auth_client();
    let buf = c.method_negotiation_request().expect("encodable");
    assert_eq!(buf, vec![5, 1, 0]);
}

#[test]
fn v5_method_request_userpass() {
    let c = userpass_client();
    let buf = c.method_negotiation_request().expect("encodable");
    assert_eq!(buf, vec![5, 1, 2]);
}

#[test]
fn v5_method_request_rejects_unsupported_kinds() {
    let mut c = no_auth_client();
    c.auth = AuthenticationKind::GenericSecurityServicesAPI;
    assert!(matches!(
        c.method_negotiation_request(),
        Err(ErrorKind::Method(NotSupportedMethod::GssAPI))
    ));
    c.auth = AuthenticationKind::PrivateMethods;
    assert!(matches!(
        c.method_negotiation_request(),
        Err(ErrorKind::Method(NotSupportedMethod::PrivateMethods))
    ));
    c.auth = AuthenticationKind::NoAcceptable;
    assert!(matches!(c.method_negotiation_request(), Err(ErrorKind::BadBuffer)));
}

#[test]
fn v5_method_reply_no_auth_proceeds_to_connect() {
    let c = no_auth_client();
    let r = c.process_method_reply(TransferEvent::Replied(2), &vec![5, 0]);
    assert!(matches!(r, Ok(NextPhase::ConnectRequest)));
}

#[test]
fn v5_method_reply_generic_rejection_is_bad_buffer() {
    let c = no_auth_client();
    let r = c.process_method_reply(TransferEvent::Replied(2), &vec![5, 0xff]);
    assert!(matches!(r, Err(ErrorKind::BadBuffer)));
}

#[test]
fn v5_method_reply_wrong_version_is_bad_buffer() {
    let c = no_auth_client();
    let r = c.process_method_reply(TransferEvent::Replied(2), &vec![4, 0]);
    assert!(matches!(r, Err(ErrorKind::BadBuffer)));
}

#[test]
fn v5_method_reply_wrong_count_is_bad_buffer() {
    let c = no_auth_client();
    let r = c.process_method_reply(TransferEvent::Replied(1), &vec![5, 0]);
    assert!(matches!(r, Err(ErrorKind::BadBuffer)));
}

#[test]
fn v5_method_reply_userpass_proceeds_to_subnegotiation() {
    let c = userpass_client();
    let r = c.process_method_reply(TransferEvent::Replied(2), &vec![5, 2]);
    assert!(matches!(r, Ok(NextPhase::Authenticating)));
}

#[test]
fn v5_method_reply_userpass_chosen_without_credentials() {
    let c = no_auth_client();
    let r = c.process_method_reply(TransferEvent::Replied(2), &vec![5, 2]);
    assert!(matches!(r, Err(ErrorKind::BadBuffer)));
}

#[test]
fn v5_method_reply_no_auth_chosen_while_authenticating() {
    let c = userpass_client();
    let r = c.process_method_reply(TransferEvent::Replied(2), &vec![5, 0]);
    assert!(matches!(
        r,
        Err(ErrorKind::Method(NotSupportedMethod::NoAuthRequired))
    ));
}

#[test]
fn v5_method_reply_unsupported_families() {
    let c = no_auth_client();
    let r = c.process_method_reply(TransferEvent::Replied(2), &vec![5, 1]);
    assert!(matches!(r, Err(ErrorKind::Method(NotSupportedMethod::GssAPI))));
    let r = c.process_method_reply(TransferEvent::Replied(2), &vec![5, 0x50]);
    assert!(matches!(r, Err(ErrorKind::Method(NotSupportedMethod::IANA))));
    let r = c.process_method_reply(TransferEvent::Replied(2), &vec![5, 0x90]);
    assert!(matches!(
        r,
        Err(ErrorKind::Method(NotSupportedMethod::PrivateMethods))
    ));
}

#[test]
fn v5_method_reply_timeout_event() {
    let c = no_auth_client();
    let r = c.process_method_reply(TransferEvent::TimedOut, &Vec::new());
    assert!(matches!(r, Err(ErrorKind::OperationTimeoutReached)));
}

#[test]
fn v5_auth_request_exact_bytes() {
    let c = userpass_client();
    let buf = c.authentication_request();
    assert_eq!(
        buf,
        vec![1, 4, b'u', b's', b'e', b'r', 4, b'p', b'a', b's', b's']
    );
}

#[test]
fn v5_auth_request_is_idempotent() {
    let c1 = userpass_client();
    let c2 = userpass_client();
    assert_eq!(c1.authentication_request(), c2.authentication_request());
}

#[test]
fn v5_auth_reply_success() {
    let r = TcpNoAuth::process_authentication_reply(TransferEvent::Replied(2), &vec![1, 0]);
    assert!(r.is_ok());
}

#[test]
fn v5_auth_reply_failure_maps_through_status_table() {
    let r = TcpNoAuth::process_authentication_reply(TransferEvent::Replied(2), &vec![1, 1]);
    assert!(matches!(r, Err(ErrorKind::SocksServerFailure)));
    let r = TcpNoAuth::process_authentication_reply(TransferEvent::Replied(2), &vec![1, 0x6a]);
    assert!(matches!(r, Err(ErrorKind::BadBuffer)));
}

#[test]
fn v5_auth_reply_wrong_count_is_bad_buffer() {
    let r = TcpNoAuth::process_authentication_reply(TransferEvent::Replied(1), &vec![1, 0]);
    assert!(matches!(r, Err(ErrorKind::BadBuffer)));
}

#[test]
fn v5_connect_request_ipv4_exact_bytes() {
    let c = no_auth_client();
    let buf = c.connect_request().expect("encodable");
    assert_eq!(buf, vec![5, 1, 0, 1, 52, 20, 16, 20, 0x75, 0x30]);
    assert_eq!(buf.len(), 3 + c.destination.len_as_buffer() + 2);
}

#[test]
fn v5_connect_request_domain_exact_bytes() {
    let c = TcpNoAuth::new(Destination::DomainName(b"abc".to_vec()), 80, timeouts());
    let buf = c.connect_request().expect("encodable");
    assert_eq!(buf, vec![5, 1, 0, 3, 3, b'a', b'b', b'c', 0, 80]);
    assert_eq!(buf.len(), 3 + c.destination.len_as_buffer() + 2);
}

#[test]
fn v5_connect_request_ipv6_exact_bytes() {
    let octets = [1, 2, 3, 4, 5, 6, 7, 8, 9, 10, 11, 12, 13, 14, 15, 16];
    let c = TcpNoAuth::new(Destination::Ipv6Addr(octets), 443, timeouts());
    let buf = c.connect_request().expect("encodable");
    let mut expected = vec![5, 1, 0, 4];
    expected.extend_from_slice(&octets);
    expected.push(1);
    expected.push(0xbb);
    assert_eq!(buf, expected);
}

#[test]
fn v5_connect_request_domain_too_long_fails_before_io() {
    let c = TcpNoAuth::new(Destination::DomainName(vec![b'a'; 256]), 80, timeouts());
    assert!(matches!(c.connect_request(), Err(ErrorKind::DomainNameTooLong)));
}

#[test]
fn v5_connect_request_is_idempotent() {
    let c1 = no_auth_client();
    let c2 = no_auth_client();
    assert_eq!(
        c1.connect_request().expect("encodable"),
        c2.connect_request().expect("encodable")
    );
}

#[test]
fn v5_connect_reply_full_success_reply() {
    let reply = vec![5, 0, 0, 1, 0, 0, 0, 0, 0, 0];
    let r = TcpNoAuth::process_connect_reply(TransferEvent::Replied(10), &reply);
    assert!(r.is_ok());
}

#[test]
fn v5_connect_reply_network_unreachable() {
    let r = TcpNoAuth::process_connect_reply(TransferEvent::Replied(2), &vec![5, 3]);
    assert!(matches!(r, Err(ErrorKind::NetworkUnreachable)));
}

#[test]
fn v5_connect_reply_status_table() {
    let cases: Vec<(u8, fn(&ErrorKind) -> bool)> = vec![
        (1, |e| matches!(e, ErrorKind::SocksServerFailure)),
        (2, |e| matches!(e, ErrorKind::RequestDenied)),
        (3, |e| matches!(e, ErrorKind::NetworkUnreachable)),
        (4, |e| matches!(e, ErrorKind::HostUnreachable)),
        (5, |e| matches!(e, ErrorKind::ConnectionRefused)),
        (6, |e| matches!(e, ErrorKind::TTLExpired)),
        (7, |e| matches!(e, ErrorKind::NotSupported)),
        (8, |e| matches!(e, ErrorKind::DestinationNotSupported)),
        (9, |e| matches!(e, ErrorKind::BadBuffer)),
        (0xff, |e| matches!(e, ErrorKind::BadBuffer)),
    ];
    for (code, is_expected) in cases {
        let r = TcpNoAuth::process_connect_reply(TransferEvent::Replied(2), &vec![5, code]);
        match r {
            Err(e) => assert!(is_expected(&e), "wrong error for code {}", code),
            Ok(()) => panic!("code {} must not succeed", code),
        }
    }
}

#[test]
fn v5_connect_reply_short_read_is_bad_buffer() {
    let r = TcpNoAuth::process_connect_reply(TransferEvent::Replied(1), &vec![5, 0]);
    assert!(matches!(r, Err(ErrorKind::BadBuffer)));
    let r = TcpNoAuth::process_connect_reply(TransferEvent::Replied(0), &Vec::new());
    assert!(matches!(r, Err(ErrorKind::BadBuffer)));
}

#[test]
fn v5_connect_reply_timeout_event() {
    let r = TcpNoAuth::process_connect_reply(TransferEvent::TimedOut, &Vec::new());
    assert!(matches!(r, Err(ErrorKind::OperationTimeoutReached)));
}

#[test]
fn v5_connect_reply_io_failure_event() {
    let e = std::io::Error::new(std::io::ErrorKind::BrokenPipe, "pipe");
    let r = TcpNoAuth::process_connect_reply(TransferEvent::Failed(e), &Vec::new());
    assert!(matches!(r, Err(ErrorKind::IOError(_))));
}

#[test]
fn v5_full_handshake_no_auth() {
    let c = no_auth_client();
    let negotiation = c.method_negotiation_request().expect("encodable");
    assert_eq!(negotiation, vec![5, 1, 0]);
    let phase = c
        .process_method_reply(TransferEvent::Replied(2), &vec![5, 0])
        .expect("server accepts no-auth");
    assert!(matches!(phase, NextPhase::ConnectRequest));
    let request = c.connect_request().expect("encodable");
    assert_eq!(request, vec![5, 1, 0, 1, 52, 20, 16, 20, 0x75, 0x30]);
    let reply = vec![5, 0, 0, 1, 0, 0, 0, 0, 0, 0];
    let r = TcpNoAuth::process_connect_reply(TransferEvent::Replied(10), &reply);
    assert!(r.is_ok());
}

#[test]
fn v5_full_handshake_with_credentials() {
    let c = userpass_client();
    let negotiation = c.method_negotiation_request().expect("encodable");
    assert_eq!(negotiation, vec![5, 1, 2]);
    let phase = c
        .process_method_reply(TransferEvent::Replied(2), &vec![5, 2])
        .expect("server selects username/password");
    assert!(matches!(phase, NextPhase::Authenticating));
    let auth = c.authentication_request();
    assert_eq!(auth, vec![1, 4, b'u', b's', b'e', b'r', 4, b'p', b'a', b's', b's']);
    TcpNoAuth::process_authentication_reply(TransferEvent::Replied(2), &vec![1, 0])
        .expect("authenticated");
    let request = c.connect_request().expect("encodable");
    let reply = vec![5, 0, 0, 1, 0, 0, 0, 0, 0, 0];
    assert_eq!(request[0], 5);
    let r = TcpNoAuth::process_connect_reply(TransferEvent::Replied(10), &reply);
    assert!(r.is_ok());
}

#[test]
fn v5_with_authentication_keeps_other_fields() {
    let mut c = no_auth_client();
    c.with_authentication(b"u".to_vec(), b"p".to_vec());
    assert_eq!(c.port, 30000);
    match &c.auth {
        AuthenticationKind::UsernamePassword { username, password } => {
            assert_eq!(username, b"u");
            assert_eq!(password, b"p");
        }
        _ => panic!("authentication was not selected"),
    }
}

#[test]
fn v5_error_messages() {
    assert_eq!(ErrorKind::DomainNameTooLong.message(), "domain name is too long");
    assert_eq!(ErrorKind::BadBuffer.message(), "bad buffer has been received");
    assert_eq!(ErrorKind::RequestDenied.message(), "request denied");
    assert_eq!(
        ErrorKind::SocksServerFailure.message(),
        "SOCKS5 server is unavailable"
    );
    assert_eq!(ErrorKind::NetworkUnreachable.message(), "network is unreachable");
    assert_eq!(
        ErrorKind::HostUnreachable.message(),
        "destination host is unreachable"
    );
    assert_eq!(ErrorKind::ConnectionRefused.message(), "connection refused");
    assert_eq!(ErrorKind::TTLExpired.message(), "TTL is expired");
    assert_eq!(
        ErrorKind::NotSupported.message(),
        "operation is not supported by the SOCKS server"
    );
    assert_eq!(
        ErrorKind::DestinationNotSupported.message(),
        "the type of passed destination is not supported"
    );
    assert_eq!(
        ErrorKind::OperationTimeoutReached.message(),
        "operation timeout reached"
    );
    assert_eq!(
        ErrorKind::Method(NotSupportedMethod::NoAuthRequired).message(),
        "the authentication not required"
    );
    let e = std::io::Error::new(std::io::ErrorKind::Other, "boom");
    assert_eq!(ErrorKind::IOError(e).message(), "I/O error: boom");
}
