use rdnat::auth::Credentials;
use rdnat::socks5::{
    expected, offers, read_port, Socks5Event, Socks5Next, Socks5Phase, Socks5Session, Socks5Step,
    Target,
};

const SUCCESS: [u8; 10] = [0x05, 0x00, 0x00, 0x01, 0, 0, 0, 0, 0, 0];
const FAILURE: [u8; 10] = [0x05, 0x01, 0x00, 0x01, 0, 0, 0, 0, 0, 0];

fn creds() -> Option<Credentials> {
    Some(Credentials::new(b"user".to_vec(), b"pass".to_vec()))
}

/// Feeds `input` to the session in the pieces it asks for and collects the
/// replies.
fn feed(session: &mut Socks5Session, input: &[u8]) -> (Vec<u8>, Socks5Next) {
    let mut step = match expected(session.phase) {
        Some(len) => Socks5Step { reply: Vec::new(), next: Socks5Next::Read { len } },
        None => panic!("the session does not read"),
    };
    let mut replies = Vec::new();
    let mut at = 0;
    loop {
        let len = match step.next {
            Socks5Next::Read { len } => len,
            _ => break,
        };
        if input.len() - at < len || (at == input.len() && len > 0) {
            break;
        }
        step = session.step(Socks5Event::Received(input[at..at + len].to_vec()));
        at += len;
        replies.extend_from_slice(&step.reply);
    }
    (replies, step.next)
}

#[test]
fn opening_reads_two_bytes() {
    let step = Socks5Session::opening();
    assert!(step.reply.is_empty());
    assert_eq!(step.next, Socks5Next::Read { len: 2 });
    let s = Socks5Session::new(None);
    assert_eq!(s.phase, Socks5Phase::Greeting);
    assert_eq!(expected(s.phase), Some(2));
    assert!(!s.is_over());
}

#[test]
fn greeting_without_credentials_accepts_no_auth() {
    let mut s = Socks5Session::new(None);
    let (replies, next) = feed(&mut s, &[0x05, 0x01, 0x00]);
    assert_eq!(replies, vec![0x05, 0x00]);
    assert_eq!(next, Socks5Next::Read { len: 4 });
    assert_eq!(s.phase, Socks5Phase::Request);
    let mut s = Socks5Session::new(None);
    let (replies, _) = feed(&mut s, &[0x05, 0x03, 0x02, 0x01, 0x00]);
    assert_eq!(replies, vec![0x05, 0x00]);
}

#[test]
fn greeting_without_credentials_refuses_other_methods() {
    let mut s = Socks5Session::new(None);
    let (replies, next) = feed(&mut s, &[0x05, 0x02, 0x01, 0x02]);
    assert_eq!(replies, vec![0x05, 0xff]);
    assert_eq!(next, Socks5Next::Close);
    assert_eq!(s.phase, Socks5Phase::Closed);
    assert!(s.is_over());
}

#[test]
fn greeting_without_methods_is_refused() {
    let mut s = Socks5Session::new(None);
    let step = s.step(Socks5Event::Received(vec![0x05, 0x00]));
    assert_eq!(step.next, Socks5Next::Read { len: 0 });
    let step = s.step(Socks5Event::Received(Vec::new()));
    assert_eq!(step.reply, vec![0x05, 0xff]);
    assert_eq!(step.next, Socks5Next::Close);
}

#[test]
fn greeting_with_credentials_insists_on_password() {
    let mut s = Socks5Session::new(creds());
    let (replies, next) = feed(&mut s, &[0x05, 0x02, 0x00, 0x02]);
    assert_eq!(replies, vec![0x05, 0x02]);
    assert_eq!(next, Socks5Next::Read { len: 2 });
    assert_eq!(s.phase, Socks5Phase::AuthHead);
    let mut s = Socks5Session::new(creds());
    let (replies, next) = feed(&mut s, &[0x05, 0x01, 0x00]);
    assert_eq!(replies, vec![0x05, 0xff]);
    assert_eq!(next, Socks5Next::Close);
}

#[test]
fn greeting_of_another_version_is_dropped_silently() {
    let mut s = Socks5Session::new(None);
    let step = s.step(Socks5Event::Received(vec![0x04, 0x01]));
    assert!(step.reply.is_empty());
    assert_eq!(step.next, Socks5Next::Close);
    assert_eq!(s.phase, Socks5Phase::Closed);
}

#[test]
fn sub_negotiation_accepts_the_configured_credentials() {
    let mut s = Socks5Session::new(creds());
    feed(&mut s, &[0x05, 0x01, 0x02]);
    let (replies, next) = feed(&mut s, b"\x01\x04user\x04pass");
    assert_eq!(replies, vec![0x01, 0x00]);
    assert_eq!(next, Socks5Next::Read { len: 4 });
    assert_eq!(s.phase, Socks5Phase::Request);
}

#[test]
fn sub_negotiation_rejects_any_mismatch() {
    let attempts: [&[u8]; 6] = [
        b"\x01\x04user\x04pasS",
        b"\x01\x04usex\x04pass",
        b"\x01\x03use\x04pass",
        b"\x01\x04user\x03pas",
        b"\x01\x00\x00",
        b"\x01\x04pass\x04user",
    ];
    for attempt in attempts {
        let mut s = Socks5Session::new(creds());
        feed(&mut s, &[0x05, 0x01, 0x02]);
        let (replies, next) = feed(&mut s, attempt);
        assert_eq!(replies, vec![0x01, 0x01]);
        assert_eq!(next, Socks5Next::Close);
        assert_eq!(s.phase, Socks5Phase::Closed);
    }
}

#[test]
fn sub_negotiation_does_not_look_at_its_version() {
    let mut s = Socks5Session::new(creds());
    feed(&mut s, &[0x05, 0x01, 0x02]);
    let (replies, _) = feed(&mut s, b"\x7f\x04user\x04pass");
    assert_eq!(replies, vec![0x01, 0x00]);
}

#[test]
fn request_for_ipv4_is_dialed_and_relayed() {
    let mut s = Socks5Session::new(None);
    feed(&mut s, &[0x05, 0x01, 0x00]);
    let (replies, next) = feed(&mut s, &[0x05, 0x01, 0x00, 0x01, 127, 0, 0, 1, 0x1f, 0x90]);
    assert!(replies.is_empty());
    assert_eq!(next, Socks5Next::Dial { target: Target::Ipv4 { address: [127, 0, 0, 1], port: 8080 } });
    assert_eq!(s.phase, Socks5Phase::Dialing);
    assert_eq!(expected(s.phase), None);
    let step = s.step(Socks5Event::Connected);
    assert_eq!(step.reply, SUCCESS.to_vec());
    assert_eq!(step.next, Socks5Next::Relay);
    assert_eq!(s.phase, Socks5Phase::Relaying);
    assert!(s.is_over());
}

#[test]
fn request_to_an_unreachable_target_gets_the_failure_reply() {
    let mut s = Socks5Session::new(None);
    feed(&mut s, &[0x05, 0x01, 0x00]);
    feed(&mut s, &[0x05, 0x01, 0x00, 0x01, 10, 0, 0, 1, 0, 80]);
    let step = s.step(Socks5Event::ConnectFailed);
    assert_eq!(step.reply, FAILURE.to_vec());
    assert_eq!(step.next, Socks5Next::Close);
    assert_eq!(s.phase, Socks5Phase::Closed);
}

#[test]
fn request_for_a_domain_is_dialed() {
    let mut s = Socks5Session::new(None);
    feed(&mut s, &[0x05, 0x01, 0x00]);
    let (replies, next) = feed(&mut s, b"\x05\x01\x00\x03\x0bexample.com\x01\xbb");
    assert!(replies.is_empty());
    assert_eq!(
        next,
        Socks5Next::Dial { target: Target::Domain { name: b"example.com".to_vec(), port: 443 } }
    );
}

#[test]
fn request_for_ipv6_is_dialed() {
    let mut s = Socks5Session::new(None);
    feed(&mut s, &[0x05, 0x01, 0x00]);
    let mut request = vec![0x05, 0x01, 0x00, 0x04];
    let address: [u8; 16] = [0x20, 0x01, 0x0d, 0xb8, 0, 0, 0, 0, 0, 0, 0, 0, 0, 0, 0, 1];
    request.extend_from_slice(&address);
    request.extend_from_slice(&[0xff, 0xff]);
    let (replies, next) = feed(&mut s, &request);
    assert!(replies.is_empty());
    assert_eq!(next, Socks5Next::Dial { target: Target::Ipv6 { address, port: 65535 } });
}

#[test]
fn request_with_another_command_or_address_type_is_dropped_silently() {
    for head in [[0x05, 0x02, 0x00, 0x01], [0x05, 0x03, 0x00, 0x01], [0x05, 0x01, 0x00, 0x02], [0x05, 0x01, 0x00, 0x00]] {
        let mut s = Socks5Session::new(None);
        feed(&mut s, &[0x05, 0x01, 0x00]);
        let step = s.step(Socks5Event::Received(head.to_vec()));
        assert!(step.reply.is_empty());
        assert_eq!(step.next, Socks5Next::Close);
        assert_eq!(s.phase, Socks5Phase::Closed);
    }
}

#[test]
fn a_failed_or_short_read_ends_the_session_silently() {
    let mut s = Socks5Session::new(None);
    let step = s.step(Socks5Event::ReadFailed);
    assert!(step.reply.is_empty());
    assert_eq!(step.next, Socks5Next::Close);
    let mut s = Socks5Session::new(None);
    let step = s.step(Socks5Event::Received(vec![0x05]));
    assert!(step.reply.is_empty());
    assert_eq!(step.next, Socks5Next::Close);
    let mut s = Socks5Session::new(None);
    feed(&mut s, &[0x05, 0x01, 0x00]);
    let step = s.step(Socks5Event::Connected);
    assert!(step.reply.is_empty());
    assert_eq!(step.next, Socks5Next::Close);
}

#[test]
fn whole_handshake_with_credentials() {
    let mut s = Socks5Session::new(creds());
    let mut input = vec![0x05, 0x02, 0x00, 0x02];
    input.extend_from_slice(b"\x01\x04user\x04pass");
    input.extend_from_slice(&[0x05, 0x01, 0x00, 0x01, 192, 168, 0, 1, 0x00, 0x16]);
    let (replies, next) = feed(&mut s, &input);
    assert_eq!(replies, vec![0x05, 0x02, 0x01, 0x00]);
    assert_eq!(next, Socks5Next::Dial { target: Target::Ipv4 { address: [192, 168, 0, 1], port: 22 } });
}

#[test]
fn read_port_is_big_endian() {
    assert_eq!(read_port(0x1f, 0x90), 8080);
    assert_eq!(read_port(0, 0), 0);
    assert_eq!(read_port(0xff, 0xff), 65535);
    assert_eq!(read_port(0x01, 0x00), 256);
}

#[test]
fn offers_finds_a_method() {
    assert!(offers(&[1, 2, 0], 0));
    assert!(!offers(&[1, 2], 0));
    assert!(!offers(&[], 0));
}

#[test]
fn expected_gives_the_length_of_each_read() {
    assert_eq!(expected(Socks5Phase::Methods { count: 7 }), Some(7));
    assert_eq!(expected(Socks5Phase::AuthUser { len: 255 }), Some(256));
    assert_eq!(expected(Socks5Phase::AuthPassword { user_ok: true, len: 0 }), Some(0));
    assert_eq!(expected(Socks5Phase::DomainName { len: 255 }), Some(257));
    assert_eq!(expected(Socks5Phase::Ipv4Address), Some(6));
    assert_eq!(expected(Socks5Phase::Ipv6Address), Some(18));
    assert_eq!(expected(Socks5Phase::DomainLength), Some(1));
    assert_eq!(expected(Socks5Phase::Relaying), None);
    assert_eq!(expected(Socks5Phase::Closed), None);
}
