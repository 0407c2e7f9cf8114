use socks5_relay::session::{Next, Phase, Socks5Handler, Step};
use socks5_relay::target::Target;

fn expect_read(step: &Step, n: usize) {
    assert!(matches!(step.next, Next::Read(k) if k == n), "{:?}", step);
}

fn greet(h: &mut Socks5Handler) {
    let s = h.on_read(&[5, 1]);
    assert!(s.write.is_empty());
    expect_read(&s, 1);
    let s = h.on_read(&[0]);
    assert_eq!(s.write, vec![5, 0]);
    expect_read(&s, 4);
}

#[test]
fn end_to_end_ipv4_connect() {
    let (mut h, s) = Socks5Handler::new();
    assert!(s.write.is_empty());
    expect_read(&s, 2);
    greet(&mut h);
    let s = h.on_read(&[5, 1, 0, 1]);
    assert!(s.write.is_empty());
    expect_read(&s, 6);
    let s = h.on_read(&[127, 0, 0, 1, 0x27, 0x0F]);
    assert!(s.write.is_empty());
    match s.next {
        Next::Dial(Target::V4 { octets, port }) => {
            assert_eq!(octets, [127, 0, 0, 1]);
            assert_eq!(port, 9999);
        }
        other => panic!("unexpected {:?}", other),
    }
    assert_eq!(h.phase(), Phase::Dialing);
    let s = h.on_dial(true);
    assert_eq!(s.write, vec![5, 0, 0, 1, 0, 0, 0, 0, 0, 0]);
    assert!(matches!(s.next, Next::Relay));
    assert_eq!(h.phase(), Phase::Relaying);
}

#[test]
fn greeting_without_methods_is_answered_at_once() {
    let (mut h, _) = Socks5Handler::new();
    let s = h.on_read(&[5, 0]);
    assert_eq!(s.write, vec![5, 0]);
    expect_read(&s, 4);
    assert_eq!(h.phase(), Phase::Request);
}

#[test]
fn greeting_with_255_methods() {
    let (mut h, _) = Socks5Handler::new();
    let s = h.on_read(&[5, 255]);
    expect_read(&s, 255);
    let methods: Vec<u8> = (0..255u32).map(|i| i as u8).collect();
    let s = h.on_read(&methods);
    assert_eq!(s.write, vec![5, 0]);
    expect_read(&s, 4);
}

#[test]
fn greeting_ignores_offered_methods() {
    let (mut h, _) = Socks5Handler::new();
    h.on_read(&[5, 2]);
    let s = h.on_read(&[0x02, 0x01]);
    assert_eq!(s.write, vec![5, 0]);
}

#[test]
fn greeting_may_arrive_in_pieces() {
    let (mut h, _) = Socks5Handler::new();
    expect_read(&h.on_read(&[5]), 1);
    expect_read(&h.on_read(&[3]), 3);
    expect_read(&h.on_read(&[0, 1]), 1);
    let s = h.on_read(&[2]);
    assert_eq!(s.write, vec![5, 0]);
}

#[test]
fn unknown_address_type_closes_without_reply() {
    for tag in [0u8, 2, 5, 0xff] {
        let (mut h, _) = Socks5Handler::new();
        greet(&mut h);
        let s = h.on_read(&[5, 1, 0, tag]);
        assert!(s.write.is_empty());
        assert!(matches!(s.next, Next::Close));
        assert_eq!(h.phase(), Phase::Closed);
    }
}

#[test]
fn ipv6_request_dials_groups() {
    let (mut h, _) = Socks5Handler::new();
    greet(&mut h);
    expect_read(&h.on_read(&[5, 1, 0, 4]), 18);
    let mut rest: Vec<u8> = vec![0x20, 0x01, 0x0d, 0xb8, 0, 0, 0, 0, 0, 0, 0, 0, 0, 0, 0x00, 0x01];
    rest.extend_from_slice(&[0x01, 0xbb]);
    let s = h.on_read(&rest);
    match s.next {
        Next::Dial(Target::V6 { segments, port }) => {
            assert_eq!(segments, [0x2001, 0x0db8, 0, 0, 0, 0, 0, 1]);
            assert_eq!(port, 443);
        }
        other => panic!("unexpected {:?}", other),
    }
}

#[test]
fn domain_request_resolves_name_and_port() {
    let (mut h, _) = Socks5Handler::new();
    greet(&mut h);
    expect_read(&h.on_read(&[5, 1, 0, 3]), 1);
    expect_read(&h.on_read(&[11]), 13);
    let mut rest = b"example.com".to_vec();
    rest.extend_from_slice(&[0, 80]);
    let s = h.on_read(&rest);
    match s.next {
        Next::Dial(Target::Host(text)) => assert_eq!(text, "example.com:80"),
        other => panic!("unexpected {:?}", other),
    }
}

#[test]
fn empty_domain_name() {
    let (mut h, _) = Socks5Handler::new();
    greet(&mut h);
    h.on_read(&[5, 1, 0, 3]);
    expect_read(&h.on_read(&[0]), 2);
    let s = h.on_read(&[0xff, 0xff]);
    match s.next {
        Next::Dial(Target::Host(text)) => assert_eq!(text, ":65535"),
        other => panic!("unexpected {:?}", other),
    }
}

#[test]
fn invalid_utf8_domain_closes() {
    let (mut h, _) = Socks5Handler::new();
    greet(&mut h);
    h.on_read(&[5, 1, 0, 3]);
    h.on_read(&[2]);
    let s = h.on_read(&[0xc3, 0x28, 0, 80]);
    assert!(s.write.is_empty());
    assert!(matches!(s.next, Next::Close));
}

#[test]
fn end_of_stream_closes() {
    let (mut h, _) = Socks5Handler::new();
    let s = h.on_read(&[]);
    assert!(matches!(s.next, Next::Close));
    assert_eq!(h.phase(), Phase::Closed);
    let s = h.on_read(&[5, 0]);
    assert!(matches!(s.next, Next::Close));
}

#[test]
fn more_than_asked_closes() {
    let (mut h, _) = Socks5Handler::new();
    let s = h.on_read(&[5, 0, 5]);
    assert!(s.write.is_empty());
    assert!(matches!(s.next, Next::Close));
}

#[test]
fn failed_dial_closes_without_reply() {
    let (mut h, _) = Socks5Handler::new();
    greet(&mut h);
    h.on_read(&[5, 1, 0, 1]);
    h.on_read(&[10, 0, 0, 1, 0, 22]);
    let s = h.on_dial(false);
    assert!(s.write.is_empty());
    assert!(matches!(s.next, Next::Close));
    assert_eq!(h.phase(), Phase::Closed);
}

#[test]
fn dial_outside_dialing_phase_closes() {
    let (mut h, _) = Socks5Handler::new();
    let s = h.on_dial(true);
    assert!(s.write.is_empty());
    assert!(matches!(s.next, Next::Close));
}
