use usbip_jiggler::usbip::server::{
    busid_matches, is_eof, send_devlist, send_import_error, send_import_ok, write_device_info,
    Admission, Handshake, HandshakeAction, HandshakeEvent, HandshakeOutcome, HandshakePhase,
    ReadFailure, Server,
};

fn busid(text: &[u8]) -> Vec<u8> {
    let mut b = vec![0u8; 32];
    b[..text.len()].copy_from_slice(text);
    b
}

fn expect_receive(a: HandshakeAction) -> usize {
    match a {
        HandshakeAction::Receive(n) => n,
        other => panic!("expected Receive, got {:?}", other),
    }
}

fn expect_send(a: HandshakeAction) -> Vec<u8> {
    match a {
        HandshakeAction::Send(b) => b,
        other => panic!("expected Send, got {:?}", other),
    }
}

fn expect_finish(a: HandshakeAction) -> HandshakeOutcome {
    match a {
        HandshakeAction::Finish(o) => o,
        other => panic!("expected Finish, got {:?}", other),
    }
}

fn header(op: u16) -> (Vec<u8>, Vec<u8>) {
    (0x0111u16.to_be_bytes().to_vec(), [op.to_be_bytes().to_vec(), vec![0, 0, 0, 0]].concat())
}

#[test]
fn device_info_record() {
    let mut w = Vec::new();
    write_device_info(&mut w);
    assert_eq!(w.len(), 316);
    let path = b"/sys/devices/pci0000:00/0000:00:01.0/usb1/1-1";
    assert_eq!(&w[..path.len()], path);
    assert!(w[path.len()..256].iter().all(|&b| b == 0));
    assert_eq!(w[256..288].to_vec(), busid(b"1-1"));
    assert_eq!(&w[288..300], &[0, 0, 0, 1, 0, 0, 0, 1, 0, 0, 0, 3]);
    assert_eq!(&w[300..306], &[0x06, 0x27, 0x00, 0x01, 0x01, 0x00]);
    assert_eq!(&w[306..312], &[0, 0, 0, 1, 1, 1]);
    assert_eq!(&w[312..316], &[0x03, 0x01, 0x02, 0x00]);
}

#[test]
fn replies() {
    let mut w = Vec::new();
    send_devlist(&mut w);
    assert_eq!(&w[..12], &[0x01, 0x11, 0x00, 0x05, 0, 0, 0, 0, 0, 0, 0, 1]);
    assert_eq!(w.len(), 12 + 316);
    let mut w = Vec::new();
    send_import_ok(&mut w);
    assert_eq!(&w[..8], &[0x01, 0x11, 0x00, 0x03, 0, 0, 0, 0]);
    assert_eq!(w.len(), 8 + 316);
    let mut w = Vec::new();
    send_import_error(&mut w);
    assert_eq!(w, vec![0x01, 0x11, 0x00, 0x03, 0, 0, 0, 1]);
}

#[test]
fn busid_matching() {
    assert!(busid_matches(&busid(b"1-1")));
    assert!(!busid_matches(&busid(b"1-2")));
    assert!(!busid_matches(&busid(b"1-10")));
    assert!(!busid_matches(&busid(b"")));
    let mut b = busid(b"1-1");
    b[31] = b'x';
    assert!(!busid_matches(&b));
    assert!(!busid_matches(b"1-1"));
}

#[test]
fn eof_failures() {
    assert!(is_eof(&ReadFailure::UnexpectedEof));
    assert!(is_eof(&ReadFailure::ConnectionReset));
    assert!(!is_eof(&ReadFailure::Other));
}

#[test]
fn devlist_then_close() {
    let (mut h, a) = Handshake::start();
    assert_eq!(expect_receive(a), 2);
    let (v, rest) = header(0x8005);
    assert_eq!(expect_receive(h.step(HandshakeEvent::Received(v))), 6);
    let reply = expect_send(h.step(HandshakeEvent::Received(rest)));
    assert_eq!(reply.len(), 328);
    assert_eq!(expect_receive(h.step(HandshakeEvent::Sent)), 2);
    assert!(h.sent_devlist);
    let o = expect_finish(h.step(HandshakeEvent::ReceiveFailed(ReadFailure::UnexpectedEof)));
    assert_eq!(o, HandshakeOutcome::DevlistOnly);
}

#[test]
fn devlist_then_import() {
    let (mut h, _) = Handshake::start();
    let (v, rest) = header(0x8005);
    h.step(HandshakeEvent::Received(v.clone()));
    h.step(HandshakeEvent::Received(rest));
    h.step(HandshakeEvent::Sent);
    let (_, rest) = header(0x8003);
    h.step(HandshakeEvent::Received(v));
    assert_eq!(expect_receive(h.step(HandshakeEvent::Received(rest))), 32);
    let reply = expect_send(h.step(HandshakeEvent::Received(busid(b"1-1"))));
    assert_eq!(&reply[..8], &[0x01, 0x11, 0x00, 0x03, 0, 0, 0, 0]);
    assert_eq!(expect_finish(h.step(HandshakeEvent::Sent)), HandshakeOutcome::Imported);
    assert_eq!(h.phase, HandshakePhase::Done);
}

#[test]
fn import_of_other_busid_is_refused() {
    let (mut h, _) = Handshake::start();
    let (v, rest) = header(0x8003);
    h.step(HandshakeEvent::Received(v));
    h.step(HandshakeEvent::Received(rest));
    let reply = expect_send(h.step(HandshakeEvent::Received(busid(b"2-1"))));
    assert_eq!(reply, vec![0x01, 0x11, 0x00, 0x03, 0, 0, 0, 1]);
    assert_eq!(expect_finish(h.step(HandshakeEvent::Sent)), HandshakeOutcome::Error);
}

#[test]
fn wrong_version_or_op_is_an_error() {
    let (mut h, _) = Handshake::start();
    assert_eq!(expect_finish(h.step(HandshakeEvent::Received(vec![0x01, 0x06]))), HandshakeOutcome::Error);

    let (mut h, _) = Handshake::start();
    h.step(HandshakeEvent::Received(vec![0x01, 0x11]));
    let o = expect_finish(h.step(HandshakeEvent::Received(vec![0x80, 0x01, 0, 0, 0, 0])));
    assert_eq!(o, HandshakeOutcome::Error);
}

#[test]
fn close_before_devlist_is_an_error() {
    let (mut h, _) = Handshake::start();
    let o = expect_finish(h.step(HandshakeEvent::ReceiveFailed(ReadFailure::UnexpectedEof)));
    assert_eq!(o, HandshakeOutcome::Error);
}

#[test]
fn other_failure_after_devlist_is_an_error() {
    let (mut h, _) = Handshake::start();
    let (v, rest) = header(0x8005);
    h.step(HandshakeEvent::Received(v));
    h.step(HandshakeEvent::Received(rest));
    h.step(HandshakeEvent::Sent);
    let o = expect_finish(h.step(HandshakeEvent::ReceiveFailed(ReadFailure::Other)));
    assert_eq!(o, HandshakeOutcome::Error);
}

#[test]
fn write_failure_is_an_error() {
    let (mut h, _) = Handshake::start();
    let (v, rest) = header(0x8005);
    h.step(HandshakeEvent::Received(v));
    h.step(HandshakeEvent::Received(rest));
    assert_eq!(expect_finish(h.step(HandshakeEvent::SendFailed)), HandshakeOutcome::Error);
}

#[test]
fn single_owner_admission() {
    let mut s = Server::new();
    assert!(matches!(s.on_connect(), Admission::Admit));
    match s.on_connect() {
        Admission::Reject(b) => assert_eq!(b, vec![0x01, 0x11, 0x00, 0x03, 0, 0, 0, 1]),
        Admission::Admit => panic!("second client admitted"),
    }
    s.on_connection_end();
    assert!(matches!(s.on_connect(), Admission::Admit));
}
