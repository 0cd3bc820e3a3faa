use usbip_jiggler::hid::device_descriptor;
use usbip_jiggler::usbip::handler::{SessionEnd, UrbAction, UrbEvent, UrbSession};

fn submit_body(seqnum: u32, direction: u32, ep: u32, tbl: i32, setup: [u8; 8]) -> Vec<u8> {
    let mut b = Vec::new();
    for v in [seqnum, 0x0001_0002, direction, ep, 0] {
        b.extend_from_slice(&v.to_be_bytes());
    }
    b.extend_from_slice(&tbl.to_be_bytes());
    for v in [0i32, -1, 10] {
        b.extend_from_slice(&v.to_be_bytes());
    }
    b.extend_from_slice(&setup);
    b
}

fn expect_receive(a: UrbAction) -> usize {
    match a {
        UrbAction::Receive(n) => n,
        other => panic!("expected Receive, got {:?}", other),
    }
}

fn expect_send(a: UrbAction) -> Vec<u8> {
    match a {
        UrbAction::Send(b) => b,
        other => panic!("expected Send, got {:?}", other),
    }
}

fn expect_close(a: UrbAction) -> SessionEnd {
    match a {
        UrbAction::Close(e) => e,
        other => panic!("expected Close, got {:?}", other),
    }
}

fn be32(b: &[u8], at: usize) -> u32 {
    u32::from_be_bytes([b[at], b[at + 1], b[at + 2], b[at + 3]])
}

fn start_submit(s: &mut UrbSession) {
    assert_eq!(expect_receive(s.step(UrbEvent::Received(vec![0, 0, 0, 1]))), 44);
}

#[test]
fn session_starts_by_reading_a_command_word() {
    let (_, a) = UrbSession::start();
    assert_eq!(expect_receive(a), 4);
}

#[test]
fn interrupt_in_with_pending_report() {
    let (mut s, _) = UrbSession::start();
    start_submit(&mut s);
    let a = s.step(UrbEvent::Received(submit_body(77, 1, 1, 4, [0; 8])));
    assert!(matches!(a, UrbAction::PollReport));
    let reply = expect_send(s.step(UrbEvent::Report(Some([0, 5, 0xfb, 0]))));
    assert_eq!(reply.len(), 52);
    assert_eq!(be32(&reply, 0), 3);
    assert_eq!(be32(&reply, 4), 77);
    // devid, direction and ep are 0 in the reply
    assert_eq!(&reply[8..20], &[0u8; 12]);
    assert_eq!(be32(&reply, 20), 0);
    assert_eq!(be32(&reply, 24), 4);
    assert_eq!(be32(&reply, 28), 0);
    // number_of_packets 0, error_count 0, 8 bytes of padding
    assert_eq!(&reply[32..48], &[0u8; 16]);
    assert_eq!(&reply[48..], &[0, 5, 0xfb, 0]);
    assert_eq!(expect_receive(s.step(UrbEvent::Sent)), 4);
}

#[test]
fn interrupt_in_without_pending_report_sends_zero_report() {
    let (mut s, _) = UrbSession::start();
    start_submit(&mut s);
    s.step(UrbEvent::Received(submit_body(5, 1, 1, 4, [0; 8])));
    let reply = expect_send(s.step(UrbEvent::Report(None)));
    assert_eq!(be32(&reply, 24), 4);
    assert_eq!(reply.len(), 52);
    assert_eq!(&reply[48..], &[0, 0, 0, 0]);
}

#[test]
fn control_submit_gets_descriptor() {
    let (mut s, _) = UrbSession::start();
    start_submit(&mut s);
    let reply = expect_send(s.step(UrbEvent::Received(submit_body(
        3,
        1,
        0,
        18,
        [0x80, 6, 0, 1, 0, 0, 18, 0],
    ))));
    assert_eq!(be32(&reply, 0), 3);
    assert_eq!(be32(&reply, 4), 3);
    assert_eq!(&reply[8..20], &[0u8; 12]);
    assert_eq!(be32(&reply, 20), 0);
    assert_eq!(be32(&reply, 24), 18);
    assert_eq!(be32(&reply, 32), 0);
    assert_eq!(reply[48..].to_vec(), device_descriptor());
}

#[test]
fn unknown_endpoint_gets_epipe() {
    let (mut s, _) = UrbSession::start();
    start_submit(&mut s);
    let reply = expect_send(s.step(UrbEvent::Received(submit_body(9, 1, 2, 4, [0; 8]))));
    assert_eq!(reply.len(), 48);
    assert_eq!(be32(&reply, 20) as i32, -32);
    assert_eq!(be32(&reply, 24), 0);
}

#[test]
fn out_data_is_drained_first() {
    let (mut s, _) = UrbSession::start();
    start_submit(&mut s);
    let n = expect_receive(s.step(UrbEvent::Received(submit_body(
        4,
        0,
        0,
        6,
        [0x00, 0x09, 1, 0, 0, 0, 0, 0],
    ))));
    assert_eq!(n, 6);
    let reply = expect_send(s.step(UrbEvent::Received(vec![1, 2, 3, 4, 5, 6])));
    assert_eq!(reply.len(), 48);
    assert_eq!(be32(&reply, 4), 4);
}

#[test]
fn out_data_read_failure_ends_session() {
    let (mut s, _) = UrbSession::start();
    start_submit(&mut s);
    s.step(UrbEvent::Received(submit_body(4, 0, 0, 6, [0; 8])));
    assert_eq!(expect_close(s.step(UrbEvent::ReceiveFailed)), SessionEnd::TransferReadFailed);
}

#[test]
fn unlink_is_answered_with_status_zero() {
    let (mut s, _) = UrbSession::start();
    assert_eq!(expect_receive(s.step(UrbEvent::Received(vec![0, 0, 0, 2]))), 44);
    let mut body = Vec::new();
    for v in [11u32, 0x10002, 0, 1, 10] {
        body.extend_from_slice(&v.to_be_bytes());
    }
    body.extend_from_slice(&[0; 24]);
    let reply = expect_send(s.step(UrbEvent::Received(body)));
    assert_eq!(reply.len(), 48);
    assert_eq!(be32(&reply, 0), 4);
    assert_eq!(be32(&reply, 4), 11);
    assert_eq!(be32(&reply, 16), 1);
    assert_eq!(be32(&reply, 20), 0);
    assert_eq!(expect_close(s.step(UrbEvent::Sent)), SessionEnd::Unlinked);
}

#[test]
fn unlink_reply_write_failure_is_a_disconnect() {
    let (mut s, _) = UrbSession::start();
    s.step(UrbEvent::Received(vec![0, 0, 0, 2]));
    expect_send(s.step(UrbEvent::Received(vec![0u8; 44])));
    assert_eq!(expect_close(s.step(UrbEvent::SendFailed)), SessionEnd::Disconnected);
}

#[test]
fn unknown_command_ends_session() {
    let (mut s, _) = UrbSession::start();
    let e = expect_close(s.step(UrbEvent::Received(vec![0, 0, 0x80, 0x05])));
    assert_eq!(e, SessionEnd::UnknownCommand(0x8005));
}

#[test]
fn failures_end_session() {
    let (mut s, _) = UrbSession::start();
    assert_eq!(expect_close(s.step(UrbEvent::ReceiveFailed)), SessionEnd::Disconnected);

    let (mut s, _) = UrbSession::start();
    start_submit(&mut s);
    assert_eq!(expect_close(s.step(UrbEvent::ReceiveFailed)), SessionEnd::MalformedSubmit);

    let (mut s, _) = UrbSession::start();
    start_submit(&mut s);
    assert_eq!(
        expect_close(s.step(UrbEvent::Received(vec![0; 10]))),
        SessionEnd::MalformedSubmit
    );

    let (mut s, _) = UrbSession::start();
    s.step(UrbEvent::Received(vec![0, 0, 0, 2]));
    assert_eq!(expect_close(s.step(UrbEvent::ReceiveFailed)), SessionEnd::MalformedUnlink);

    let (mut s, _) = UrbSession::start();
    start_submit(&mut s);
    s.step(UrbEvent::Received(submit_body(1, 1, 2, 0, [0; 8])));
    assert_eq!(expect_close(s.step(UrbEvent::SendFailed)), SessionEnd::Disconnected);
    assert_eq!(expect_close(s.step(UrbEvent::Sent)), SessionEnd::Disconnected);
}

/// Runs a session over `inp` with the queued reports `q`, every write
/// succeeding, and returns what it wrote.
fn drive(inp: &[u8], q: &mut Vec<[u8; 4]>) -> Vec<u8> {
    let (mut s, mut a) = UrbSession::start();
    let mut pos = 0;
    let mut out = Vec::new();
    loop {
        let ev = match a {
            UrbAction::Receive(n) => {
                if pos + n <= inp.len() {
                    pos += n;
                    UrbEvent::Received(inp[pos - n..pos].to_vec())
                } else {
                    pos = inp.len();
                    UrbEvent::ReceiveFailed
                }
            }
            UrbAction::PollReport => {
                UrbEvent::Report(if q.is_empty() { None } else { Some(q.remove(0)) })
            }
            UrbAction::Send(b) => {
                out.extend_from_slice(&b);
                UrbEvent::Sent
            }
            UrbAction::Close(_) => return out,
        };
        a = s.step(ev);
    }
}

#[test]
fn one_reply_per_submit_in_command_order() {
    let mut inp = Vec::new();
    for (seq, ep) in [(10u32, 1u32), (11, 0), (12, 1), (13, 5)] {
        inp.extend_from_slice(&[0, 0, 0, 1]);
        inp.extend_from_slice(&submit_body(seq, 1, ep, 64, [0x80, 6, 0, 1, 0, 0, 18, 0]));
    }
    let mut q = vec![[0, 3, 0xfd, 0]];
    let out = drive(&inp, &mut q);
    assert!(q.is_empty());
    let mut at = 0;
    for (seq, len) in [(10u32, 4usize), (11, 18), (12, 4), (13, 0)] {
        assert_eq!(be32(&out, at), 3);
        assert_eq!(be32(&out, at + 4), seq);
        assert_eq!(be32(&out, at + 24) as usize, len);
        at += 48 + len;
    }
    assert_eq!(at, out.len());
    // the first interrupt IN gets the queued report, the second the zero report
    assert_eq!(&out[48..52], &[0, 3, 0xfd, 0]);
    assert_eq!(&out[52 + 66 + 48..52 + 66 + 52], &[0, 0, 0, 0]);
}

#[test]
fn unlink_ends_a_run() {
    let mut inp = vec![0, 0, 0, 2];
    inp.extend_from_slice(&[0u8; 44]);
    inp.extend_from_slice(&[0, 0, 0, 1]);
    inp.extend_from_slice(&submit_body(1, 1, 1, 4, [0; 8]));
    let out = drive(&inp, &mut Vec::new());
    assert_eq!(out.len(), 48);
    assert_eq!(be32(&out, 0), 4);
}
