//! The URB phase of a session: control requests, the interrupt IN endpoint
//! and the command loop, as a state machine driven by the transport.
use crate::hid::{
    configuration_descriptor, device_descriptor, report_descriptor, spec_configuration_descriptor,
    spec_device_descriptor, spec_report_descriptor, spec_string_descriptor,
    spec_string_descriptor_0, string_descriptor, string_descriptor_0,
};
use crate::hid::mouse::MouseReport;
use crate::usbip::{
    i32_at, u32_at, CmdSubmit, CmdUnlink, RetSubmit, RetUnlink, CMD_SUBMIT_BODY_LEN, CMD_UNLINK_BODY_LEN,
    USBIP_CMD_SUBMIT, USBIP_CMD_UNLINK,
};
use crate::wire::read_u32_at;
use vstd::prelude::*;

verus! {

/// The manufacturer string (string descriptor index 1).
pub open spec fn manufacturer_name() -> Seq<char> {
    seq!['R', 'u', 's', 't']
}

/// The product string (string descriptor index 2).
pub open spec fn product_name() -> Seq<char> {
    seq!['M', 'o', 'u', 's', 'e', ' ', 'J', 'i', 'g', 'g', 'l', 'e', 'r']
}

/// The descriptor that GET_DESCRIPTOR names by type and index; empty for
/// those the device does not have.
pub open spec fn standard_descriptor(desc_type: u8, index: u8) -> Seq<u8> {
    if desc_type == 0x01 {
        spec_device_descriptor()
    } else if desc_type == 0x02 {
        spec_configuration_descriptor()
    } else if desc_type == 0x03 {
        if index == 0 {
            spec_string_descriptor_0()
        } else if index == 1 {
            spec_string_descriptor(manufacturer_name())
        } else if index == 2 {
            spec_string_descriptor(product_name())
        } else {
            Seq::empty()
        }
    } else {
        Seq::empty()
    }
}

/// The first `n` bytes of `d`, or all of `d` when it is shorter.
pub open spec fn at_most(d: Seq<u8>, n: int) -> Seq<u8> {
    if d.len() <= n {
        d
    } else {
        d.take(n)
    }
}

/// `wLength` of a setup packet (little-endian).
pub open spec fn setup_w_length(setup: Seq<u8>) -> int {
    setup[6] + 256 * setup[7]
}

/// The data stage of a control transfer for the 8-byte `setup` packet:
/// standard GET_DESCRIPTOR (0x80, 0x06) gives the descriptor named by the
/// high byte (type) and low byte (index) of `wValue`; class GET_DESCRIPTOR
/// on the interface (0x81, 0x06) gives the report descriptor for type 0x22;
/// both are cut to `wLength`; every other request gives no data.
pub open spec fn spec_control_data(setup: Seq<u8>) -> Seq<u8> {
    if setup[0] == 0x80 && setup[1] == 0x06 {
        at_most(standard_descriptor(setup[3], setup[2]), setup_w_length(setup))
    } else if setup[0] == 0x81 && setup[1] == 0x06 {
        if setup[3] == 0x22 {
            at_most(spec_report_descriptor(), setup_w_length(setup))
        } else {
            Seq::empty()
        }
    } else {
        Seq::empty()
    }
}

/// Answers a control transfer on endpoint 0: the data of
/// `spec_control_data` for its setup packet, with status 0 in every case.
pub fn handle_control(submit: &CmdSubmit) -> (r: (Vec<u8>, i32))
    ensures
        r.0@ == spec_control_data(submit.setup@),
        r.1 == 0,
{
    let bm_request_type = submit.setup[0];
    let b_request = submit.setup[1];
    let w_length = submit.setup[6] as usize + 256 * submit.setup[7] as usize;
    if bm_request_type == 0x80 && b_request == 0x06 {
        let desc_type = submit.setup[3];
        let desc_idx = submit.setup[2];
        let mut data: Vec<u8> = if desc_type == 0x01 {
            device_descriptor()
        } else if desc_type == 0x02 {
            configuration_descriptor()
        } else if desc_type == 0x03 {
            if desc_idx == 0 {
                string_descriptor_0()
            } else if desc_idx == 1 {
                proof {
                    reveal_strlit("Rust");
                }
                let d = string_descriptor("Rust");
                assert("Rust"@ =~= manufacturer_name());
                d
            } else if desc_idx == 2 {
                proof {
                    reveal_strlit("Mouse Jiggler");
                }
                let d = string_descriptor("Mouse Jiggler");
                assert("Mouse Jiggler"@ =~= product_name());
                d
            } else {
                Vec::new()
            }
        } else {
            Vec::new()
        };
        data.truncate(w_length);
        (data, 0)
    } else if bm_request_type == 0x81 && b_request == 0x06 {
        if submit.setup[3] == 0x22 {
            let mut data = report_descriptor();
            data.truncate(w_length);
            (data, 0)
        } else {
            (Vec::new(), 0)
        }
    } else {
        (Vec::new(), 0)
    }
}


/// Why a URB session ended.
#[derive(Debug, PartialEq, Eq, Structural)]
pub enum SessionEnd {
    /// The client closed the connection or a write to it failed.
    Disconnected,
    /// A CMD_SUBMIT body could not be read.
    MalformedSubmit,
    /// The OUT data of a CMD_SUBMIT could not be read.
    TransferReadFailed,
    /// A CMD_UNLINK body could not be read.
    MalformedUnlink,
    /// The command word was neither CMD_SUBMIT nor CMD_UNLINK.
    UnknownCommand(u32),
    /// A CMD_UNLINK was answered, which ends the session.
    Unlinked,
}

/// Where a URB session stands.
#[derive(Debug)]
pub enum UrbPhase {
    /// Waiting for the 4-byte command word.
    AwaitCommand,
    /// Waiting for the 44-byte CMD_SUBMIT body.
    AwaitSubmit,
    /// Waiting for the OUT data of this submit, which is read and ignored.
    AwaitOutData(CmdSubmit),
    /// Waiting for the next pending mouse report, if any, for this
    /// interrupt IN submit.
    AwaitReport(CmdSubmit),
    /// Waiting for the 44-byte CMD_UNLINK body.
    AwaitUnlink,
    /// A RET_SUBMIT reply is being written.
    Sending,
    /// The RET_UNLINK reply is being written; the session ends after it.
    SendingUnlinkReply,
    /// The session is over.
    Closed,
}

/// What the transport reports back after carrying out a `UrbAction`.
#[derive(Debug)]
pub enum UrbEvent {
    /// The requested bytes were read.
    Received(Vec<u8>),
    /// The requested bytes could not be read.
    ReceiveFailed,
    /// The report queue was polled: the next pending report, if any.
    Report(Option<[u8; 4]>),
    /// The reply was written.
    Sent,
    /// The reply could not be written.
    SendFailed,
}

pub enum UrbEventView {
    Received(Seq<u8>),
    ReceiveFailed,
    Report(Option<Seq<u8>>),
    Sent,
    SendFailed,
}

impl View for UrbEvent {
    type V = UrbEventView;

    open spec fn view(&self) -> UrbEventView {
        match self {
            UrbEvent::Received(b) => UrbEventView::Received(b@),
            UrbEvent::ReceiveFailed => UrbEventView::ReceiveFailed,
            UrbEvent::Report(r) => UrbEventView::Report(
                match r {
                    Some(a) => Some(a@),
                    None => None,
                },
            ),
            UrbEvent::Sent => UrbEventView::Sent,
            UrbEvent::SendFailed => UrbEventView::SendFailed,
        }
    }
}

/// What the session asks the transport to do next.
#[derive(Debug)]
pub enum UrbAction {
    /// Read exactly this many bytes.
    Receive(usize),
    /// Take the next pending mouse report without waiting.
    PollReport,
    /// Write these bytes.
    Send(Vec<u8>),
    /// End the session.
    Close(SessionEnd),
}

pub enum UrbActionView {
    Receive(usize),
    PollReport,
    Send(Seq<u8>),
    Close(SessionEnd),
}

impl View for UrbAction {
    type V = UrbActionView;

    open spec fn view(&self) -> UrbActionView {
        match self {
            UrbAction::Receive(n) => UrbActionView::Receive(*n),
            UrbAction::PollReport => UrbActionView::PollReport,
            UrbAction::Send(b) => UrbActionView::Send(b@),
            UrbAction::Close(e) => UrbActionView::Close(*e),
        }
    }
}

/// The submit that a 44-byte CMD_SUBMIT body encodes.
pub open spec fn submit_from(b: Seq<u8>) -> CmdSubmit {
    choose|c: CmdSubmit| c.parsed_from(b)
}

/// A body parses to exactly one submit.
proof fn lemma_submit_from(c: CmdSubmit, b: Seq<u8>)
    requires
        c.parsed_from(b),
    ensures
        submit_from(b) == c,
{
    let d = submit_from(b);
    assert(d.parsed_from(b));
    assert(d.setup =~= c.setup);
}

/// The RET_SUBMIT header and data that answer `s`: the submit's sequence
/// number, devid, direction, ep and number_of_packets 0, the status, the
/// data length, then the data.
pub open spec fn spec_submit_reply(s: CmdSubmit, status: i32, data: Seq<u8>) -> Seq<u8> {
    RetSubmit {
        seqnum: s.seqnum,
        devid: 0,
        direction: 0,
        ep: 0,
        status,
        actual_length: data.len() as i32,
        start_frame: 0,
        number_of_packets: 0,
        error_count: 0,
    }.spec_bytes() + data
}

/// The RET_UNLINK header that answers the CMD_UNLINK body `b`, status 0.
pub open spec fn spec_unlink_reply(b: Seq<u8>) -> Seq<u8> {
    RetUnlink {
        seqnum: u32_at(b, 0) as u32,
        devid: u32_at(b, 4) as u32,
        direction: u32_at(b, 8) as u32,
        ep: u32_at(b, 12) as u32,
        status: 0,
    }.spec_bytes()
}

/// The data of an interrupt IN transfer: the pending report, or the
/// 4-byte zero report (`MouseReport::zero()`) when none is pending.
pub open spec fn spec_report_data(r: Option<Seq<u8>>) -> Seq<u8> {
    match r {
        Some(b) => b,
        None => seq![0u8, 0, 0, 0],
    }
}

/// `-EPIPE`, the status for a submit to an endpoint the device lacks.
pub open spec fn epipe() -> i32 {
    -32i32
}

pub open spec fn closing(end: SessionEnd) -> (UrbPhase, UrbActionView) {
    (UrbPhase::Closed, UrbActionView::Close(end))
}

/// A submit whose body (and OUT data) has been read: endpoint 1 polls the
/// report queue; endpoint 0 answers the control request; any other
/// endpoint gets `-EPIPE` and no data.
pub open spec fn spec_dispatch(s: CmdSubmit) -> (UrbPhase, UrbActionView) {
    if s.ep == 1 {
        (UrbPhase::AwaitReport(s), UrbActionView::PollReport)
    } else if s.ep == 0 {
        (UrbPhase::Sending, UrbActionView::Send(spec_submit_reply(s, 0, spec_control_data(s.setup@))))
    } else {
        (UrbPhase::Sending, UrbActionView::Send(spec_submit_reply(s, epipe(), Seq::empty())))
    }
}

/// A submit whose body has been read: OUT data (direction 0, positive
/// length) is read and dropped first.
pub open spec fn spec_after_submit_body(s: CmdSubmit) -> (UrbPhase, UrbActionView) {
    if s.direction == 0 && s.transfer_buffer_length > 0 {
        (UrbPhase::AwaitOutData(s), UrbActionView::Receive(s.transfer_buffer_length as usize))
    } else {
        spec_dispatch(s)
    }
}

/// The transition table of a URB session.
pub open spec fn spec_urb_step(phase: UrbPhase, event: UrbEventView) -> (UrbPhase, UrbActionView) {
    match phase {
        UrbPhase::AwaitCommand => match event {
            UrbEventView::Received(b) => if b.len() < 4 {
                closing(SessionEnd::Disconnected)
            } else if u32_at(b, 0) == USBIP_CMD_SUBMIT {
                (UrbPhase::AwaitSubmit, UrbActionView::Receive(CMD_SUBMIT_BODY_LEN))
            } else if u32_at(b, 0) == USBIP_CMD_UNLINK {
                (UrbPhase::AwaitUnlink, UrbActionView::Receive(CMD_UNLINK_BODY_LEN))
            } else {
                closing(SessionEnd::UnknownCommand(u32_at(b, 0) as u32))
            },
            _ => closing(SessionEnd::Disconnected),
        },
        UrbPhase::AwaitSubmit => match event {
            UrbEventView::Received(b) => if b.len() < CMD_SUBMIT_BODY_LEN {
                closing(SessionEnd::MalformedSubmit)
            } else {
                spec_after_submit_body(submit_from(b))
            },
            _ => closing(SessionEnd::MalformedSubmit),
        },
        UrbPhase::AwaitOutData(s) => match event {
            UrbEventView::Received(_) => spec_dispatch(s),
            _ => closing(SessionEnd::TransferReadFailed),
        },
        UrbPhase::AwaitReport(s) => match event {
            UrbEventView::Report(r) => (
                UrbPhase::Sending,
                UrbActionView::Send(spec_submit_reply(s, 0, spec_report_data(r))),
            ),
            _ => closing(SessionEnd::Disconnected),
        },
        UrbPhase::AwaitUnlink => match event {
            UrbEventView::Received(b) => if b.len() < CMD_UNLINK_BODY_LEN {
                closing(SessionEnd::MalformedUnlink)
            } else {
                (UrbPhase::SendingUnlinkReply, UrbActionView::Send(spec_unlink_reply(b)))
            },
            _ => closing(SessionEnd::MalformedUnlink),
        },
        UrbPhase::Sending => match event {
            UrbEventView::Sent => (UrbPhase::AwaitCommand, UrbActionView::Receive(4)),
            _ => closing(SessionEnd::Disconnected),
        },
        UrbPhase::SendingUnlinkReply => match event {
            UrbEventView::Sent => closing(SessionEnd::Unlinked),
            _ => closing(SessionEnd::Disconnected),
        },
        UrbPhase::Closed => closing(SessionEnd::Disconnected),
    }
}

/// Builds the reply to `s`: the RET_SUBMIT header, then `data`.
fn submit_reply(s: &CmdSubmit, status: i32, data: Vec<u8>) -> (r: Vec<u8>)
    requires
        data@.len() <= 65535,
    ensures
        r@ == spec_submit_reply(*s, status, data@),
{
    let ret = RetSubmit {
        seqnum: s.seqnum,
        devid: 0,
        direction: 0,
        ep: 0,
        status,
        actual_length: data.len() as i32,
        start_frame: 0,
        number_of_packets: 0,
        error_count: 0,
    };
    let mut buf: Vec<u8> = Vec::new();
    ret.write_to(&mut buf);
    let mut data = data;
    buf.append(&mut data);
    buf
}

/// A URB session of one imported client.
#[derive(Debug)]
pub struct UrbSession {
    pub phase: UrbPhase,
}

impl UrbSession {
    /// A new session waits for a command word.
    pub fn start() -> (r: (UrbSession, UrbAction))
        ensures
            r.0.phase == UrbPhase::AwaitCommand,
            r.1@ == UrbActionView::Receive(4),
    {
        (UrbSession { phase: UrbPhase::AwaitCommand }, UrbAction::Receive(4))
    }

    /// The submit just read is either held for its OUT data or dispatched.
    fn after_submit_body(&mut self, s: CmdSubmit) -> (action: UrbAction)
        ensures
            (final(self).phase, action@) == spec_after_submit_body(s),
    {
        if s.direction == 0 && s.transfer_buffer_length > 0 {
            let n = s.transfer_buffer_length as usize;
            self.phase = UrbPhase::AwaitOutData(s);
            UrbAction::Receive(n)
        } else {
            self.dispatch(s)
        }
    }

    fn dispatch(&mut self, s: CmdSubmit) -> (action: UrbAction)
        ensures
            (final(self).phase, action@) == spec_dispatch(s),
    {
        if s.ep == 1 {
            self.phase = UrbPhase::AwaitReport(s);
            UrbAction::PollReport
        } else if s.ep == 0 {
            let (data, status) = handle_control(&s);
            assert(data@.len() <= 65535);
            let reply = submit_reply(&s, status, data);
            self.phase = UrbPhase::Sending;
            UrbAction::Send(reply)
        } else {
            let reply = submit_reply(&s, -32, Vec::new());
            self.phase = UrbPhase::Sending;
            UrbAction::Send(reply)
        }
    }

    /// Advances the session by one event of the transport, per
    /// `spec_urb_step`.
    pub fn step(&mut self, event: UrbEvent) -> (action: UrbAction)
        ensures
            (final(self).phase, action@) == spec_urb_step(old(self).phase, event@),
    {
        let mut phase = UrbPhase::Closed;
        std::mem::swap(&mut phase, &mut self.phase);
        match phase {
            UrbPhase::AwaitCommand => match event {
                UrbEvent::Received(b) => {
                    if b.len() < 4 {
                        UrbAction::Close(SessionEnd::Disconnected)
                    } else {
                        let cmd = read_u32_at(b.as_slice(), 0);
                        if cmd == USBIP_CMD_SUBMIT {
                            self.phase = UrbPhase::AwaitSubmit;
                            UrbAction::Receive(CMD_SUBMIT_BODY_LEN)
                        } else if cmd == USBIP_CMD_UNLINK {
                            self.phase = UrbPhase::AwaitUnlink;
                            UrbAction::Receive(CMD_UNLINK_BODY_LEN)
                        } else {
                            UrbAction::Close(SessionEnd::UnknownCommand(cmd))
                        }
                    }
                },
                _ => UrbAction::Close(SessionEnd::Disconnected),
            },
            UrbPhase::AwaitSubmit => match event {
                UrbEvent::Received(b) => match CmdSubmit::read_from(b.as_slice()) {
                    Ok(s) => {
                        proof {
                            lemma_submit_from(s, b@);
                        }
                        self.after_submit_body(s)
                    },
                    Err(_) => UrbAction::Close(SessionEnd::MalformedSubmit),
                },
                _ => UrbAction::Close(SessionEnd::MalformedSubmit),
            },
            UrbPhase::AwaitOutData(s) => match event {
                UrbEvent::Received(_) => self.dispatch(s),
                _ => UrbAction::Close(SessionEnd::TransferReadFailed),
            },
            UrbPhase::AwaitReport(s) => match event {
                UrbEvent::Report(r) => {
                    let data: Vec<u8> = match r {
                        Some(report) => {
                            let v = vec![report[0], report[1], report[2], report[3]];
                            assert(v@ =~= report@);
                            v
                        },
                        None => {
                            let z = MouseReport::zero().to_bytes();
                            let v = vec![z[0], z[1], z[2], z[3]];
                            assert(v@ =~= z@);
                            v
                        },
                    };
                    let reply = submit_reply(&s, 0, data);
                    self.phase = UrbPhase::Sending;
                    UrbAction::Send(reply)
                },
                _ => UrbAction::Close(SessionEnd::Disconnected),
            },
            UrbPhase::AwaitUnlink => match event {
                UrbEvent::Received(b) => match CmdUnlink::read_from(b.as_slice()) {
                    Ok(u) => {
                        let ret = RetUnlink {
                            seqnum: u.seqnum,
                            devid: u.devid,
                            direction: u.direction,
                            ep: u.ep,
                            status: 0,
                        };
                        let mut buf: Vec<u8> = Vec::new();
                        ret.write_to(&mut buf);
                        self.phase = UrbPhase::SendingUnlinkReply;
                        UrbAction::Send(buf)
                    },
                    Err(_) => UrbAction::Close(SessionEnd::MalformedUnlink),
                },
                _ => UrbAction::Close(SessionEnd::MalformedUnlink),
            },
            UrbPhase::Sending => match event {
                UrbEvent::Sent => {
                    self.phase = UrbPhase::AwaitCommand;
                    UrbAction::Receive(4)
                },
                _ => UrbAction::Close(SessionEnd::Disconnected),
            },
            UrbPhase::SendingUnlinkReply => UrbAction::Close(
                match event {
                    UrbEvent::Sent => SessionEnd::Unlinked,
                    _ => SessionEnd::Disconnected,
                },
            ),
            UrbPhase::Closed => UrbAction::Close(SessionEnd::Disconnected),
        }
    }
}


/// A control transfer never returns more data than the request's `wLength`.
pub proof fn control_data_within_w_length(setup: Seq<u8>)
    requires
        setup.len() == 8,
    ensures
        spec_control_data(setup).len() <= setup_w_length(setup),
{
}

/// Every reply to a submit answers it: a 48-byte RET_SUBMIT header whose
/// command word is RET_SUBMIT, whose sequence number is the submit's and
/// whose `actual_length` is the length of the data that follows it.
#[verifier::spinoff_prover]
pub proof fn submit_reply_answers(s: CmdSubmit, status: i32, data: Seq<u8>)
    requires
        data.len() <= 65535,
    ensures
        spec_submit_reply(s, status, data).len() == 48 + data.len(),
        u32_at(spec_submit_reply(s, status, data), 0) == crate::usbip::USBIP_RET_SUBMIT,
        u32_at(spec_submit_reply(s, status, data), 4) == s.seqnum,
        u32_at(spec_submit_reply(s, status, data), 24) == data.len(),
        spec_submit_reply(s, status, data).subrange(48, 48 + data.len() as int) == data,
{
    let ret = RetSubmit {
        seqnum: s.seqnum,
        devid: 0,
        direction: 0,
        ep: 0,
        status,
        actual_length: data.len() as i32,
        start_frame: 0,
        number_of_packets: 0,
        error_count: 0,
    };
    let r = spec_submit_reply(s, status, data);
    crate::usbip::ret_headers_layout(ret, RetUnlink { seqnum: 0, devid: 0, direction: 0, ep: 0, status: 0 });
    crate::wire::lemma_be_u32_roundtrip(data.len() as int);
    assert(r.subrange(0, 48) =~= ret.spec_bytes());
    assert(r.subrange(0, 4) =~= ret.spec_bytes().subrange(0, 4));
    assert(r.subrange(4, 8) =~= ret.spec_bytes().subrange(4, 8));
    assert(r.subrange(24, 28) =~= crate::wire::be_u32_bytes(data.len() as int));
    assert(r.subrange(48, 48 + data.len() as int) =~= data);
}


/// The bytes that a driver writes when it runs a session from `phase` and
/// `action` over the client bytes `inp` and the queued reports `q`, for at
/// most `fuel` steps: a `Receive(n)` takes the next `n` bytes of `inp`, or
/// fails (consuming the rest) when fewer are left; a `PollReport` takes the
/// first queued report, if any; every `Send` is written in full; a `Close`
/// ends the run.
pub open spec fn spec_urb_drive(
    phase: UrbPhase,
    action: UrbActionView,
    inp: Seq<u8>,
    q: Seq<Seq<u8>>,
    fuel: nat,
) -> Seq<u8>
    decreases fuel,
{
    if fuel == 0 {
        Seq::empty()
    } else {
        match action {
            UrbActionView::Receive(n) => if n <= inp.len() {
                let (p, a) = spec_urb_step(phase, UrbEventView::Received(inp.take(n as int)));
                spec_urb_drive(p, a, inp.skip(n as int), q, (fuel - 1) as nat)
            } else {
                let (p, a) = spec_urb_step(phase, UrbEventView::ReceiveFailed);
                spec_urb_drive(p, a, Seq::empty(), q, (fuel - 1) as nat)
            },
            UrbActionView::PollReport => {
                let r = if q.len() > 0 {
                    Some(q[0])
                } else {
                    None
                };
                let rest = if q.len() > 0 {
                    q.drop_first()
                } else {
                    q
                };
                let (p, a) = spec_urb_step(phase, UrbEventView::Report(r));
                spec_urb_drive(p, a, inp, rest, (fuel - 1) as nat)
            },
            UrbActionView::Send(b) => {
                let (p, a) = spec_urb_step(phase, UrbEventView::Sent);
                b + spec_urb_drive(p, a, inp, q, (fuel - 1) as nat)
            },
            UrbActionView::Close(_) => Seq::empty(),
        }
    }
}

/// A CMD_SUBMIT body that carries no OUT data to be read first.
pub open spec fn plain_submit_body(b: Seq<u8>) -> bool {
    &&& b.len() == CMD_SUBMIT_BODY_LEN
    &&& !(submit_from(b).direction == 0 && submit_from(b).transfer_buffer_length > 0)
}

/// The client bytes of a series of CMD_SUBMIT commands with these bodies.
pub open spec fn submit_commands(bodies: Seq<Seq<u8>>) -> Seq<u8>
    decreases bodies.len(),
{
    if bodies.len() == 0 {
        Seq::empty()
    } else {
        crate::wire::be_u32_bytes(USBIP_CMD_SUBMIT as int) + bodies[0] + submit_commands(
            bodies.drop_first(),
        )
    }
}

/// The reply to one CMD_SUBMIT body with the queued reports `q`, and the
/// reports left queued after it.
pub open spec fn spec_reply_to(body: Seq<u8>, q: Seq<Seq<u8>>) -> (Seq<u8>, Seq<Seq<u8>>) {
    let s = submit_from(body);
    if s.ep == 1 {
        if q.len() > 0 {
            (spec_submit_reply(s, 0, spec_report_data(Some(q[0]))), q.drop_first())
        } else {
            (spec_submit_reply(s, 0, spec_report_data(None)), q)
        }
    } else if s.ep == 0 {
        (spec_submit_reply(s, 0, spec_control_data(s.setup@)), q)
    } else {
        (spec_submit_reply(s, epipe(), Seq::empty()), q)
    }
}

/// The replies to a series of CMD_SUBMIT bodies, one after the other.
pub open spec fn spec_replies(bodies: Seq<Seq<u8>>, q: Seq<Seq<u8>>) -> Seq<u8>
    decreases bodies.len(),
{
    if bodies.len() == 0 {
        Seq::empty()
    } else {
        spec_reply_to(bodies[0], q).0 + spec_replies(bodies.drop_first(), spec_reply_to(bodies[0], q).1)
    }
}

/// A session fed a series of CMD_SUBMIT commands and then the end of the
/// stream writes exactly one reply per command, in command order, and
/// nothing else, when every write succeeds.
#[verifier::spinoff_prover]
pub proof fn one_reply_per_submit_in_order(bodies: Seq<Seq<u8>>, q: Seq<Seq<u8>>, fuel: nat)
    requires
        forall|i: int| 0 <= i < bodies.len() ==> #[trigger] plain_submit_body(bodies[i]),
        fuel >= 4 * bodies.len() + 2,
    ensures
        spec_urb_drive(
            UrbPhase::AwaitCommand,
            UrbActionView::Receive(4),
            submit_commands(bodies),
            q,
            fuel,
        ) == spec_replies(bodies, q),
    decreases bodies.len(),
{
    let inp = submit_commands(bodies);
    if bodies.len() == 0 {
        assert(spec_urb_drive(UrbPhase::Closed, UrbActionView::Close(SessionEnd::Disconnected), Seq::empty(), q, (fuel - 1) as nat) == Seq::<u8>::empty());
    } else {
        let b0 = bodies[0];
        let rest = bodies.drop_first();
        assert(plain_submit_body(b0));
        assert forall|i: int| 0 <= i < rest.len() implies #[trigger] plain_submit_body(rest[i]) by {
            assert(rest[i] == bodies[i + 1]);
        }
        let cmd = crate::wire::be_u32_bytes(USBIP_CMD_SUBMIT as int);
        crate::wire::lemma_be_u32_roundtrip(USBIP_CMD_SUBMIT as int);
        assert(inp == cmd + b0 + submit_commands(rest));
        assert(inp.take(4) =~= cmd);
        assert(u32_at(inp.take(4), 0) == USBIP_CMD_SUBMIT) by {
            assert(inp.take(4).subrange(0, 4) =~= cmd);
        }
        let inp1 = inp.skip(4);
        assert(inp1 =~= b0 + submit_commands(rest));
        assert(inp1.take(44) =~= b0);
        assert(inp1.skip(44) =~= submit_commands(rest));
        let s = submit_from(b0);
        let f1 = (fuel - 1) as nat;
        let f2 = (fuel - 2) as nat;
        assert(spec_urb_drive(UrbPhase::AwaitCommand, UrbActionView::Receive(4), inp, q, fuel)
            == spec_urb_drive(UrbPhase::AwaitSubmit, UrbActionView::Receive(CMD_SUBMIT_BODY_LEN), inp1, q, f1));
        assert(spec_urb_step(UrbPhase::AwaitSubmit, UrbEventView::Received(b0)) == spec_dispatch(s));
        let next = spec_reply_to(b0, q);
        if s.ep == 1 {
            let r = if q.len() > 0 { Some(q[0]) } else { None };
            let q1 = if q.len() > 0 { q.drop_first() } else { q };
            assert(spec_urb_drive(UrbPhase::AwaitSubmit, UrbActionView::Receive(CMD_SUBMIT_BODY_LEN), inp1, q, f1)
                == spec_urb_drive(UrbPhase::AwaitReport(s), UrbActionView::PollReport, submit_commands(rest), q, f2));
            let reply = spec_submit_reply(s, 0, spec_report_data(r));
            assert(next == (reply, q1));
            assert(spec_urb_drive(UrbPhase::AwaitReport(s), UrbActionView::PollReport, submit_commands(rest), q, f2)
                == spec_urb_drive(UrbPhase::Sending, UrbActionView::Send(reply), submit_commands(rest), q1, (fuel - 3) as nat));
            assert(spec_urb_drive(UrbPhase::Sending, UrbActionView::Send(reply), submit_commands(rest), q1, (fuel - 3) as nat)
                == reply + spec_urb_drive(UrbPhase::AwaitCommand, UrbActionView::Receive(4), submit_commands(rest), q1, (fuel - 4) as nat));
            one_reply_per_submit_in_order(rest, q1, (fuel - 4) as nat);
        } else {
            let reply = next.0;
            assert(spec_urb_drive(UrbPhase::AwaitSubmit, UrbActionView::Receive(CMD_SUBMIT_BODY_LEN), inp1, q, f1)
                == spec_urb_drive(UrbPhase::Sending, UrbActionView::Send(reply), submit_commands(rest), q, f2));
            assert(spec_urb_drive(UrbPhase::Sending, UrbActionView::Send(reply), submit_commands(rest), q, f2)
                == reply + spec_urb_drive(UrbPhase::AwaitCommand, UrbActionView::Receive(4), submit_commands(rest), q, (fuel - 3) as nat));
            one_reply_per_submit_in_order(rest, q, (fuel - 3) as nat);
        }
    }
}


/// Every 44-byte body parses to a submit.
proof fn lemma_submit_from_parses(b: Seq<u8>)
    requires
        b.len() >= CMD_SUBMIT_BODY_LEN,
    ensures
        submit_from(b).parsed_from(b),
{
    let c = CmdSubmit {
        seqnum: u32_at(b, 0) as u32,
        devid: u32_at(b, 4) as u32,
        direction: u32_at(b, 8) as u32,
        ep: u32_at(b, 12) as u32,
        transfer_buffer_length: crate::wire::as_signed32(u32_at(b, 20)) as i32,
        setup: [b[36], b[37], b[38], b[39], b[40], b[41], b[42], b[43]],
    };
    assert(c.setup@ =~= b.subrange(36, 44));
    assert(c.parsed_from(b));
}

/// Each reply in such a series answers its command: a RET_SUBMIT header
/// with the command's sequence number, followed by exactly
/// `actual_length` bytes of data.
#[verifier::spinoff_prover]
pub proof fn reply_answers_its_submit(body: Seq<u8>, q: Seq<Seq<u8>>)
    requires
        body.len() == CMD_SUBMIT_BODY_LEN,
        forall|i: int| 0 <= i < q.len() ==> (#[trigger] q[i]).len() == 4,
    ensures
        u32_at(spec_reply_to(body, q).0, 0) == crate::usbip::USBIP_RET_SUBMIT,
        u32_at(spec_reply_to(body, q).0, 4) == u32_at(body, 0),
        spec_reply_to(body, q).0.len() == 48 + u32_at(spec_reply_to(body, q).0, 24),
{
    lemma_submit_from_parses(body);
    let s = submit_from(body);
    if s.ep == 1 {
        if q.len() > 0 {
            assert(q[0].len() == 4);
            submit_reply_answers(s, 0, spec_report_data(Some(q[0])));
        } else {
            submit_reply_answers(s, 0, spec_report_data(None));
        }
    } else if s.ep == 0 {
        control_data_within_w_length(s.setup@);
        submit_reply_answers(s, 0, spec_control_data(s.setup@));
    } else {
        submit_reply_answers(s, epipe(), Seq::empty());
    }
}


/// The bytes that an action writes, if it writes any.
pub open spec fn sent_bytes(a: UrbActionView) -> Seq<u8> {
    match a {
        UrbActionView::Send(r) => r,
        _ => Seq::empty(),
    }
}

/// `a` answers the CMD_SUBMIT body `b` as a control transfer: it writes a
/// RET_SUBMIT with `b`'s sequence number, status 0, and the control data
/// of `b`'s setup packet.
pub open spec fn answers_as_control(a: UrbActionView, b: Seq<u8>) -> bool {
    let r = sent_bytes(a);
    &&& a is Send
    &&& u32_at(r, 0) == crate::usbip::USBIP_RET_SUBMIT
    &&& u32_at(r, 4) == u32_at(b, 0)
    &&& i32_at(r, 20) == 0
    &&& r.len() >= 48
    &&& r.subrange(48, r.len() as int) == spec_control_data(b.subrange(36, 44))
}

proof fn lemma_reply_fields(s: CmdSubmit, status: i32, data: Seq<u8>)
    requires
        data.len() <= 65535,
    ensures
        spec_submit_reply(s, status, data).len() == 48 + data.len(),
        u32_at(spec_submit_reply(s, status, data), 0) == crate::usbip::USBIP_RET_SUBMIT,
        u32_at(spec_submit_reply(s, status, data), 4) == s.seqnum,
        i32_at(spec_submit_reply(s, status, data), 20) == status,
        spec_submit_reply(s, status, data).subrange(48, 48 + data.len() as int) == data,
{
    let ret = RetSubmit {
        seqnum: s.seqnum,
        devid: 0,
        direction: 0,
        ep: 0,
        status,
        actual_length: data.len() as i32,
        start_frame: 0,
        number_of_packets: 0,
        error_count: 0,
    };
    let r = spec_submit_reply(s, status, data);
    crate::usbip::ret_submit_fields(ret);
    assert(r.subrange(0, 48) =~= ret.spec_bytes());
    assert(r.subrange(0, 4) =~= ret.spec_bytes().subrange(0, 4));
    assert(r.subrange(4, 8) =~= ret.spec_bytes().subrange(4, 8));
    assert(r.subrange(20, 24) =~= ret.spec_bytes().subrange(20, 24));
    assert(r.subrange(48, 48 + data.len() as int) =~= data);
}

/// Endpoint 0 is always served: every CMD_SUBMIT to endpoint 0, IN or OUT,
/// is answered with status 0 and the control data of its setup packet,
/// after its OUT data (if any) has been read; a submit to endpoint 1 polls
/// the report queue; only a submit to another endpoint gets `-EPIPE`, with
/// no data.
#[verifier::spinoff_prover]
pub proof fn endpoint_zero_is_always_served(b: Seq<u8>, out_data: Seq<u8>)
    requires
        b.len() == CMD_SUBMIT_BODY_LEN,
    ensures
        ({
            let (p, a) = spec_urb_step(UrbPhase::AwaitSubmit, UrbEventView::Received(b));
            let ep = u32_at(b, 12);
            let has_out_data = u32_at(b, 8) == 0 && i32_at(b, 20) > 0;
            &&& (ep == 0 && !has_out_data) ==> answers_as_control(a, b)
            &&& (ep == 0 && has_out_data) ==> a == UrbActionView::Receive(i32_at(b, 20) as usize)
                && answers_as_control(
                spec_urb_step(p, UrbEventView::Received(out_data)).1,
                b,
            )
            &&& (ep == 1 && !has_out_data) ==> a == UrbActionView::PollReport
            &&& (ep != 0 && ep != 1 && !has_out_data) ==> a is Send && i32_at(sent_bytes(a), 20)
                == -32 && sent_bytes(a).len() == 48
        }),
{
    lemma_submit_from_parses(b);
    let s = submit_from(b);
    assert(s.setup@ == b.subrange(36, 44));
    control_data_within_w_length(s.setup@);
    lemma_reply_fields(s, 0, spec_control_data(s.setup@));
    lemma_reply_fields(s, epipe(), Seq::empty());
}


/// The device introduces itself as documented: a USB 2.0 device descriptor
/// of 18 bytes with vendor 0x0627 and product 0x0001, class defined per
/// interface, an 8-byte control endpoint and one configuration, whose
/// manufacturer and product string indices name "Rust" and "Mouse
/// Jiggler", and whose string descriptor 0 offers English (US).
pub proof fn device_identity()
    ensures
        ({
            let d = spec_device_descriptor();
            &&& d.len() == 18 && d[0] == 18 && d[1] == 0x01
            &&& d[2] + 256 * d[3] == 0x0200
            &&& d[4] == 0 && d[7] == 8
            &&& d[8] + 256 * d[9] == 0x0627
            &&& d[10] + 256 * d[11] == 0x0001
            &&& d[17] == 1
            &&& standard_descriptor(0x03, d[14]) == spec_string_descriptor(manufacturer_name())
            &&& standard_descriptor(0x03, d[15]) == spec_string_descriptor(product_name())
            &&& standard_descriptor(0x03, 0) == seq![0x04u8, 0x03, 0x09, 0x04]
            &&& standard_descriptor(0x01, 0) == d
            &&& standard_descriptor(0x02, 0) == spec_configuration_descriptor()
        }),
{
}

/// A CMD_SUBMIT body is read at the documented offsets: seqnum 0, devid 4,
/// direction 8, ep 12, transfer_buffer_length 20 (signed), setup 36..44.
pub proof fn cmd_submit_layout(c: CmdSubmit, b: Seq<u8>)
    requires
        c.parsed_from(b),
    ensures
        c.seqnum == u32_at(b, 0),
        c.devid == u32_at(b, 4),
        c.direction == u32_at(b, 8),
        c.ep == u32_at(b, 12),
        c.transfer_buffer_length == i32_at(b, 20),
        c.setup@ == b.subrange(36, 44),
{
}

} // verus!
