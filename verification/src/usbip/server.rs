//! The handshake phase of a connection (device list and import) and the
//! single-client admission rule, as state machines driven by the transport.
use crate::hid::{
    configuration_descriptor, device_descriptor, spec_configuration_descriptor,
    spec_device_descriptor,
};
use crate::usbip::{
    BUSID, zeros, push_zeros, OP_REP_DEVLIST, OP_REP_IMPORT, OP_REQ_DEVLIST, OP_REQ_IMPORT,
    USBIP_VERSION,
};
use crate::wire::{be_u16_bytes, be_u16_value, be_u32_bytes, push_u16, push_u32, read_u16_at};
use vstd::prelude::*;

verus! {

/// The bytes of the bus id `1-1`.
pub open spec fn busid_bytes() -> Seq<u8> {
    seq![0x31u8, 0x2d, 0x31]
}

/// The bytes of the sysfs path `/sys/devices/pci0000:00/0000:00:01.0/usb1/1-1`.
pub open spec fn sysfs_path_bytes() -> Seq<u8> {
    seq![
        0x2fu8, 0x73, 0x79, 0x73, 0x2f, 0x64, 0x65, 0x76, 0x69, 0x63, 0x65, 0x73, 0x2f, 0x70,
        0x63, 0x69, 0x30, 0x30, 0x30, 0x30, 0x3a, 0x30, 0x30, 0x2f, 0x30, 0x30, 0x30, 0x30,
        0x3a, 0x30, 0x30, 0x3a, 0x30, 0x31, 0x2e, 0x30, 0x2f, 0x75, 0x73, 0x62, 0x31, 0x2f,
        0x31, 0x2d, 0x31,
    ]
}

/// `s` followed by zeros up to `n` bytes.
pub open spec fn padded(s: Seq<u8>, n: nat) -> Seq<u8> {
    s + zeros((n - s.len()) as nat)
}

/// The 32-byte bus id field: `1-1` then zeros.
pub open spec fn busid_field() -> Seq<u8> {
    padded(busid_bytes(), 32)
}

/// The device record of the exported mouse (316 bytes): sysfs path (256)
/// and bus id (32) fields, busnum 1, devnum 1, speed 3 (high speed), the
/// vendor and product ids of the device descriptor, bcdDevice 0x0100, the
/// device class, subclass and protocol, the configuration value, the
/// number of configurations, one interface, and that interface's class,
/// subclass and protocol followed by a padding byte.
pub open spec fn spec_device_info() -> Seq<u8> {
    let dev = spec_device_descriptor();
    let conf = spec_configuration_descriptor();
    padded(sysfs_path_bytes(), 256) + busid_field() + be_u32_bytes(1) + be_u32_bytes(1)
        + be_u32_bytes(3) + be_u16_bytes(dev[8] + 256 * dev[9]) + be_u16_bytes(
        dev[10] + 256 * dev[11],
    ) + be_u16_bytes(0x0100) + seq![
        dev[4],
        dev[5],
        dev[6],
        conf[5],
        dev[17],
        1u8,
        conf[14],
        conf[15],
        conf[16],
        0u8,
    ]
}

/// OP_REP_DEVLIST: version, reply code, status 0, one device, its record.
pub open spec fn spec_devlist_reply() -> Seq<u8> {
    be_u16_bytes(USBIP_VERSION as int) + be_u16_bytes(OP_REP_DEVLIST as int) + be_u32_bytes(0)
        + be_u32_bytes(1) + spec_device_info()
}

/// OP_REP_IMPORT accepting the import: version, reply code, status 0, the
/// device record.
pub open spec fn spec_import_ok_reply() -> Seq<u8> {
    be_u16_bytes(USBIP_VERSION as int) + be_u16_bytes(OP_REP_IMPORT as int) + be_u32_bytes(0)
        + spec_device_info()
}

/// OP_REP_IMPORT refusing the import: version, reply code, status 1.
pub open spec fn spec_import_error_reply() -> Seq<u8> {
    be_u16_bytes(USBIP_VERSION as int) + be_u16_bytes(OP_REP_IMPORT as int) + be_u32_bytes(1)
}

fn push_bytes(w: &mut Vec<u8>, b: &[u8])
    ensures
        final(w)@ == old(w)@ + b@,
{
    let mut i: usize = 0;
    while i < b.len()
        invariant
            i <= b.len(),
            w@ == old(w)@ + b@.take(i as int),
        decreases b.len() - i,
    {
        w.push(b[i]);
        i = i + 1;
        assert(w@ =~= old(w)@ + b@.take(i as int));
    }
    assert(b@.take(i as int) =~= b@);
}

/// Appends the device record of the mouse.
pub fn write_device_info(w: &mut Vec<u8>)
    ensures
        final(w)@ == old(w)@ + spec_device_info(),
{
    let dev = device_descriptor();
    let conf = configuration_descriptor();
    let path: Vec<u8> = vec![
        0x2fu8, 0x73, 0x79, 0x73, 0x2f, 0x64, 0x65, 0x76, 0x69, 0x63, 0x65, 0x73, 0x2f, 0x70,
        0x63, 0x69, 0x30, 0x30, 0x30, 0x30, 0x3a, 0x30, 0x30, 0x2f, 0x30, 0x30, 0x30, 0x30,
        0x3a, 0x30, 0x30, 0x3a, 0x30, 0x31, 0x2e, 0x30, 0x2f, 0x75, 0x73, 0x62, 0x31, 0x2f,
        0x31, 0x2d, 0x31,
    ];
    assert(path@ =~= sysfs_path_bytes());
    push_bytes(w, path.as_slice());
    push_zeros(w, 256 - path.len());
    let busid = BUSID.as_bytes();
    proof {
        reveal_strlit("1-1");
        vstd::string::is_ascii_spec_bytes(BUSID);
        assert(busid@ =~= busid_bytes());
    }
    push_bytes(w, busid);
    push_zeros(w, 32 - busid.len());
    push_u32(w, 1);  // busnum
    push_u32(w, 1);  // devnum
    push_u32(w, 3);  // speed: high speed (USB 2.0)
    let vid = dev[8] as u16 + 256 * dev[9] as u16;
    let pid = dev[10] as u16 + 256 * dev[11] as u16;
    push_u16(w, vid);
    push_u16(w, pid);
    push_u16(w, 0x0100);  // bcdDevice
    w.push(dev[4]);  // bDeviceClass
    w.push(dev[5]);  // bDeviceSubClass
    w.push(dev[6]);  // bDeviceProtocol
    w.push(conf[5]);  // bConfigurationValue
    w.push(dev[17]);  // bNumConfigurations
    w.push(1);  // bNumInterfaces
    w.push(conf[14]);  // bInterfaceClass
    w.push(conf[15]);  // bInterfaceSubClass
    w.push(conf[16]);  // bInterfaceProtocol
    w.push(0);  // padding
    assert(w@ =~= old(w)@ + spec_device_info());
}

/// Appends OP_REP_DEVLIST with the one exported device.
pub fn send_devlist(w: &mut Vec<u8>)
    ensures
        final(w)@ == old(w)@ + spec_devlist_reply(),
{
    push_u16(w, USBIP_VERSION);
    push_u16(w, OP_REP_DEVLIST);
    push_u32(w, 0);  // status: OK
    push_u32(w, 1);  // number of exported devices
    write_device_info(w);
    assert(w@ =~= old(w)@ + spec_devlist_reply());
}

/// Appends OP_REP_IMPORT accepting the import.
pub fn send_import_ok(w: &mut Vec<u8>)
    ensures
        final(w)@ == old(w)@ + spec_import_ok_reply(),
{
    push_u16(w, USBIP_VERSION);
    push_u16(w, OP_REP_IMPORT);
    push_u32(w, 0);  // status: OK
    write_device_info(w);
    assert(w@ =~= old(w)@ + spec_import_ok_reply());
}

/// Appends OP_REP_IMPORT refusing the import.
pub fn send_import_error(w: &mut Vec<u8>)
    ensures
        final(w)@ == old(w)@ + spec_import_error_reply(),
{
    push_u16(w, USBIP_VERSION);
    push_u16(w, OP_REP_IMPORT);
    push_u32(w, 1);  // status: error
    assert(w@ =~= old(w)@ + spec_import_error_reply());
}


/// How reading from the client failed.
#[derive(Debug, PartialEq, Eq, Structural)]
pub enum ReadFailure {
    /// The stream ended before the requested bytes arrived.
    UnexpectedEof,
    /// The peer reset the connection.
    ConnectionReset,
    /// Any other read error.
    Other,
}

/// A read failure that means the client has gone away.
pub fn is_eof(failure: &ReadFailure) -> (r: bool)
    ensures
        r == (*failure == ReadFailure::UnexpectedEof || *failure == ReadFailure::ConnectionReset),
{
    match failure {
        ReadFailure::UnexpectedEof => true,
        ReadFailure::ConnectionReset => true,
        ReadFailure::Other => false,
    }
}

/// Whether the 32-byte bus id field of an import request names the
/// exported device. Read as UTF-8 with trailing NULs trimmed it must be
/// `1-1`; for a 32-byte field that holds exactly when the field is `1-1`
/// followed by 29 zero bytes.
pub fn busid_matches(busid: &[u8]) -> (r: bool)
    ensures
        r == (busid@ == busid_field()),
{
    if busid.len() != 32 {
        assert(busid@.len() != busid_field().len());
        return false;
    }
    if busid[0] != 0x31 || busid[1] != 0x2d || busid[2] != 0x31 {
        assert(busid@[0] != busid_field()[0] || busid@[1] != busid_field()[1] || busid@[2]
            != busid_field()[2]);
        return false;
    }
    let mut i: usize = 3;
    while i < 32
        invariant
            3 <= i <= 32,
            busid.len() == 32,
            busid@.take(i as int) == busid_field().take(i as int),
        decreases 32 - i,
    {
        if busid[i] != 0 {
            assert(busid_field()[i as int] == 0);
            return false;
        }
        assert(busid@.take(i + 1) =~= busid_field().take(i + 1)) by {
            assert(busid@.take(i as int) =~= busid@.take(i + 1).take(i as int));
            assert(busid_field().take(i as int) =~= busid_field().take(i + 1).take(i as int));
        }
        i = i + 1;
    }
    assert(busid@ =~= busid@.take(32));
    assert(busid_field() =~= busid_field().take(32));
    true
}

/// How a handshake ended.
#[derive(Debug, PartialEq, Eq, Structural)]
pub enum HandshakeOutcome {
    /// The device was imported: the connection moves on to URB traffic.
    Imported,
    /// The client listed the devices and closed the connection.
    DevlistOnly,
    /// The handshake failed or was refused.
    Error,
}

/// Where a handshake stands.
#[derive(Debug, PartialEq, Eq, Structural)]
pub enum HandshakePhase {
    /// Waiting for the 2-byte protocol version of a request header.
    AwaitVersion,
    /// Waiting for the 2-byte op code and 4-byte status of that header.
    AwaitOpAndStatus,
    /// Waiting for the 32-byte bus id of an import request.
    AwaitBusid,
    /// The device list is being written.
    SendingDevlist,
    /// The import acceptance is being written.
    SendingImportOk,
    /// The import refusal is being written.
    SendingImportError,
    /// The handshake is over.
    Done,
}

/// What the transport reports back after carrying out a `HandshakeAction`.
#[derive(Debug)]
pub enum HandshakeEvent {
    /// The requested bytes were read.
    Received(Vec<u8>),
    /// The requested bytes could not be read.
    ReceiveFailed(ReadFailure),
    /// The reply was written and flushed.
    Sent,
    /// The reply could not be written.
    SendFailed,
}

pub enum HandshakeEventView {
    Received(Seq<u8>),
    ReceiveFailed(ReadFailure),
    Sent,
    SendFailed,
}

impl View for HandshakeEvent {
    type V = HandshakeEventView;

    open spec fn view(&self) -> HandshakeEventView {
        match self {
            HandshakeEvent::Received(b) => HandshakeEventView::Received(b@),
            HandshakeEvent::ReceiveFailed(f) => HandshakeEventView::ReceiveFailed(*f),
            HandshakeEvent::Sent => HandshakeEventView::Sent,
            HandshakeEvent::SendFailed => HandshakeEventView::SendFailed,
        }
    }
}

/// What the handshake asks the transport to do next.
#[derive(Debug)]
pub enum HandshakeAction {
    /// Read exactly this many bytes.
    Receive(usize),
    /// Write and flush these bytes.
    Send(Vec<u8>),
    /// The handshake is over with this outcome.
    Finish(HandshakeOutcome),
}

pub enum HandshakeActionView {
    Receive(usize),
    Send(Seq<u8>),
    Finish(HandshakeOutcome),
}

impl View for HandshakeAction {
    type V = HandshakeActionView;

    open spec fn view(&self) -> HandshakeActionView {
        match self {
            HandshakeAction::Receive(n) => HandshakeActionView::Receive(*n),
            HandshakeAction::Send(b) => HandshakeActionView::Send(b@),
            HandshakeAction::Finish(o) => HandshakeActionView::Finish(*o),
        }
    }
}

/// The handshake of one connection.
#[derive(Debug)]
pub struct Handshake {
    pub phase: HandshakePhase,
    /// Whether a device list has been sent on this connection.
    pub sent_devlist: bool,
}

pub open spec fn finishing(sent_devlist: bool, outcome: HandshakeOutcome) -> (
    HandshakePhase,
    bool,
    HandshakeActionView,
) {
    (HandshakePhase::Done, sent_devlist, HandshakeActionView::Finish(outcome))
}

/// The transition table of a handshake: from the phase, whether a device
/// list was sent, and the event, to the next phase, the new flag and the
/// action. A header with another protocol version, an unknown op code, or a
/// read or write failure ends it with `Error`, except that a client that
/// has listed the devices and then closes the connection ends it with
/// `DevlistOnly`; a device list request is answered and another header
/// awaited; an import request is accepted for bus id `1-1` only.
pub open spec fn spec_handshake_step(phase: HandshakePhase, sent_devlist: bool, event: HandshakeEventView) -> (
    HandshakePhase,
    bool,
    HandshakeActionView,
) {
    match phase {
        HandshakePhase::AwaitVersion => match event {
            HandshakeEventView::Received(b) => if b.len() >= 2 && be_u16_value(b.subrange(0, 2))
                == USBIP_VERSION {
                (HandshakePhase::AwaitOpAndStatus, sent_devlist, HandshakeActionView::Receive(6))
            } else {
                finishing(sent_devlist, HandshakeOutcome::Error)
            },
            HandshakeEventView::ReceiveFailed(f) => if sent_devlist && (f
                == ReadFailure::UnexpectedEof || f == ReadFailure::ConnectionReset) {
                finishing(sent_devlist, HandshakeOutcome::DevlistOnly)
            } else {
                finishing(sent_devlist, HandshakeOutcome::Error)
            },
            _ => finishing(sent_devlist, HandshakeOutcome::Error),
        },
        HandshakePhase::AwaitOpAndStatus => match event {
            HandshakeEventView::Received(b) => if b.len() < 6 {
                finishing(sent_devlist, HandshakeOutcome::Error)
            } else if be_u16_value(b.subrange(0, 2)) == OP_REQ_DEVLIST {
                (
                    HandshakePhase::SendingDevlist,
                    sent_devlist,
                    HandshakeActionView::Send(spec_devlist_reply()),
                )
            } else if be_u16_value(b.subrange(0, 2)) == OP_REQ_IMPORT {
                (HandshakePhase::AwaitBusid, sent_devlist, HandshakeActionView::Receive(32))
            } else {
                finishing(sent_devlist, HandshakeOutcome::Error)
            },
            _ => finishing(sent_devlist, HandshakeOutcome::Error),
        },
        HandshakePhase::SendingDevlist => match event {
            HandshakeEventView::Sent => (
                HandshakePhase::AwaitVersion,
                true,
                HandshakeActionView::Receive(2),
            ),
            _ => finishing(sent_devlist, HandshakeOutcome::Error),
        },
        HandshakePhase::AwaitBusid => match event {
            HandshakeEventView::Received(b) => if b == busid_field() {
                (
                    HandshakePhase::SendingImportOk,
                    sent_devlist,
                    HandshakeActionView::Send(spec_import_ok_reply()),
                )
            } else {
                (
                    HandshakePhase::SendingImportError,
                    sent_devlist,
                    HandshakeActionView::Send(spec_import_error_reply()),
                )
            },
            _ => finishing(sent_devlist, HandshakeOutcome::Error),
        },
        HandshakePhase::SendingImportOk => match event {
            HandshakeEventView::Sent => finishing(sent_devlist, HandshakeOutcome::Imported),
            _ => finishing(sent_devlist, HandshakeOutcome::Error),
        },
        HandshakePhase::SendingImportError => finishing(sent_devlist, HandshakeOutcome::Error),
        HandshakePhase::Done => finishing(sent_devlist, HandshakeOutcome::Error),
    }
}

impl Handshake {
    /// A new handshake waits for the version of a request header.
    pub fn start() -> (r: (Handshake, HandshakeAction))
        ensures
            r.0.phase == HandshakePhase::AwaitVersion,
            !r.0.sent_devlist,
            r.1@ == HandshakeActionView::Receive(2),
    {
        (Handshake { phase: HandshakePhase::AwaitVersion, sent_devlist: false }, HandshakeAction::Receive(2))
    }

    fn finish(&mut self, outcome: HandshakeOutcome) -> (action: HandshakeAction)
        ensures
            final(self).phase == HandshakePhase::Done,
            final(self).sent_devlist == old(self).sent_devlist,
            action@ == HandshakeActionView::Finish(outcome),
    {
        self.phase = HandshakePhase::Done;
        HandshakeAction::Finish(outcome)
    }

    /// Advances the handshake by one event of the transport, per
    /// `spec_handshake_step`.
    pub fn step(&mut self, event: HandshakeEvent) -> (action: HandshakeAction)
        ensures
            (final(self).phase, final(self).sent_devlist, action@) == spec_handshake_step(
                old(self).phase,
                old(self).sent_devlist,
                event@,
            ),
    {
        match self.phase {
            HandshakePhase::AwaitVersion => match event {
                HandshakeEvent::Received(b) => {
                    if b.len() >= 2 && read_u16_at(b.as_slice(), 0) == USBIP_VERSION {
                        self.phase = HandshakePhase::AwaitOpAndStatus;
                        HandshakeAction::Receive(6)
                    } else {
                        self.finish(HandshakeOutcome::Error)
                    }
                },
                HandshakeEvent::ReceiveFailed(f) => {
                    if self.sent_devlist && is_eof(&f) {
                        self.finish(HandshakeOutcome::DevlistOnly)
                    } else {
                        self.finish(HandshakeOutcome::Error)
                    }
                },
                _ => self.finish(HandshakeOutcome::Error),
            },
            HandshakePhase::AwaitOpAndStatus => match event {
                HandshakeEvent::Received(b) => {
                    if b.len() < 6 {
                        self.finish(HandshakeOutcome::Error)
                    } else {
                        let op_code = read_u16_at(b.as_slice(), 0);
                        if op_code == OP_REQ_DEVLIST {
                            let mut reply: Vec<u8> = Vec::new();
                            send_devlist(&mut reply);
                            self.phase = HandshakePhase::SendingDevlist;
                            HandshakeAction::Send(reply)
                        } else if op_code == OP_REQ_IMPORT {
                            self.phase = HandshakePhase::AwaitBusid;
                            HandshakeAction::Receive(32)
                        } else {
                            self.finish(HandshakeOutcome::Error)
                        }
                    }
                },
                _ => self.finish(HandshakeOutcome::Error),
            },
            HandshakePhase::SendingDevlist => match event {
                HandshakeEvent::Sent => {
                    self.sent_devlist = true;
                    self.phase = HandshakePhase::AwaitVersion;
                    HandshakeAction::Receive(2)
                },
                _ => self.finish(HandshakeOutcome::Error),
            },
            HandshakePhase::AwaitBusid => match event {
                HandshakeEvent::Received(b) => {
                    let mut reply: Vec<u8> = Vec::new();
                    if busid_matches(b.as_slice()) {
                        send_import_ok(&mut reply);
                        self.phase = HandshakePhase::SendingImportOk;
                    } else {
                        send_import_error(&mut reply);
                        self.phase = HandshakePhase::SendingImportError;
                    }
                    HandshakeAction::Send(reply)
                },
                _ => self.finish(HandshakeOutcome::Error),
            },
            HandshakePhase::SendingImportOk => match event {
                HandshakeEvent::Sent => self.finish(HandshakeOutcome::Imported),
                _ => self.finish(HandshakeOutcome::Error),
            },
            HandshakePhase::SendingImportError => self.finish(HandshakeOutcome::Error),
            HandshakePhase::Done => self.finish(HandshakeOutcome::Error),
        }
    }
}


/// Whether a new connection goes on to the handshake.
#[derive(Debug)]
pub enum Admission {
    /// The device is free: the connection now owns it.
    Admit,
    /// The device is owned by another client: write this refusal and close.
    Reject(Vec<u8>),
}

pub enum AdmissionView {
    Admit,
    Reject(Seq<u8>),
}

impl View for Admission {
    type V = AdmissionView;

    open spec fn view(&self) -> AdmissionView {
        match self {
            Admission::Admit => AdmissionView::Admit,
            Admission::Reject(b) => AdmissionView::Reject(b@),
        }
    }
}

/// The admission rule: a busy device refuses a new connection with
/// OP_REP_IMPORT status 1 and stays busy; a free one admits it and becomes
/// busy.
pub open spec fn spec_admit(busy: bool) -> (bool, AdmissionView) {
    if busy {
        (true, AdmissionView::Reject(spec_import_error_reply()))
    } else {
        (true, AdmissionView::Admit)
    }
}

/// The listener's state: whether a client owns the device.
#[derive(Debug)]
pub struct Server {
    pub busy: bool,
}

impl Server {
    /// A listener whose device is free.
    pub fn new() -> (r: Server)
        ensures
            !r.busy,
    {
        Server { busy: false }
    }

    /// Decides on a new connection, per `spec_admit`.
    pub fn on_connect(&mut self) -> (a: Admission)
        ensures
            (final(self).busy, a@) == spec_admit(old(self).busy),
    {
        if self.busy {
            let mut reply: Vec<u8> = Vec::new();
            send_import_error(&mut reply);
            Admission::Reject(reply)
        } else {
            self.busy = true;
            Admission::Admit
        }
    }

    /// The admitted connection is over: the device is free again.
    pub fn on_connection_end(&mut self)
        ensures
            !final(self).busy,
    {
        self.busy = false;
    }
}

/// The device has a single owner: once a connection is admitted, every
/// further connection is refused with an import error until the admitted
/// one ends, and after it ends the next connection is admitted.
pub proof fn single_owner(busy: bool)
    ensures
        spec_admit(spec_admit(busy).0).1 == AdmissionView::Reject(spec_import_error_reply()),
        spec_admit(false).1 == AdmissionView::Admit,
{
}

/// Only bus id `1-1` can be imported: a handshake ends `Imported` only
/// from the phase that writes the import acceptance, and that phase is
/// entered only from a bus id field equal to `1-1` padded with zeros.
pub proof fn import_only_of_exported_busid(phase: HandshakePhase, sent_devlist: bool, event: HandshakeEventView)
    ensures
        spec_handshake_step(phase, sent_devlist, event).2 == HandshakeActionView::Finish(
            HandshakeOutcome::Imported,
        ) ==> phase == HandshakePhase::SendingImportOk,
        spec_handshake_step(phase, sent_devlist, event).0 == HandshakePhase::SendingImportOk
            ==> phase == HandshakePhase::AwaitBusid && event == HandshakeEventView::Received(
            busid_field(),
        ),
{
}

/// A request header whose version is not 0x0111 ends the handshake with
/// `Error`.
pub proof fn version_mismatch_is_refused(sent_devlist: bool, b: Seq<u8>)
    requires
        b.len() >= 2,
        be_u16_value(b.subrange(0, 2)) != USBIP_VERSION,
    ensures
        spec_handshake_step(HandshakePhase::AwaitVersion, sent_devlist, HandshakeEventView::Received(b))
            == finishing(sent_devlist, HandshakeOutcome::Error),
{
}

/// The device list holds exactly one device, exported under bus id `1-1`:
/// the count field is 1 and the record's bus id field is `1-1` padded.
#[verifier::spinoff_prover]
#[verifier::rlimit(40)]
pub proof fn devlist_lists_the_one_device()
    ensures
        spec_devlist_reply().len() == 12 + 316,
        spec_devlist_reply().subrange(8, 12) == be_u32_bytes(1),
        spec_devlist_reply().subrange(268, 300) == busid_field(),
{
    assert(spec_devlist_reply().subrange(8, 12) =~= be_u32_bytes(1));
    assert(spec_devlist_reply().subrange(268, 300) =~= busid_field());
}

/// The state and the last action of a handshake after the transport has
/// reported `events`, starting from `Handshake::start`.
pub open spec fn spec_handshake_after(events: Seq<HandshakeEventView>) -> (
    HandshakePhase,
    bool,
    HandshakeActionView,
)
    decreases events.len(),
{
    if events.len() == 0 {
        (HandshakePhase::AwaitVersion, false, HandshakeActionView::Receive(2))
    } else {
        let pre = spec_handshake_after(events.drop_last());
        spec_handshake_step(pre.0, pre.1, events.last())
    }
}

/// Event `i` reports that a device list was written in full.
pub open spec fn devlist_written(events: Seq<HandshakeEventView>, i: int) -> bool {
    &&& 0 <= i < events.len()
    &&& spec_handshake_after(events.take(i)).0 == HandshakePhase::SendingDevlist
    &&& events[i] == HandshakeEventView::Sent
}

/// The read failures that mean the client has gone away.
pub open spec fn is_eof_failure(f: ReadFailure) -> bool {
    f == ReadFailure::UnexpectedEof || f == ReadFailure::ConnectionReset
}

/// Over a whole handshake, the flag `sent_devlist` holds exactly when a
/// device list has been written in full.
#[verifier::spinoff_prover]
pub proof fn sent_devlist_iff_devlist_written(events: Seq<HandshakeEventView>)
    ensures
        spec_handshake_after(events).1 <==> exists|i: int| #[trigger] devlist_written(events, i),
    decreases events.len(),
{
    if events.len() > 0 {
        let prev = events.drop_last();
        sent_devlist_iff_devlist_written(prev);
        let n = events.len() - 1;
        let pre = spec_handshake_after(prev);
        assert(events.take(n) =~= prev);
        assert forall|i: int| 0 <= i < n implies #[trigger] devlist_written(events, i)
            == devlist_written(prev, i) by {
            assert(events.take(i) =~= prev.take(i));
        }
        if spec_handshake_after(events).1 {
            if pre.1 {
                let i = choose|i: int| #[trigger] devlist_written(prev, i);
                assert(devlist_written(events, i));
            } else {
                assert(devlist_written(events, n));
            }
        } else {
            assert forall|i: int| !#[trigger] devlist_written(events, i) by {
                if 0 <= i < n {
                    assert(!devlist_written(prev, i));
                }
            }
        }
    }
}

/// A handshake ends `DevlistOnly` exactly when a device list has been
/// written in full and the next request's version could not be read
/// because the client went away.
pub proof fn devlist_only_iff(events: Seq<HandshakeEventView>)
    ensures
        spec_handshake_after(events).2 == HandshakeActionView::Finish(HandshakeOutcome::DevlistOnly)
            <==> events.len() >= 1 && spec_handshake_after(events.drop_last()).0
            == HandshakePhase::AwaitVersion && (exists|i: int|
            #[trigger] devlist_written(events.drop_last(), i)) && (events.last() matches HandshakeEventView::ReceiveFailed(f) && is_eof_failure(f)),
{
    if events.len() >= 1 {
        sent_devlist_iff_devlist_written(events.drop_last());
    }
}

/// A handshake ends `Imported` exactly when its last request was an import
/// (OP_REQ_IMPORT, read after the version), its bus id field was `1-1`,
/// and the acceptance was written in full.
#[verifier::spinoff_prover]
pub proof fn imported_iff(events: Seq<HandshakeEventView>)
    ensures
        spec_handshake_after(events).2 == HandshakeActionView::Finish(HandshakeOutcome::Imported)
            <==> events.len() >= 3 && spec_handshake_after(events.take(events.len() - 3)).0
            == HandshakePhase::AwaitOpAndStatus && (events[events.len() - 3] matches HandshakeEventView::Received(h) && h.len() >= 6
            && be_u16_value(h.subrange(0, 2)) == OP_REQ_IMPORT) && events[events.len() - 2]
            == HandshakeEventView::Received(busid_field()) && events.last()
            == HandshakeEventView::Sent,
{
    if events.len() >= 1 {
        let n = events.len();
        let e1 = events.drop_last();
        if spec_handshake_after(events).2 == HandshakeActionView::Finish(HandshakeOutcome::Imported) {
            let p1 = spec_handshake_after(e1);
            assert(p1.0 == HandshakePhase::SendingImportOk);
            assert(events.last() == HandshakeEventView::Sent);
            assert(e1.len() >= 1);
            let e2 = e1.drop_last();
            let p2 = spec_handshake_after(e2);
            assert(p1 == spec_handshake_step(p2.0, p2.1, e1.last()));
            assert(p2.0 == HandshakePhase::AwaitBusid);
            assert(e1.last() == HandshakeEventView::Received(busid_field()));
            assert(e2.len() >= 1);
            let e3 = e2.drop_last();
            let p3 = spec_handshake_after(e3);
            assert(p2 == spec_handshake_step(p3.0, p3.1, e2.last()));
            assert(p3.0 == HandshakePhase::AwaitOpAndStatus);
            assert(e3 =~= events.take(n - 3));
            assert(e1.last() == events[n - 2]);
            assert(e2.last() == events[n - 3]);
        }
        if n >= 3 {
            let e2 = events.drop_last().drop_last();
            assert(e2.drop_last() =~= events.take(n - 3));
            assert(events.drop_last().last() == events[n - 2]);
            assert(e2.last() == events[n - 3]);
            let p3 = spec_handshake_after(e2.drop_last());
            let p2 = spec_handshake_after(e2);
            let p1 = spec_handshake_after(e1);
            assert(p2 == spec_handshake_step(p3.0, p3.1, e2.last()));
            assert(p1 == spec_handshake_step(p2.0, p2.1, e1.last()));
            assert(spec_handshake_after(events) == spec_handshake_step(p1.0, p1.1, events.last()));
        }
    }
}


/// The big-endian `u16` at `pos` of `s`.
pub open spec fn u16_at(s: Seq<u8>, pos: int) -> int {
    be_u16_value(s.subrange(pos, pos + 2))
}

/// The device record describes the exported mouse: its bus id field is
/// `1-1`, it is bus 1, device 1, high speed, its vendor and product ids
/// and device class are those of the device descriptor, and its one
/// interface has the class, subclass and protocol of the configuration's
/// interface descriptor.
#[verifier::spinoff_prover]
#[verifier::rlimit(60)]
pub proof fn device_record_describes_the_mouse()
    ensures
        spec_device_info().len() == 316,
        spec_device_info().subrange(256, 288) == busid_field(),
        crate::usbip::u32_at(spec_device_info(), 288) == 1,
        crate::usbip::u32_at(spec_device_info(), 292) == 1,
        crate::usbip::u32_at(spec_device_info(), 296) == 3,
        u16_at(spec_device_info(), 300) == spec_device_descriptor()[8] + 256
            * spec_device_descriptor()[9],
        u16_at(spec_device_info(), 302) == spec_device_descriptor()[10] + 256
            * spec_device_descriptor()[11],
        spec_device_info().subrange(306, 309) == spec_device_descriptor().subrange(4, 7),
        spec_device_info()[310] == spec_device_descriptor()[17],
        spec_device_info()[311] == 1,
        spec_device_info().subrange(312, 315) == spec_configuration_descriptor().subrange(14, 17),
{
    let d = spec_device_info();
    let dev = spec_device_descriptor();
    crate::wire::lemma_be_u32_roundtrip(1);
    crate::wire::lemma_be_u32_roundtrip(3);
    lemma_be_u16_value_of_bytes(dev[8] + 256 * dev[9]);
    lemma_be_u16_value_of_bytes(dev[10] + 256 * dev[11]);
    assert(d.subrange(256, 288) =~= busid_field());
    assert(d.subrange(288, 292) =~= be_u32_bytes(1));
    assert(d.subrange(292, 296) =~= be_u32_bytes(1));
    assert(d.subrange(296, 300) =~= be_u32_bytes(3));
    assert(d.subrange(300, 302) =~= be_u16_bytes(dev[8] + 256 * dev[9]));
    assert(d.subrange(302, 304) =~= be_u16_bytes(dev[10] + 256 * dev[11]));
    assert(d.subrange(306, 309) =~= dev.subrange(4, 7));
    assert(d.subrange(312, 315) =~= spec_configuration_descriptor().subrange(14, 17));
}

proof fn lemma_be_u16_value_of_bytes(v: int)
    requires
        0 <= v < 0x1_0000,
    ensures
        be_u16_value(be_u16_bytes(v)) == v,
{
}

/// An accepted import carries the exported device's record: version
/// 0x0111, reply code OP_REP_IMPORT, status 0, then the same 316-byte
/// record as the device list, whose bus id field is `1-1`.
#[verifier::spinoff_prover]
#[verifier::rlimit(60)]
pub proof fn import_ok_carries_the_device_record()
    ensures
        spec_import_ok_reply().len() == 8 + 316,
        u16_at(spec_import_ok_reply(), 0) == USBIP_VERSION,
        u16_at(spec_import_ok_reply(), 2) == OP_REP_IMPORT,
        crate::usbip::u32_at(spec_import_ok_reply(), 4) == 0,
        spec_import_ok_reply().subrange(8, 324) == spec_device_info(),
        spec_import_ok_reply().subrange(8, 324) == spec_devlist_reply().subrange(12, 328),
        spec_import_ok_reply().subrange(264, 296) == busid_field(),
{
    let r = spec_import_ok_reply();
    let head = be_u16_bytes(USBIP_VERSION as int) + be_u16_bytes(OP_REP_IMPORT as int)
        + be_u32_bytes(0);
    let dl_head = be_u16_bytes(USBIP_VERSION as int) + be_u16_bytes(OP_REP_DEVLIST as int)
        + be_u32_bytes(0) + be_u32_bytes(1);
    device_record_describes_the_mouse();
    crate::wire::lemma_be_u32_roundtrip(0);
    assert(head.len() == 8);
    assert(dl_head.len() == 12);
    lemma_split(head, spec_device_info());
    lemma_split(dl_head, spec_device_info());
    assert(head.subrange(0, 2) =~= be_u16_bytes(USBIP_VERSION as int));
    assert(head.subrange(2, 4) =~= be_u16_bytes(OP_REP_IMPORT as int));
    assert(head.subrange(4, 8) =~= be_u32_bytes(0));
    assert(r.subrange(0, 2) =~= head.subrange(0, 2));
    assert(r.subrange(2, 4) =~= head.subrange(2, 4));
    assert(r.subrange(4, 8) =~= head.subrange(4, 8));
    assert(r.subrange(264, 296) =~= spec_device_info().subrange(256, 288));
}

/// The parts of a concatenation are its subranges.
proof fn lemma_split(a: Seq<u8>, b: Seq<u8>)
    ensures
        (a + b).subrange(0, a.len() as int) == a,
        (a + b).subrange(a.len() as int, (a.len() + b.len()) as int) == b,
{
    assert((a + b).subrange(0, a.len() as int) =~= a);
    assert((a + b).subrange(a.len() as int, (a.len() + b.len()) as int) =~= b);
}

/// A refused import is version 0x0111, reply code OP_REP_IMPORT, status 1,
/// and nothing more.
pub proof fn import_error_is_status_one()
    ensures
        spec_import_error_reply().len() == 8,
        u16_at(spec_import_error_reply(), 0) == USBIP_VERSION,
        u16_at(spec_import_error_reply(), 2) == OP_REP_IMPORT,
        crate::usbip::u32_at(spec_import_error_reply(), 4) == 1,
{
    let r = spec_import_error_reply();
    crate::wire::lemma_be_u32_roundtrip(1);
    assert(r.subrange(0, 2) =~= be_u16_bytes(USBIP_VERSION as int));
    assert(r.subrange(2, 4) =~= be_u16_bytes(OP_REP_IMPORT as int));
    assert(r.subrange(4, 8) =~= be_u32_bytes(1));
}

} // verus!
