//! USB/IP protocol constants and the fixed-layout URB messages.
pub mod handler;
pub mod server;

use crate::wire::{
    as_signed32, be_i32_bytes, be_u32_bytes, be_u32_value, push_i32, push_u32, read_i32_at,
    read_u32_at, WireError,
};
use vstd::prelude::*;

verus! {

/// Protocol version 1.1.1.
pub const USBIP_VERSION: u16 = 0x0111;

// OP codes (handshake phase)
pub const OP_REQ_DEVLIST: u16 = 0x8005;
pub const OP_REP_DEVLIST: u16 = 0x0005;
pub const OP_REQ_IMPORT: u16 = 0x8003;
pub const OP_REP_IMPORT: u16 = 0x0003;

// CMD codes (URB phase)
pub const USBIP_CMD_SUBMIT: u32 = 0x00000001;
pub const USBIP_CMD_UNLINK: u32 = 0x00000002;
pub const USBIP_RET_SUBMIT: u32 = 0x00000003;
pub const USBIP_RET_UNLINK: u32 = 0x00000004;

/// Sentinel in `number_of_packets` for non-isochronous transfers.
pub const NUMBER_OF_PACKETS_NON_ISOCH: i32 = -1;

/// The bus id under which the mouse is exported.
pub const BUSID: &'static str = "1-1";

/// Length of a CMD_SUBMIT body (the header after the 4-byte command word).
pub const CMD_SUBMIT_BODY_LEN: usize = 44;

/// Length of a CMD_UNLINK body (the header after the 4-byte command word).
pub const CMD_UNLINK_BODY_LEN: usize = 44;

/// Length of a RET_SUBMIT or RET_UNLINK header.
pub const RET_HEADER_LEN: usize = 48;

/// `count` zero bytes.
pub open spec fn zeros(count: nat) -> Seq<u8> {
    Seq::new(count, |i: int| 0u8)
}

/// The big-endian `u32` at `pos` of `s`.
pub open spec fn u32_at(s: Seq<u8>, pos: int) -> int {
    be_u32_value(s.subrange(pos, pos + 4))
}

/// USBIP_CMD_SUBMIT header (the fields after the 4-byte command word).
#[derive(Debug)]
pub struct CmdSubmit {
    pub seqnum: u32,
    pub devid: u32,
    pub direction: u32,
    pub ep: u32,
    /// INT32 in the protocol
    pub transfer_buffer_length: i32,
    pub setup: [u8; 8],
}

impl CmdSubmit {
    /// `self` is what the 44-byte body `s` says: seqnum, devid, direction,
    /// ep, transfer_flags (skipped), transfer_buffer_length, start_frame,
    /// number_of_packets and interval (skipped), all big-endian, then the
    /// 8-byte setup packet.
    pub open spec fn parsed_from(self, s: Seq<u8>) -> bool {
        &&& self.seqnum as int == u32_at(s, 0)
        &&& self.devid as int == u32_at(s, 4)
        &&& self.direction as int == u32_at(s, 8)
        &&& self.ep as int == u32_at(s, 12)
        &&& self.transfer_buffer_length as int == as_signed32(u32_at(s, 20))
        &&& self.setup@ == s.subrange(36, 44)
    }

    /// Decodes a CMD_SUBMIT body from the first 44 bytes of `buf`; fails with
    /// `UnexpectedEof` when `buf` is shorter.
    pub fn read_from(buf: &[u8]) -> (r: Result<CmdSubmit, WireError>)
        ensures
            r is Ok <==> buf.len() >= CMD_SUBMIT_BODY_LEN,
            r matches Ok(c) ==> c.parsed_from(buf@),
            r matches Err(e) ==> e == WireError::UnexpectedEof,
    {
        if buf.len() < CMD_SUBMIT_BODY_LEN {
            return Err(WireError::UnexpectedEof);
        }
        let seqnum = read_u32_at(buf, 0);
        let devid = read_u32_at(buf, 4);
        let direction = read_u32_at(buf, 8);
        let ep = read_u32_at(buf, 12);
        let transfer_buffer_length = read_i32_at(buf, 20);
        let setup = [buf[36], buf[37], buf[38], buf[39], buf[40], buf[41], buf[42], buf[43]];
        assert(setup@ =~= buf@.subrange(36, 44));
        Ok(CmdSubmit { seqnum, devid, direction, ep, transfer_buffer_length, setup })
    }
}

/// USBIP_RET_SUBMIT header: 48 bytes (basic header 20, payload 20, padding 8).
pub struct RetSubmit {
    pub seqnum: u32,
    pub devid: u32,
    pub direction: u32,
    pub ep: u32,
    pub status: i32,
    pub actual_length: i32,
    pub start_frame: i32,
    /// -1 for non-isochronous
    pub number_of_packets: i32,
    pub error_count: i32,
}

impl RetSubmit {
    /// The 48 header bytes: the command word RET_SUBMIT, then every field
    /// big-endian, then 8 zero bytes.
    pub open spec fn spec_bytes(self) -> Seq<u8> {
        be_u32_bytes(USBIP_RET_SUBMIT as int) + be_u32_bytes(self.seqnum as int) + be_u32_bytes(
            self.devid as int,
        ) + be_u32_bytes(self.direction as int) + be_u32_bytes(self.ep as int) + be_i32_bytes(
            self.status,
        ) + be_i32_bytes(self.actual_length) + be_i32_bytes(self.start_frame) + be_i32_bytes(
            self.number_of_packets,
        ) + be_i32_bytes(self.error_count) + zeros(8)
    }

    /// Appends the 48-byte header to `w`.
    pub fn write_to(&self, w: &mut Vec<u8>)
        ensures
            final(w)@ == old(w)@ + self.spec_bytes(),
    {
        push_u32(w, USBIP_RET_SUBMIT);
        push_u32(w, self.seqnum);
        push_u32(w, self.devid);
        push_u32(w, self.direction);
        push_u32(w, self.ep);
        push_i32(w, self.status);
        push_i32(w, self.actual_length);
        push_i32(w, self.start_frame);
        push_i32(w, self.number_of_packets);
        push_i32(w, self.error_count);
        push_zeros(w, 8);
        assert(w@ =~= old(w)@ + self.spec_bytes());
    }
}

/// USBIP_CMD_UNLINK header (the fields after the 4-byte command word).
#[derive(Debug)]
pub struct CmdUnlink {
    pub seqnum: u32,
    pub devid: u32,
    pub direction: u32,
    pub ep: u32,
    pub unlink_seqnum: u32,
}

impl CmdUnlink {
    /// `self` is what the 44-byte body `s` says: seqnum, devid, direction,
    /// ep, unlink_seqnum, big-endian, then 24 bytes of padding.
    pub open spec fn parsed_from(self, s: Seq<u8>) -> bool {
        &&& self.seqnum as int == u32_at(s, 0)
        &&& self.devid as int == u32_at(s, 4)
        &&& self.direction as int == u32_at(s, 8)
        &&& self.ep as int == u32_at(s, 12)
        &&& self.unlink_seqnum as int == u32_at(s, 16)
    }

    /// Decodes a CMD_UNLINK body from the first 44 bytes of `buf` (the last
    /// 24 being padding); fails with `UnexpectedEof` when `buf` is shorter.
    pub fn read_from(buf: &[u8]) -> (r: Result<CmdUnlink, WireError>)
        ensures
            r is Ok <==> buf.len() >= CMD_UNLINK_BODY_LEN,
            r matches Ok(c) ==> c.parsed_from(buf@),
            r matches Err(e) ==> e == WireError::UnexpectedEof,
    {
        if buf.len() < CMD_UNLINK_BODY_LEN {
            return Err(WireError::UnexpectedEof);
        }
        let seqnum = read_u32_at(buf, 0);
        let devid = read_u32_at(buf, 4);
        let direction = read_u32_at(buf, 8);
        let ep = read_u32_at(buf, 12);
        let unlink_seqnum = read_u32_at(buf, 16);
        Ok(CmdUnlink { seqnum, devid, direction, ep, unlink_seqnum })
    }
}

/// USBIP_RET_UNLINK header: 48 bytes (basic header 20, status 4, padding 24).
pub struct RetUnlink {
    pub seqnum: u32,
    pub devid: u32,
    pub direction: u32,
    pub ep: u32,
    pub status: i32,
}

impl RetUnlink {
    /// The 48 header bytes: the command word RET_UNLINK, then every field
    /// big-endian, then 24 zero bytes.
    pub open spec fn spec_bytes(self) -> Seq<u8> {
        be_u32_bytes(USBIP_RET_UNLINK as int) + be_u32_bytes(self.seqnum as int) + be_u32_bytes(
            self.devid as int,
        ) + be_u32_bytes(self.direction as int) + be_u32_bytes(self.ep as int) + be_i32_bytes(
            self.status,
        ) + zeros(24)
    }

    /// Appends the 48-byte header to `w`.
    pub fn write_to(&self, w: &mut Vec<u8>)
        ensures
            final(w)@ == old(w)@ + self.spec_bytes(),
    {
        push_u32(w, USBIP_RET_UNLINK);
        push_u32(w, self.seqnum);
        push_u32(w, self.devid);
        push_u32(w, self.direction);
        push_u32(w, self.ep);
        push_i32(w, self.status);
        push_zeros(w, 24);
        assert(w@ =~= old(w)@ + self.spec_bytes());
    }
}

/// Appends `count` zero bytes.
pub fn push_zeros(w: &mut Vec<u8>, count: usize)
    ensures
        final(w)@ == old(w)@ + zeros(count as nat),
{
    let mut i: usize = 0;
    while i < count
        invariant
            i <= count,
            w@ == old(w)@ + zeros(i as nat),
        decreases count - i,
    {
        w.push(0);
        i = i + 1;
        assert(w@ =~= old(w)@ + zeros(i as nat));
    }
}

/// Every RET header is 48 bytes long and starts with its command word and
/// the sequence number it answers, both big-endian.
#[verifier::spinoff_prover]
#[verifier::rlimit(40)]
pub proof fn ret_headers_layout(s: RetSubmit, u: RetUnlink)
    ensures
        s.spec_bytes().len() == RET_HEADER_LEN,
        u32_at(s.spec_bytes(), 0) == USBIP_RET_SUBMIT,
        u32_at(s.spec_bytes(), 4) == s.seqnum,
        u.spec_bytes().len() == RET_HEADER_LEN,
        u32_at(u.spec_bytes(), 0) == USBIP_RET_UNLINK,
        u32_at(u.spec_bytes(), 4) == u.seqnum,
{
    crate::wire::lemma_be_u32_roundtrip(USBIP_RET_SUBMIT as int);
    crate::wire::lemma_be_u32_roundtrip(USBIP_RET_UNLINK as int);
    crate::wire::lemma_be_u32_roundtrip(s.seqnum as int);
    crate::wire::lemma_be_u32_roundtrip(u.seqnum as int);
    assert(s.spec_bytes().subrange(0, 4) =~= be_u32_bytes(USBIP_RET_SUBMIT as int));
    assert(s.spec_bytes().subrange(4, 8) =~= be_u32_bytes(s.seqnum as int));
    assert(u.spec_bytes().subrange(0, 4) =~= be_u32_bytes(USBIP_RET_UNLINK as int));
    assert(u.spec_bytes().subrange(4, 8) =~= be_u32_bytes(u.seqnum as int));
}


/// The signed 32-bit field at `pos` of `s`.
pub open spec fn i32_at(s: Seq<u8>, pos: int) -> int {
    as_signed32(u32_at(s, pos))
}

/// A RET_SUBMIT header puts each field at its own offset, big-endian:
/// command 0, seqnum 4, devid 8, direction 12, ep 16, status 20,
/// actual_length 24, start_frame 28, number_of_packets 32, error_count 36,
/// then 8 zero bytes.
#[verifier::spinoff_prover]
#[verifier::rlimit(60)]
pub proof fn ret_submit_fields(r: RetSubmit)
    ensures
        r.spec_bytes().len() == RET_HEADER_LEN,
        u32_at(r.spec_bytes(), 0) == USBIP_RET_SUBMIT,
        u32_at(r.spec_bytes(), 4) == r.seqnum,
        u32_at(r.spec_bytes(), 8) == r.devid,
        u32_at(r.spec_bytes(), 12) == r.direction,
        u32_at(r.spec_bytes(), 16) == r.ep,
        i32_at(r.spec_bytes(), 20) == r.status,
        i32_at(r.spec_bytes(), 24) == r.actual_length,
        i32_at(r.spec_bytes(), 28) == r.start_frame,
        i32_at(r.spec_bytes(), 32) == r.number_of_packets,
        i32_at(r.spec_bytes(), 36) == r.error_count,
        r.spec_bytes().subrange(40, 48) == zeros(8),
{
    let b = r.spec_bytes();
    crate::wire::lemma_be_u32_roundtrip(USBIP_RET_SUBMIT as int);
    crate::wire::lemma_be_u32_roundtrip(r.seqnum as int);
    crate::wire::lemma_be_u32_roundtrip(r.devid as int);
    crate::wire::lemma_be_u32_roundtrip(r.direction as int);
    crate::wire::lemma_be_u32_roundtrip(r.ep as int);
    crate::wire::lemma_be_i32_roundtrip(r.status);
    crate::wire::lemma_be_i32_roundtrip(r.actual_length);
    crate::wire::lemma_be_i32_roundtrip(r.start_frame);
    crate::wire::lemma_be_i32_roundtrip(r.number_of_packets);
    crate::wire::lemma_be_i32_roundtrip(r.error_count);
    assert(b.subrange(0, 4) =~= be_u32_bytes(USBIP_RET_SUBMIT as int));
    assert(b.subrange(4, 8) =~= be_u32_bytes(r.seqnum as int));
    assert(b.subrange(8, 12) =~= be_u32_bytes(r.devid as int));
    assert(b.subrange(12, 16) =~= be_u32_bytes(r.direction as int));
    assert(b.subrange(16, 20) =~= be_u32_bytes(r.ep as int));
    assert(b.subrange(20, 24) =~= be_i32_bytes(r.status));
    assert(b.subrange(24, 28) =~= be_i32_bytes(r.actual_length));
    assert(b.subrange(28, 32) =~= be_i32_bytes(r.start_frame));
    assert(b.subrange(32, 36) =~= be_i32_bytes(r.number_of_packets));
    assert(b.subrange(36, 40) =~= be_i32_bytes(r.error_count));
    assert(b.subrange(40, 48) =~= zeros(8));
}

/// A RET_UNLINK header puts each field at its own offset, big-endian:
/// command 0, seqnum 4, devid 8, direction 12, ep 16, status 20, then 24
/// zero bytes.
#[verifier::spinoff_prover]
#[verifier::rlimit(60)]
pub proof fn ret_unlink_fields(r: RetUnlink)
    ensures
        r.spec_bytes().len() == RET_HEADER_LEN,
        u32_at(r.spec_bytes(), 0) == USBIP_RET_UNLINK,
        u32_at(r.spec_bytes(), 4) == r.seqnum,
        u32_at(r.spec_bytes(), 8) == r.devid,
        u32_at(r.spec_bytes(), 12) == r.direction,
        u32_at(r.spec_bytes(), 16) == r.ep,
        i32_at(r.spec_bytes(), 20) == r.status,
        r.spec_bytes().subrange(24, 48) == zeros(24),
{
    let b = r.spec_bytes();
    crate::wire::lemma_be_u32_roundtrip(USBIP_RET_UNLINK as int);
    crate::wire::lemma_be_u32_roundtrip(r.seqnum as int);
    crate::wire::lemma_be_u32_roundtrip(r.devid as int);
    crate::wire::lemma_be_u32_roundtrip(r.direction as int);
    crate::wire::lemma_be_u32_roundtrip(r.ep as int);
    crate::wire::lemma_be_i32_roundtrip(r.status);
    assert(b.subrange(0, 4) =~= be_u32_bytes(USBIP_RET_UNLINK as int));
    assert(b.subrange(4, 8) =~= be_u32_bytes(r.seqnum as int));
    assert(b.subrange(8, 12) =~= be_u32_bytes(r.devid as int));
    assert(b.subrange(12, 16) =~= be_u32_bytes(r.direction as int));
    assert(b.subrange(16, 20) =~= be_u32_bytes(r.ep as int));
    assert(b.subrange(20, 24) =~= be_i32_bytes(r.status));
    assert(b.subrange(24, 48) =~= zeros(24));
}

} // verus!
