//! Big-endian integers on the wire, read and written through `byteorder`.
use byteorder::{BigEndian, ByteOrder};
use vstd::prelude::*;

verus! {

/// The value of two bytes read as a big-endian unsigned integer.
pub open spec fn be_u16_value(s: Seq<u8>) -> int {
    s[0] * 256 + s[1]
}

/// The value of four bytes read as a big-endian unsigned integer.
pub open spec fn be_u32_value(s: Seq<u8>) -> int {
    s[0] * 16777216 + s[1] * 65536 + s[2] * 256 + s[3]
}

/// An unsigned 32-bit value reinterpreted as a two's complement `i32`.
pub open spec fn as_signed32(v: int) -> int {
    if v < 0x8000_0000 {
        v
    } else {
        v - 0x1_0000_0000
    }
}

/// The two big-endian bytes of `v` (taken modulo 2^16).
pub open spec fn be_u16_bytes(v: int) -> Seq<u8> {
    seq![((v / 256) % 256) as u8, (v % 256) as u8]
}

/// The four big-endian bytes of `v` (taken modulo 2^32).
pub open spec fn be_u32_bytes(v: int) -> Seq<u8> {
    seq![
        ((v / 16777216) % 256) as u8,
        ((v / 65536) % 256) as u8,
        ((v / 256) % 256) as u8,
        (v % 256) as u8,
    ]
}

/// The four big-endian bytes of `v` in two's complement.
pub open spec fn be_i32_bytes(v: i32) -> Seq<u8> {
    if v >= 0 {
        be_u32_bytes(v as int)
    } else {
        be_u32_bytes(v + 0x1_0000_0000)
    }
}

/// `BigEndian::read_u16` of byteorder on the two bytes at `pos`: it returns
/// `u16::from_be_bytes` of them.
#[verifier::external_body]
pub(crate) fn read_u16_at(buf: &[u8], pos: usize) -> (r: u16)
    requires
        pos + 2 <= buf.len(),
    ensures
        r as int == be_u16_value(buf@.subrange(pos as int, pos + 2)),
{
    BigEndian::read_u16(&buf[pos..pos + 2])
}

/// `BigEndian::read_u32` of byteorder on the four bytes at `pos`: it returns
/// `u32::from_be_bytes` of them.
#[verifier::external_body]
pub(crate) fn read_u32_at(buf: &[u8], pos: usize) -> (r: u32)
    requires
        pos + 4 <= buf.len(),
    ensures
        r as int == be_u32_value(buf@.subrange(pos as int, pos + 4)),
{
    BigEndian::read_u32(&buf[pos..pos + 4])
}

/// `BigEndian::read_i32` of byteorder on the four bytes at `pos`: it returns
/// `read_u32` of them cast to `i32`.
#[verifier::external_body]
pub(crate) fn read_i32_at(buf: &[u8], pos: usize) -> (r: i32)
    requires
        pos + 4 <= buf.len(),
    ensures
        r as int == as_signed32(be_u32_value(buf@.subrange(pos as int, pos + 4))),
{
    BigEndian::read_i32(&buf[pos..pos + 4])
}

/// `BigEndian::write_u16` of byteorder into a fresh 2-byte buffer: it stores
/// `n.to_be_bytes()`.
#[verifier::external_body]
fn byteorder_write_u16(n: u16) -> (r: [u8; 2])
    ensures
        r@ == be_u16_bytes(n as int),
{
    let mut b = [0u8; 2];
    BigEndian::write_u16(&mut b, n);
    b
}

/// `BigEndian::write_u32` of byteorder into a fresh 4-byte buffer: it stores
/// `n.to_be_bytes()`.
#[verifier::external_body]
fn byteorder_write_u32(n: u32) -> (r: [u8; 4])
    ensures
        r@ == be_u32_bytes(n as int),
{
    let mut b = [0u8; 4];
    BigEndian::write_u32(&mut b, n);
    b
}

/// `BigEndian::write_i32` of byteorder into a fresh 4-byte buffer: it stores
/// the bytes of `n as u32`, that is `n` in two's complement.
#[verifier::external_body]
fn byteorder_write_i32(n: i32) -> (r: [u8; 4])
    ensures
        r@ == be_i32_bytes(n),
{
    let mut b = [0u8; 4];
    BigEndian::write_i32(&mut b, n);
    b
}

/// A message body was shorter than its fixed layout.
#[derive(Debug, PartialEq, Eq)]
pub enum WireError {
    UnexpectedEof,
}

/// Reading back the bytes that `be_u32_bytes` gives recovers the value.
pub proof fn lemma_be_u32_roundtrip(v: int)
    requires
        0 <= v < 0x1_0000_0000,
    ensures
        be_u32_bytes(v).len() == 4,
        be_u32_value(be_u32_bytes(v)) == v,
{
    let b = be_u32_bytes(v);
    assert(v == (v / 16777216) * 16777216 + (v % 16777216)) by (nonlinear_arith)
        requires 0 <= v;
    assert((v / 16777216) < 256) by (nonlinear_arith)
        requires 0 <= v < 0x1_0000_0000;
    assert((v / 65536) % 256 == (v % 16777216) / 65536) by (nonlinear_arith)
        requires 0 <= v;
    assert((v / 256) % 256 == (v % 65536) / 256) by (nonlinear_arith)
        requires 0 <= v;
    assert(v % 16777216 == ((v % 16777216) / 65536) * 65536 + v % 65536) by (nonlinear_arith)
        requires 0 <= v;
    assert(v % 65536 == ((v % 65536) / 256) * 256 + v % 256) by (nonlinear_arith)
        requires 0 <= v;
}

/// Reading back the bytes that `be_i32_bytes` gives, as a two's complement
/// value, recovers the value.
pub proof fn lemma_be_i32_roundtrip(v: i32)
    ensures
        be_i32_bytes(v).len() == 4,
        as_signed32(be_u32_value(be_i32_bytes(v))) == v,
{
    if v >= 0 {
        lemma_be_u32_roundtrip(v as int);
    } else {
        lemma_be_u32_roundtrip(v + 0x1_0000_0000);
    }
}

/// Appends `v` in big-endian order.
pub fn push_u16(out: &mut Vec<u8>, v: u16)
    ensures
        final(out)@ == old(out)@ + be_u16_bytes(v as int),
{
    let b = byteorder_write_u16(v);
    out.push(b[0]);
    out.push(b[1]);
    assert(out@ =~= old(out)@ + be_u16_bytes(v as int));
}

/// Appends `v` in big-endian order.
pub fn push_u32(out: &mut Vec<u8>, v: u32)
    ensures
        final(out)@ == old(out)@ + be_u32_bytes(v as int),
{
    let b = byteorder_write_u32(v);
    out.push(b[0]);
    out.push(b[1]);
    out.push(b[2]);
    out.push(b[3]);
    assert(out@ =~= old(out)@ + be_u32_bytes(v as int));
}

/// Appends `v` in big-endian two's complement.
pub fn push_i32(out: &mut Vec<u8>, v: i32)
    ensures
        final(out)@ == old(out)@ + be_i32_bytes(v),
{
    let b = byteorder_write_i32(v);
    out.push(b[0]);
    out.push(b[1]);
    out.push(b[2]);
    out.push(b[3]);
    assert(out@ =~= old(out)@ + be_i32_bytes(v));
}

} // verus!
