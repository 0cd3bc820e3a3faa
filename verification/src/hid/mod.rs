//! The USB descriptors of the emulated mouse.
pub mod mouse;

use vstd::prelude::*;

verus! {

/// The device descriptor: USB 2.0, class defined at interface level,
/// 8-byte control endpoint, vendor 0x0627, product 0x0001, bcdDevice 0x4800,
/// manufacturer string 1, product string 2, no serial, one configuration.
pub open spec fn spec_device_descriptor() -> Seq<u8> {
    seq![
        0x12u8, 0x01, 0x00, 0x02, 0x00, 0x00, 0x00, 0x08,
        0x27, 0x06, 0x01, 0x00, 0x00, 0x48, 0x01, 0x02, 0x00, 0x01,
    ]
}

/// The HID report descriptor: a mouse with 3 buttons, 5 bits of padding and
/// relative X, Y and wheel bytes in -127..=127.
pub open spec fn spec_report_descriptor() -> Seq<u8> {
    seq![
        0x05u8, 0x01, 0x09, 0x02, 0xA1, 0x01,
        0x09, 0x01, 0xA1, 0x00,
        0x05, 0x09, 0x19, 0x01, 0x29, 0x03, 0x15, 0x00, 0x25, 0x01, 0x75, 0x01, 0x95, 0x03, 0x81, 0x02,
        0x75, 0x05, 0x95, 0x01, 0x81, 0x01,
        0x05, 0x01, 0x09, 0x30, 0x09, 0x31, 0x09, 0x38, 0x15, 0x81, 0x25, 0x7F, 0x75, 0x08, 0x95, 0x03, 0x81, 0x06,
        0xC0, 0xC0,
    ]
}

/// The configuration blob: configuration (9 bytes), interface (9: HID, boot
/// subclass, mouse protocol), HID (9, naming the report descriptor and its
/// length) and endpoint (7: 0x81 interrupt IN, 4 bytes, 10 ms) descriptors.
pub open spec fn spec_configuration_descriptor() -> Seq<u8> {
    seq![
        0x09u8, 0x02, 0x22, 0x00, 0x01, 0x01, 0x00, 0xA0, 0x32,
        0x09, 0x04, 0x00, 0x00, 0x01, 0x03, 0x01, 0x02, 0x00,
        0x09, 0x21, 0x11, 0x01, 0x00, 0x01, 0x22,
        (spec_report_descriptor().len() % 256) as u8, (spec_report_descriptor().len() / 256) as u8,
        0x07, 0x05, 0x81, 0x03, 0x04, 0x00, 0x0A,
    ]
}

/// String descriptor 0: the language list, English (US).
pub open spec fn spec_string_descriptor_0() -> Seq<u8> {
    seq![0x04u8, 0x03, 0x09, 0x04]
}

/// The device descriptor (18 bytes).
pub fn device_descriptor() -> (r: Vec<u8>)
    ensures
        r@ == spec_device_descriptor(),
{
    let r = vec![
        0x12u8, 0x01, 0x00, 0x02, 0x00, 0x00, 0x00, 0x08,
        0x27, 0x06, 0x01, 0x00, 0x00, 0x48, 0x01, 0x02, 0x00, 0x01,
    ];
    assert(r@ =~= spec_device_descriptor());
    r
}

/// The HID report descriptor (52 bytes).
pub fn report_descriptor() -> (r: Vec<u8>)
    ensures
        r@ == spec_report_descriptor(),
{
    let r = vec![
        0x05u8, 0x01, 0x09, 0x02, 0xA1, 0x01,
        0x09, 0x01, 0xA1, 0x00,
        0x05, 0x09, 0x19, 0x01, 0x29, 0x03, 0x15, 0x00, 0x25, 0x01, 0x75, 0x01, 0x95, 0x03, 0x81, 0x02,
        0x75, 0x05, 0x95, 0x01, 0x81, 0x01,
        0x05, 0x01, 0x09, 0x30, 0x09, 0x31, 0x09, 0x38, 0x15, 0x81, 0x25, 0x7F, 0x75, 0x08, 0x95, 0x03, 0x81, 0x06,
        0xC0, 0xC0,
    ];
    assert(r@ =~= spec_report_descriptor());
    r
}

/// The configuration blob (34 bytes); its HID descriptor carries the length
/// of the report descriptor, computed from that descriptor.
pub fn configuration_descriptor() -> (r: Vec<u8>)
    ensures
        r@ == spec_configuration_descriptor(),
{
    let report_len = report_descriptor().len();
    let lo = (report_len % 256) as u8;
    let hi = (report_len / 256) as u8;
    let r = vec![
        0x09u8, 0x02, 0x22, 0x00, 0x01, 0x01, 0x00, 0xA0, 0x32,
        0x09, 0x04, 0x00, 0x00, 0x01, 0x03, 0x01, 0x02, 0x00,
        0x09, 0x21, 0x11, 0x01, 0x00, 0x01, 0x22, lo, hi,
        0x07, 0x05, 0x81, 0x03, 0x04, 0x00, 0x0A,
    ];
    assert(r@ =~= spec_configuration_descriptor());
    r
}

/// String descriptor 0 (4 bytes).
pub fn string_descriptor_0() -> (r: Vec<u8>)
    ensures
        r@ == spec_string_descriptor_0(),
{
    let r = vec![0x04u8, 0x03, 0x09, 0x04];
    assert(r@ =~= spec_string_descriptor_0());
    r
}

/// The descriptors describe themselves consistently: the device descriptor's
/// `bLength` is its length, the configuration blob's `wTotalLength` is its
/// length, and the HID descriptor's `wDescriptorLength` is the length of the
/// report descriptor.
pub proof fn descriptor_lengths_agree()
    ensures
        spec_device_descriptor()[0] == spec_device_descriptor().len(),
        spec_configuration_descriptor()[2] + 256 * spec_configuration_descriptor()[3]
            == spec_configuration_descriptor().len(),
        spec_configuration_descriptor()[25] + 256 * spec_configuration_descriptor()[26]
            == spec_report_descriptor().len(),
        spec_string_descriptor_0()[0] == spec_string_descriptor_0().len(),
{
}

/// The UTF-16 code units of one character.
pub open spec fn utf16_units(c: char) -> Seq<u16> {
    let v = (c as u32) as int;
    if v < 0x10000 {
        seq![v as u16]
    } else {
        seq![(0xD800 + (v - 0x10000) / 0x400) as u16, (0xDC00 + (v - 0x10000) % 0x400) as u16]
    }
}

/// A UTF-16 code unit in little-endian byte order.
pub open spec fn le_unit_bytes(u: u16) -> Seq<u8> {
    seq![(u % 256) as u8, (u / 256) as u8]
}

/// The UTF-16LE encoding of one character.
pub open spec fn utf16le_char(c: char) -> Seq<u8> {
    let units = utf16_units(c);
    if units.len() == 1 {
        le_unit_bytes(units[0])
    } else {
        le_unit_bytes(units[0]) + le_unit_bytes(units[1])
    }
}

/// The UTF-16LE encoding of a string.
pub open spec fn utf16le(s: Seq<char>) -> Seq<u8>
    decreases s.len(),
{
    if s.len() == 0 {
        Seq::empty()
    } else {
        utf16le(s.drop_last()) + utf16le_char(s.last())
    }
}

/// A USB string descriptor: length byte (modulo 256), type 3, then the
/// UTF-16LE text.
pub open spec fn spec_string_descriptor(s: Seq<char>) -> Seq<u8> {
    seq![((2 + utf16le(s).len()) % 256) as u8, 0x03u8] + utf16le(s)
}

fn push_le_unit(out: &mut Vec<u8>, u: u16)
    ensures
        final(out)@ == old(out)@ + le_unit_bytes(u),
{
    out.push((u % 256) as u8);
    out.push((u / 256) as u8);
    assert(out@ =~= old(out)@ + le_unit_bytes(u));
}

/// Builds the string descriptor of `s`: `[2 + n, 0x03]` followed by the `n`
/// bytes of `s` in UTF-16LE; the length byte keeps the low 8 bits of `2 + n`.
pub fn string_descriptor(s: &str) -> (r: Vec<u8>)
    ensures
        r@ == spec_string_descriptor(s@),
{
    broadcast use vstd::string::axiom_spec_iter, vstd::string::next_postcondition;

    let mut utf16: Vec<u8> = Vec::new();
    let mut chars = s.chars();
    let ghost mut k: int = 0;
    loop
        invariant_except_break
            0 <= k <= s@.len(),
            vstd::std_specs::iter::IteratorSpec::remaining(&chars) == s@.skip(k),
            utf16@ == utf16le(s@.take(k)),
        ensures
            utf16@ == utf16le(s@),
        decreases s@.len() - k,
    {
        match chars.next() {
            Some(c) => {
                assert(s@.take(k + 1).drop_last() =~= s@.take(k));
                assert(s@.take(k + 1).last() == c);
                let ghost before = utf16@;
                let v = c as u32;
                proof {
                    vstd::utf8::char_is_scalar(c);
                }
                if v < 0x10000 {
                    push_le_unit(&mut utf16, v as u16);
                    assert(utf16@ =~= before + utf16le_char(c));
                } else {
                    let w = v - 0x10000;
                    assert(w < 0x100000);
                    push_le_unit(&mut utf16, (0xD800 + w / 0x400) as u16);
                    push_le_unit(&mut utf16, (0xDC00 + w % 0x400) as u16);
                    assert(utf16@ =~= before + utf16le_char(c));
                }
                proof {
                    k = k + 1;
                    assert(s@.skip(k - 1).drop_first() =~= s@.skip(k));
                }
            },
            None => {
                assert(s@.take(k) =~= s@);
                break ;
            },
        }
    }
    let len_byte = ((utf16.len() % 256 + 2) % 256) as u8;
    let mut desc: Vec<u8> = vec![len_byte, 0x03];
    let mut i: usize = 0;
    while i < utf16.len()
        invariant
            0 <= i <= utf16.len(),
            desc@ == seq![len_byte, 0x03u8] + utf16@.take(i as int),
        decreases utf16.len() - i,
    {
        desc.push(utf16[i]);
        i = i + 1;
        assert(desc@ =~= seq![len_byte, 0x03u8] + utf16@.take(i as int));
    }
    assert(utf16@.take(i as int) =~= utf16@);
    desc
}

/// A string descriptor describes itself: type 3, and a length byte equal
/// to its length whenever that length fits in the byte.
pub proof fn string_descriptor_self_describing(s: Seq<char>)
    ensures
        spec_string_descriptor(s)[1] == 0x03,
        spec_string_descriptor(s).len() < 256 ==> spec_string_descriptor(s)[0]
            == spec_string_descriptor(s).len(),
{
}


/// The number of data bytes of the HID short item whose prefix byte is `p`.
pub open spec fn item_data_len(p: u8) -> int {
    if p % 4 == 3 {
        4
    } else {
        (p % 4) as int
    }
}

/// The Input main items of a HID report descriptor, read from `pos` on,
/// each as (flags, report size, report count, logical minimum, logical
/// maximum) in effect where it stands; `size`, `count`, `lmin` and `lmax`
/// are the global items set so far (one data byte each).
pub open spec fn input_items(d: Seq<u8>, pos: int, size: u8, count: u8, lmin: u8, lmax: u8) -> Seq<
    (u8, u8, u8, u8, u8),
>
    decreases d.len() - pos,
{
    if pos < 0 || pos >= d.len() || pos + 1 + item_data_len(d[pos]) > d.len() {
        Seq::empty()
    } else {
        let p = d[pos];
        let next = pos + 1 + item_data_len(p);
        let v = if item_data_len(p) >= 1 {
            d[pos + 1]
        } else {
            0u8
        };
        if p == 0x75 {
            input_items(d, next, v, count, lmin, lmax)
        } else if p == 0x95 {
            input_items(d, next, size, v, lmin, lmax)
        } else if p == 0x15 {
            input_items(d, next, size, count, v, lmax)
        } else if p == 0x25 {
            input_items(d, next, size, count, lmin, v)
        } else if p == 0x81 {
            seq![(v, size, count, lmin, lmax)] + input_items(d, next, size, count, lmin, lmax)
        } else {
            input_items(d, next, size, count, lmin, lmax)
        }
    }
}

/// The Input flag "relative" (bit 2).
pub open spec fn is_relative(flags: u8) -> bool {
    (flags / 4) % 2 == 1
}

/// The Input flag "variable" (bit 1).
pub open spec fn is_variable(flags: u8) -> bool {
    (flags / 2) % 2 == 1
}

/// The Input flag "constant" (bit 0).
pub open spec fn is_constant(flags: u8) -> bool {
    flags % 2 == 1
}

/// The report descriptor declares the 4-byte report that `MouseReport`
/// writes: three one-bit buttons (data, variable, absolute, 0..=1), five
/// constant padding bits, then three 8-bit fields (data, variable,
/// relative, -127..=127) for X, Y and the wheel; 32 bits in all.
#[verifier::spinoff_prover]
#[verifier::rlimit(100)]
pub proof fn report_descriptor_declares_the_mouse_report(r: crate::hid::mouse::MouseReport)
    ensures
        ({
            let f = input_items(spec_report_descriptor(), 0, 0, 0, 0, 0);
            &&& f.len() == 3
            &&& f[0].1 == 1 && f[0].2 == 3 && !is_constant(f[0].0) && is_variable(f[0].0)
                && !is_relative(f[0].0) && f[0].3 == 0 && f[0].4 == 1
            &&& f[1].1 == 5 && f[1].2 == 1 && is_constant(f[1].0)
            &&& f[2].1 == 8 && f[2].2 == 3 && !is_constant(f[2].0) && is_variable(f[2].0)
                && is_relative(f[2].0)
            &&& crate::hid::mouse::movement_of_byte(f[2].3) == -127 && f[2].4 == 127
            &&& f[0].1 * f[0].2 + f[1].1 * f[1].2 + f[2].1 * f[2].2 == 8 * r.spec_bytes().len()
        }),
{
    reveal_with_fuel(input_items, 30);
    let d = spec_report_descriptor();
    assert(input_items(d, 0, 0, 0, 0, 0) =~= seq![
        (0x02u8, 1u8, 3u8, 0u8, 1u8),
        (0x01u8, 5u8, 1u8, 0u8, 1u8),
        (0x06u8, 8u8, 3u8, 0x81u8, 0x7Fu8),
    ]);
}


/// The descriptor types of the chain of descriptors that starts at `pos`,
/// each descriptor giving its length in its first byte and its type in
/// its second; the chain stops at a descriptor that does not fit.
pub open spec fn descriptor_types(d: Seq<u8>, pos: int) -> Seq<u8>
    decreases d.len() - pos,
{
    if pos < 0 || pos + 2 > d.len() || d[pos] < 2 || pos + d[pos] > d.len() {
        Seq::empty()
    } else {
        seq![d[pos + 1]] + descriptor_types(d, pos + d[pos])
    }
}

/// The chain of descriptors from `pos` fills `d` exactly: each
/// descriptor's length is at least 2 and the last one ends at the end.
pub open spec fn descriptor_chain_fits(d: Seq<u8>, pos: int) -> bool
    decreases d.len() - pos,
{
    if pos == d.len() {
        true
    } else if pos < 0 || pos + 2 > d.len() || d[pos] < 2 || pos + d[pos] > d.len() {
        false
    } else {
        descriptor_chain_fits(d, pos + d[pos])
    }
}

/// How many times `t` occurs in `s`.
pub open spec fn count_of(s: Seq<u8>, t: u8) -> nat
    decreases s.len(),
{
    if s.len() == 0 {
        0
    } else {
        (if s[0] == t {
            1nat
        } else {
            0nat
        }) + count_of(s.drop_first(), t)
    }
}

/// The configuration blob is self-consistent and describes a boot mouse:
/// it is a chain of configuration, interface, HID and endpoint
/// descriptors that fills it exactly; the configuration's bNumInterfaces
/// and the interface's bNumEndpoints count the interface and endpoint
/// descriptors that follow; the interface is HID, boot subclass, mouse
/// protocol; the endpoint is interrupt IN number 1 and carries packets of
/// the report's length.
#[verifier::spinoff_prover]
#[verifier::rlimit(60)]
pub proof fn configuration_describes_a_boot_mouse(r: crate::hid::mouse::MouseReport)
    ensures
        ({
            let c = spec_configuration_descriptor();
            let types = descriptor_types(c, 0);
            &&& descriptor_chain_fits(c, 0)
            &&& types == seq![0x02u8, 0x04, 0x21, 0x05]
            &&& c[2] + 256 * c[3] == c.len()
            &&& c[4] == count_of(types, 0x04)
            &&& c[13] == count_of(types, 0x05)
            &&& c[14] == 0x03 && c[15] == 0x01 && c[16] == 0x02
            &&& c[28] == 0x05
            &&& c[29] == 0x80 + 1
            &&& c[30] % 4 == 3
            &&& c[31] + 256 * c[32] == r.spec_bytes().len()
        }),
{
    reveal_with_fuel(descriptor_types, 6);
    reveal_with_fuel(descriptor_chain_fits, 6);
    reveal_with_fuel(count_of, 6);
    let c = spec_configuration_descriptor();
    assert(descriptor_types(c, 0) =~= seq![0x02u8, 0x04, 0x21, 0x05]);
    let t = seq![0x02u8, 0x04, 0x21, 0x05];
    assert(t.drop_first() =~= seq![0x04u8, 0x21, 0x05]);
    assert(t.drop_first().drop_first() =~= seq![0x21u8, 0x05]);
    assert(t.drop_first().drop_first().drop_first() =~= seq![0x05u8]);
    assert(t.drop_first().drop_first().drop_first().drop_first() =~= Seq::<u8>::empty());
}

} // verus!
