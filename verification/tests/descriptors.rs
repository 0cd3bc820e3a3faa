use usbip_jiggler::hid::{
    configuration_descriptor, device_descriptor, report_descriptor, string_descriptor,
    string_descriptor_0,
};

#[test]
fn device_descriptor_bytes() {
    let d = device_descriptor();
    assert_eq!(d.len(), 18);
    assert_eq!(d[0] as usize, d.len());
    assert_eq!(d[1], 0x01);
    assert_eq!(u16::from_le_bytes([d[2], d[3]]), 0x0200);
    assert_eq!(u16::from_le_bytes([d[8], d[9]]), 0x0627);
    assert_eq!(u16::from_le_bytes([d[10], d[11]]), 0x0001);
    assert_eq!((d[14], d[15], d[16], d[17]), (1, 2, 0, 1));
}

#[test]
fn report_descriptor_is_a_three_axis_mouse() {
    let r = report_descriptor();
    assert_eq!(r.len(), 52);
    assert_eq!(&r[..6], &[0x05, 0x01, 0x09, 0x02, 0xA1, 0x01]);
    assert_eq!(&r[r.len() - 2..], &[0xC0, 0xC0]);
}

#[test]
fn configuration_descriptor_lengths_agree() {
    let c = configuration_descriptor();
    assert_eq!(c.len(), 34);
    assert_eq!(u16::from_le_bytes([c[2], c[3]]) as usize, c.len());
    assert_eq!(u16::from_le_bytes([c[25], c[26]]) as usize, report_descriptor().len());
    assert_eq!(c[25], 0x34);
    // interface: HID, boot subclass, mouse protocol
    assert_eq!((c[14], c[15], c[16]), (0x03, 0x01, 0x02));
    // endpoint 0x81, interrupt, 4 bytes, 10 ms
    assert_eq!(&c[27..], &[0x07, 0x05, 0x81, 0x03, 0x04, 0x00, 0x0A]);
}

#[test]
fn string_descriptor_zero_is_english() {
    assert_eq!(string_descriptor_0(), vec![0x04, 0x03, 0x09, 0x04]);
}

#[test]
fn string_descriptor_of_ascii() {
    assert_eq!(string_descriptor("Rust"), vec![10, 3, b'R', 0, b'u', 0, b's', 0, b't', 0]);
    assert_eq!(string_descriptor(""), vec![2, 3]);
    let d = string_descriptor("Mouse Jiggler");
    assert_eq!(d.len(), 28);
    assert_eq!(d[0], 28);
}

#[test]
fn string_descriptor_matches_std_utf16() {
    for s in ["Rust", "héllo", "日本語", "a😀b", "\u{ffff}\u{10000}\u{10ffff}"] {
        let expected: Vec<u8> = s.encode_utf16().flat_map(|c| c.to_le_bytes()).collect();
        let d = string_descriptor(s);
        assert_eq!(d[0], ((2 + expected.len()) % 256) as u8);
        assert_eq!(d[1], 3);
        assert_eq!(&d[2..], &expected[..]);
    }
    assert_eq!(string_descriptor("😀"), vec![6, 3, 0x3d, 0xd8, 0x00, 0xde]);
}

#[test]
fn string_descriptor_length_byte_wraps() {
    let s = "x".repeat(200);
    let d = string_descriptor(&s);
    assert_eq!(d.len(), 402);
    assert_eq!(d[0], (402 % 256) as u8);
}
