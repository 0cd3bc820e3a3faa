use usbip_jiggler::hid::{configuration_descriptor, device_descriptor, report_descriptor};
use usbip_jiggler::usbip::handler::handle_control;
use usbip_jiggler::usbip::{
    CmdSubmit, CmdUnlink, RetSubmit, RetUnlink, BUSID, NUMBER_OF_PACKETS_NON_ISOCH,
    USBIP_RET_SUBMIT, USBIP_RET_UNLINK, USBIP_VERSION,
};
use usbip_jiggler::wire::WireError;

fn submit_body(seqnum: u32, direction: u32, ep: u32, tbl: i32, setup: [u8; 8]) -> Vec<u8> {
    let mut b = Vec::new();
    for v in [seqnum, 0x0001_0002, direction, ep, 0] {
        b.extend_from_slice(&v.to_be_bytes());
    }
    b.extend_from_slice(&tbl.to_be_bytes());
    for v in [0i32, -1, 10] {
        b.extend_from_slice(&v.to_be_bytes());
    }
    b.extend_from_slice(&setup);
    b
}

fn submit(setup: [u8; 8]) -> CmdSubmit {
    CmdSubmit { seqnum: 1, devid: 2, direction: 1, ep: 0, transfer_buffer_length: 255, setup }
}

#[test]
fn constants() {
    assert_eq!(USBIP_VERSION, 0x0111);
    assert_eq!(BUSID, "1-1");
    assert_eq!(NUMBER_OF_PACKETS_NON_ISOCH, -1);
}

#[test]
fn cmd_submit_reads_fields() {
    let body = submit_body(0x0102_0304, 1, 1, -5, [0x80, 6, 0, 1, 0, 0, 0x12, 0]);
    assert_eq!(body.len(), 44);
    let c = CmdSubmit::read_from(&body).unwrap();
    assert_eq!(c.seqnum, 0x0102_0304);
    assert_eq!(c.devid, 0x0001_0002);
    assert_eq!(c.direction, 1);
    assert_eq!(c.ep, 1);
    assert_eq!(c.transfer_buffer_length, -5);
    assert_eq!(c.setup, [0x80, 6, 0, 1, 0, 0, 0x12, 0]);
}

#[test]
fn cmd_submit_too_short() {
    let body = submit_body(1, 1, 1, 0, [0; 8]);
    assert_eq!(CmdSubmit::read_from(&body[..43]).unwrap_err(), WireError::UnexpectedEof);
    assert!(CmdSubmit::read_from(&[]).is_err());
}

#[test]
fn cmd_unlink_reads_fields_and_needs_padding() {
    let mut body = Vec::new();
    for v in [7u32, 0x10002, 0, 1, 5] {
        body.extend_from_slice(&v.to_be_bytes());
    }
    assert_eq!(CmdUnlink::read_from(&body).unwrap_err(), WireError::UnexpectedEof);
    body.extend_from_slice(&[0u8; 24]);
    let u = CmdUnlink::read_from(&body).unwrap();
    assert_eq!((u.seqnum, u.devid, u.direction, u.ep, u.unlink_seqnum), (7, 0x10002, 0, 1, 5));
}

#[test]
fn ret_submit_is_48_bytes() {
    let r = RetSubmit {
        seqnum: 9,
        devid: 0x10002,
        direction: 1,
        ep: 1,
        status: -32,
        actual_length: 4,
        start_frame: 0,
        number_of_packets: -1,
        error_count: 0,
    };
    let mut out = vec![0xee];
    r.write_to(&mut out);
    assert_eq!(out.len(), 49);
    let h = &out[1..];
    assert_eq!(&h[0..4], &USBIP_RET_SUBMIT.to_be_bytes());
    assert_eq!(&h[4..8], &9u32.to_be_bytes());
    assert_eq!(&h[8..12], &0x10002u32.to_be_bytes());
    assert_eq!(&h[20..24], &(-32i32).to_be_bytes());
    assert_eq!(&h[24..28], &4i32.to_be_bytes());
    assert_eq!(&h[32..36], &[0xff; 4]);
    assert_eq!(&h[40..48], &[0u8; 8]);
}

#[test]
fn ret_unlink_is_48_bytes() {
    let r = RetUnlink { seqnum: 3, devid: 4, direction: 0, ep: 1, status: 0 };
    let mut out = Vec::new();
    r.write_to(&mut out);
    assert_eq!(out.len(), 48);
    assert_eq!(&out[0..4], &USBIP_RET_UNLINK.to_be_bytes());
    assert_eq!(&out[4..8], &3u32.to_be_bytes());
    assert_eq!(&out[24..], &[0u8; 24]);
}

#[test]
fn control_get_device_descriptor() {
    let (d, st) = handle_control(&submit([0x80, 0x06, 0x00, 0x01, 0, 0, 0x40, 0]));
    assert_eq!(st, 0);
    assert_eq!(d, device_descriptor());
    let (d, _) = handle_control(&submit([0x80, 0x06, 0x00, 0x01, 0, 0, 0x08, 0]));
    assert_eq!(d, device_descriptor()[..8].to_vec());
}

#[test]
fn control_get_configuration_descriptor() {
    let (d, st) = handle_control(&submit([0x80, 0x06, 0x00, 0x02, 0, 0, 0xff, 0]));
    assert_eq!(st, 0);
    assert_eq!(d, configuration_descriptor());
    let (d, _) = handle_control(&submit([0x80, 0x06, 0x00, 0x02, 0, 0, 9, 0]));
    assert_eq!(d.len(), 9);
}

#[test]
fn control_get_string_descriptors() {
    let (d, _) = handle_control(&submit([0x80, 0x06, 0x00, 0x03, 0x09, 0x04, 0xff, 0]));
    assert_eq!(d, vec![4, 3, 9, 4]);
    let (d, _) = handle_control(&submit([0x80, 0x06, 0x01, 0x03, 0x09, 0x04, 0xff, 0]));
    assert_eq!(d, vec![10, 3, b'R', 0, b'u', 0, b's', 0, b't', 0]);
    let (d, _) = handle_control(&submit([0x80, 0x06, 0x02, 0x03, 0x09, 0x04, 0xff, 0]));
    assert_eq!(d.len(), 28);
    assert_eq!(&d[2..6], &[b'M', 0, b'o', 0]);
    let (d, st) = handle_control(&submit([0x80, 0x06, 0x03, 0x03, 0x09, 0x04, 0xff, 0]));
    assert!(d.is_empty());
    assert_eq!(st, 0);
}

#[test]
fn control_get_report_descriptor() {
    let (d, st) = handle_control(&submit([0x81, 0x06, 0x00, 0x22, 0, 0, 0x74, 0]));
    assert_eq!(st, 0);
    assert_eq!(d, report_descriptor());
    let (d, _) = handle_control(&submit([0x81, 0x06, 0x00, 0x22, 0, 0, 10, 0]));
    assert_eq!(d, report_descriptor()[..10].to_vec());
    let (d, _) = handle_control(&submit([0x81, 0x06, 0x00, 0x21, 0, 0, 0xff, 0]));
    assert!(d.is_empty());
}

#[test]
fn control_unknown_requests_get_no_data_and_status_zero() {
    for setup in [
        [0x00, 0x09, 0x01, 0x00, 0, 0, 0, 0],
        [0x21, 0x0a, 0x00, 0x00, 0, 0, 0, 0],
        [0x80, 0x06, 0x00, 0x06, 0, 0, 0x0a, 0],
        [0x80, 0x00, 0x00, 0x00, 0, 0, 2, 0],
    ] {
        let (d, st) = handle_control(&submit(setup));
        assert!(d.is_empty());
        assert_eq!(st, 0);
    }
}

#[test]
fn control_zero_w_length_gives_no_data() {
    let (d, _) = handle_control(&submit([0x80, 0x06, 0x00, 0x01, 0, 0, 0, 0]));
    assert!(d.is_empty());
}
