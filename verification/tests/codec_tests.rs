use hacam::codec::{
    build_header, is_status_trailer, push_be_u32, push_le_u32, read_le_u16, read_le_u32,
};
use hacam::commands::get_camera_status_command;
use hacam::protocol::unchecked_read_request;

#[test]
fn header_layout_full_opcode() {
    let opcode = get_camera_status_command();
    let h = build_header(&opcode, 65536, true, 0x01020304);
    assert_eq!(h.len(), 31);
    assert_eq!(&h[0..4], b"USBC");
    assert_eq!(&h[4..8], &[1, 2, 3, 4]);
    assert_eq!(&h[8..12], &65536u32.to_le_bytes());
    assert_eq!(h[12], 128);
    assert_eq!(h[13], 0);
    assert_eq!(h[14], 16);
    assert_eq!(&h[15..31], opcode.as_slice());
}

#[test]
fn header_pads_short_opcode_and_marks_writes() {
    let h = build_header(&[122u8, 3, 255], 64, false, 0);
    assert_eq!(h.len(), 31);
    assert_eq!(&h[0..4], b"USBC");
    assert_eq!(&h[4..8], &[0, 0, 0, 0]);
    assert_eq!(&h[8..12], &64u32.to_le_bytes());
    assert_eq!(h[12], 0);
    assert_eq!(h[14], 16);
    assert_eq!(&h[15..18], &[122, 3, 255]);
    assert_eq!(&h[18..31], &[0u8; 13]);
}

#[test]
fn byte_order_helpers() {
    let mut buf = vec![0xEEu8];
    push_be_u32(&mut buf, 0x0A0B0C0D);
    push_le_u32(&mut buf, 0x0A0B0C0D);
    assert_eq!(buf, vec![0xEE, 0x0A, 0x0B, 0x0C, 0x0D, 0x0D, 0x0C, 0x0B, 0x0A]);
    assert_eq!(read_le_u32(&buf, 5), 0x0A0B0C0D);
    assert_eq!(read_le_u16(&buf, 5), 0x0C0D);
}

#[test]
fn unchecked_read_header_announces_default_size() {
    let opcode = get_camera_status_command();
    let (h, check) = unchecked_read_request(&opcode);
    assert_eq!(h.len(), 31);
    assert_eq!(&h[0..4], b"USBC");
    assert_eq!(&h[4..8], &check.to_be_bytes());
    assert_eq!(&h[8..12], &65536u32.to_le_bytes());
    assert_eq!(h[12], 128);
    assert_eq!(&h[15..31], opcode.as_slice());
}

#[test]
fn trailer_rejects_short_buffers() {
    let mut buf: Vec<u8> = b"USBS".to_vec();
    buf.extend_from_slice(&[0u8; 8]);
    for len in 0..buf.len() + 1 {
        assert!(!is_status_trailer(&buf[..len], 0), "length {len}");
    }
}

#[test]
fn trailer_detects_magic_and_correlation() {
    let check: u32 = 0xAABBCCDD;
    let mut buf: Vec<u8> = vec![9, 9, 9];
    buf.extend_from_slice(b"USBS");
    buf.extend_from_slice(&check.to_be_bytes());
    buf.extend_from_slice(&[0u8; 5]);
    assert!(is_status_trailer(&buf, check));
    assert!(!is_status_trailer(&buf, 7));
    // A zero correlation value disables the correlation comparison.
    assert!(is_status_trailer(&buf, 0));
    let mut bad_magic = buf.clone();
    bad_magic[3] = b'X';
    assert!(!is_status_trailer(&bad_magic, check));
    assert!(!is_status_trailer(&bad_magic, 0));
}

#[test]
fn trailer_window_is_the_last_13_bytes() {
    let check: u32 = 5;
    let mut buf: Vec<u8> = b"USBS".to_vec();
    buf.extend_from_slice(&check.to_be_bytes());
    buf.extend_from_slice(&[0u8; 5]);
    assert!(is_status_trailer(&buf, check));
    // One more byte shifts the window off the magic.
    buf.push(0);
    assert!(!is_status_trailer(&buf, check));
}
