use ambient_light::color::RGBPixel;
use ambient_light::capture::{PixelLayout, SpaVideoFormat};
use ambient_light::crypto::{decode_session_token, encode_session_token, xor_crypt};
use ambient_light::ddp::{DataType, Ddp, DdpConfig, PackageHeader};
use ambient_light::hardware::{
    fill_ambi_data_frame, term_signal_bytes, HardwareEvents, IoErrorKind,
};
use ambient_light::wled_drgb::{DRGBConfig, WledDrgb, WledDrgbConfig, DRGB};

fn px(r: u8, g: u8, b: u8) -> RGBPixel {
    RGBPixel { red: r, green: g, blue: b }
}

#[test]
fn xor_crypt_uses_cycled_key() {
    assert_eq!(xor_crypt(&[0, 0, 0]), vec![82, 111, 98]);
    let data = vec![0u8; 66];
    let out = xor_crypt(&data);
    assert_eq!(out.len(), 66);
    assert_eq!(out[64], b's');
    assert_eq!(out[65], b'R');
    assert_eq!(xor_crypt(&[]), Vec::<u8>::new());
}

#[test]
fn xor_crypt_twice_restores_data() {
    let token = b"restore-token-0123456789-abcdefghijklmnopqrstuvwxyz-ABCDEFGHIJKLMNOP".to_vec();
    assert_eq!(xor_crypt(&xor_crypt(&token)), token);
    assert_ne!(xor_crypt(&token), token);
}

#[test]
fn package_header_defaults_and_bytes() {
    let h = PackageHeader::new();
    assert_eq!(h.flags, 0x40);
    assert_eq!(h.sequence_number, 1);
    assert_eq!(h.data_type, DataType::RGB.code());
    assert_eq!(h.device_id, 1);
    let mut buf = vec![9u8];
    h.write_to_buffer(&mut buf);
    assert_eq!(buf, vec![9, 0x40, 1, 1, 1, 0, 0, 0, 0, 0, 0]);
}

#[test]
fn package_header_big_endian_fields() {
    let mut h = PackageHeader::new();
    h.offset = 0x0102_0304;
    h.data_length = 0xABCD;
    let mut buf = Vec::new();
    h.write_to_buffer(&mut buf);
    assert_eq!(&buf[4..], &[1, 2, 3, 4, 0xAB, 0xCD]);
}

#[test]
fn push_flag_touches_bit_seven_only() {
    let mut h = PackageHeader::new();
    h.set_push_flag(true);
    assert_eq!(h.flags, 0xC0);
    h.set_push_flag(true);
    assert_eq!(h.flags, 0xC0);
    h.set_push_flag(false);
    assert_eq!(h.flags, 0x40);
}

#[test]
fn tick_cycles_through_one_to_fifteen() {
    let mut h = PackageHeader::new();
    let mut seen = Vec::new();
    for _ in 0..16 {
        seen.push(h.sequence_number);
        h.tick();
    }
    assert_eq!(seen, vec![1, 2, 3, 4, 5, 6, 7, 8, 9, 10, 11, 12, 13, 14, 15, 1]);
    h.sequence_number = 200;
    h.tick();
    assert_eq!(h.sequence_number, 6);
}

#[test]
fn data_type_codes() {
    assert_eq!(DataType::Default.code(), 0);
    assert_eq!(DataType::RGB.code(), 1);
    assert_eq!(DataType::RGBW.code(), 2);
    assert_eq!(DataType::HSV.code(), 3);
}

fn ddp_config(mtu: Option<u16>) -> DdpConfig {
    DdpConfig { ip: "10.0.0.2".to_string(), port: None, mtu, timeout: None }
}

#[test]
fn ddp_pixels_per_packet_from_mtu() {
    assert_eq!(Ddp::new(&ddp_config(None)).max_pixels_per_package, 483);
    assert_eq!(Ddp::new(&ddp_config(Some(53))).max_pixels_per_package, 1);
    assert_eq!(Ddp::new(&ddp_config(Some(50))).max_pixels_per_package, 0);
    assert_eq!(Ddp::new(&ddp_config(None)).header, PackageHeader::new());
}

#[test]
fn ddp_frame_split_into_packets() {
    let mut d = Ddp::new(&ddp_config(None));
    d.max_pixels_per_package = 2;
    let colors = vec![px(1, 2, 3), px(4, 5, 6), px(7, 8, 9), px(10, 11, 12), px(13, 14, 15)];
    let packets = d.frame_packets(&colors);
    assert_eq!(packets.len(), 3);
    assert_eq!(packets[0], vec![0x40, 1, 1, 1, 0, 0, 0, 0, 0, 6, 1, 2, 3, 4, 5, 6]);
    assert_eq!(packets[1], vec![0x40, 1, 1, 1, 0, 0, 0, 6, 0, 6, 7, 8, 9, 10, 11, 12]);
    assert_eq!(packets[2], vec![0xC0, 1, 1, 1, 0, 0, 0, 12, 0, 3, 13, 14, 15]);
    assert_eq!(d.header.flags, 0xC0);
    assert_eq!(d.header.offset, 15);
    assert_eq!(d.header.data_length, 3);
    assert_eq!(d.header.sequence_number, 1);
    d.header.tick();
    let again = d.frame_packets(&colors[..1]);
    assert_eq!(again, vec![vec![0xC0, 2, 1, 1, 0, 0, 0, 0, 0, 3, 1, 2, 3]]);
}

#[test]
fn ddp_empty_frame_has_no_packets() {
    let mut d = Ddp::new(&ddp_config(None));
    d.header.set_push_flag(true);
    d.header.offset = 99;
    let packets = d.frame_packets(&[]);
    assert!(packets.is_empty());
    assert_eq!(d.header.flags, 0x40);
    assert_eq!(d.header.offset, 0);
}

#[test]
fn ddp_payloads_reassemble_frame() {
    let mut d = Ddp::new(&ddp_config(None));
    d.max_pixels_per_package = 3;
    let colors: Vec<RGBPixel> = (0..10u8).map(|i| px(i, i + 100, i + 200)).collect();
    let packets = d.frame_packets(&colors);
    assert_eq!(packets.len(), 4);
    let mut joined = Vec::new();
    for (k, p) in packets.iter().enumerate() {
        let offset = u32::from_be_bytes([p[4], p[5], p[6], p[7]]) as usize;
        assert_eq!(offset, joined.len());
        let len = u16::from_be_bytes([p[8], p[9]]) as usize;
        assert_eq!(len, p.len() - 10);
        assert_eq!(p[0] & 0x80 != 0, k == packets.len() - 1);
        joined.extend_from_slice(&p[10..]);
    }
    let expected: Vec<u8> = colors.iter().flat_map(|c| [c.red, c.green, c.blue]).collect();
    assert_eq!(joined, expected);
}

#[test]
fn ambi_data_frame_layout() {
    let mut payload = vec![7, 7, 7, 7, 7, 7, 7, 7];
    fill_ambi_data_frame(&mut payload, &[px(1, 2, 3), px(4, 5, 6)]);
    assert_eq!(payload, vec![b'A', b'D', 1, 2, 3, 4, 5, 6]);
    fill_ambi_data_frame(&mut payload, &[]);
    assert_eq!(payload, b"AD".to_vec());
    assert_eq!(term_signal_bytes(), b"SD".to_vec());
}

#[test]
fn drgb_datagrams() {
    let cfg = WledDrgbConfig { ip: "h".to_string(), port: None, timeout: None, max_fps: None };
    let w = WledDrgb::new(&cfg);
    assert_eq!(w.timeout, 2);
    let mut payload = Vec::new();
    w.fill_payload(&mut payload, &[px(9, 8, 7)]);
    assert_eq!(payload, vec![2, 9, 8, 7]);
    let cfg = WledDrgbConfig { timeout: Some(255), ..cfg };
    let w = WledDrgb::new(&cfg);
    w.fill_payload(&mut payload, &[]);
    assert_eq!(payload, vec![2]);
}

#[test]
fn drgb_frame_rate_limit() {
    let cfg = DRGBConfig { ip: "h".to_string(), port: Some(7), timeout: Some(5), max_fps: None };
    let d = DRGB::new(&cfg);
    assert_eq!(d.timeout, 5);
    assert_eq!(d.wait_nanos, 33_333_333);
    assert!(!d.frame_due(33_333_332));
    assert!(d.frame_due(33_333_333));
    assert_eq!(DRGB::address_text(&cfg), "h:7");
    let d0 = DRGB::new(&DRGBConfig { max_fps: Some(0), ..cfg });
    assert_eq!(d0.wait_nanos, 1_000_000_000);
    let mut payload = Vec::new();
    d0.fill_payload(&mut payload, &[px(1, 1, 1)]);
    assert_eq!(payload, vec![2, 1, 1, 1]);
}

#[test]
fn io_errors_to_events() {
    let msg = || "boom".to_string();
    assert_eq!(HardwareEvents::from_io_error(IoErrorKind::BrokenPipe, msg()), HardwareEvents::Disconnected);
    assert_eq!(HardwareEvents::from_io_error(IoErrorKind::ConnectionReset, msg()), HardwareEvents::Disconnected);
    assert_eq!(HardwareEvents::from_io_error(IoErrorKind::PermissionDenied, msg()), HardwareEvents::NoAccess);
    assert_eq!(HardwareEvents::from_io_error(IoErrorKind::WouldBlock, msg()), HardwareEvents::RetryNeeded);
    assert_eq!(HardwareEvents::from_io_error(IoErrorKind::AddrInUse, msg()), HardwareEvents::RetryNeeded);
    assert_eq!(
        HardwareEvents::from_io_error(IoErrorKind::Other, msg()),
        HardwareEvents::InternalError("boom".to_string())
    );
}

#[test]
fn serial_io_errors_to_events() {
    let msg = || "x".to_string();
    assert_eq!(HardwareEvents::from_serial_io_error(IoErrorKind::NotFound, msg()), HardwareEvents::Disconnected);
    assert_eq!(HardwareEvents::from_serial_io_error(IoErrorKind::PermissionDenied, msg()), HardwareEvents::NoAccess);
    assert_eq!(HardwareEvents::from_serial_io_error(IoErrorKind::TimedOut, msg()), HardwareEvents::RetryNeeded);
    assert_eq!(
        HardwareEvents::from_serial_io_error(IoErrorKind::ConnectionReset, msg()),
        HardwareEvents::InternalError("x".to_string())
    );
    assert_eq!(
        HardwareEvents::from_serial_io_error(IoErrorKind::WouldBlock, msg()),
        HardwareEvents::InternalError("x".to_string())
    );
}

#[test]
fn debug_console_layout() {
    let d = ambient_light::debug_output::Debug::new(3, 2);
    assert_eq!(d.led_width, 3);
    assert_eq!(d.led_height, 2);
    let l = d.layout();
    assert_eq!(l.top, vec![0, 1, 2]);
    assert_eq!(l.sides, vec![(9, 3), (8, 4)]);
    assert_eq!(l.bottom, vec![7, 6, 5]);
    let one = ambient_light::debug_output::Debug::new(1, 1).layout();
    assert_eq!((one.top.clone(), one.sides.clone(), one.bottom.clone()), (vec![0], vec![(3, 1)], vec![2]));
    let empty = ambient_light::debug_output::Debug::new(0, 0).layout();
    assert!(empty.top.is_empty() && empty.sides.is_empty() && empty.bottom.is_empty());
}

#[test]
fn session_token_storage_roundtrip() {
    let stored = encode_session_token(Some("token-Ünïcode-42".to_string()));
    assert_ne!(stored, "token-Ünïcode-42".as_bytes().to_vec());
    assert_eq!(decode_session_token(&stored), Some("token-Ünïcode-42".to_string()));
    assert!(encode_session_token(None).is_empty());
    assert_eq!(decode_session_token(&[]), Some(String::new()));
    let corrupted = xor_crypt(&[0xff, 0xfe]);
    assert_eq!(decode_session_token(&corrupted), None);
}

#[test]
fn pixel_layouts_of_formats() {
    assert_eq!(SpaVideoFormat::RGBx.pixel_layout(), Some(PixelLayout::RGBx));
    assert_eq!(SpaVideoFormat::ABGR.pixel_layout(), Some(PixelLayout::ABGR));
    assert_eq!(SpaVideoFormat::I420.pixel_layout(), None);
    assert_eq!(SpaVideoFormat::RGB.pixel_layout(), None);
}

#[test]
fn ddp_sequence_advances_only_after_whole_frame() {
    let mut d = Ddp::new(&ddp_config(None));
    assert_eq!(d.header.sequence_number, 1);
    d.end_frame(1, 3);
    assert_eq!(d.header.sequence_number, 1);
    d.end_frame(3, 3);
    assert_eq!(d.header.sequence_number, 2);
    d.end_frame(0, 0);
    assert_eq!(d.header.sequence_number, 3);
}
