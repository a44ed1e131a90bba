use msp_fw::uart::{dec, dec32, dec_i16, fixed2, getc, hex16, hex8, push_dec, push_str, puts, rx_ready};

fn text(v: Vec<u8>) -> String {
    String::from_utf8(v).unwrap()
}

#[test]
fn line_feeds_go_out_as_crlf() {
    assert_eq!(puts(b"ok\n"), b"ok\r\n".to_vec());
    assert_eq!(puts(b"a\nb\n"), b"a\r\nb\r\n".to_vec());
    assert_eq!(puts(b""), Vec::<u8>::new());
    assert_eq!(puts(b"\r"), b"\r".to_vec());
}

#[test]
fn hex_is_upper_case_and_padded() {
    assert_eq!(text(hex8(0x00)), "00");
    assert_eq!(text(hex8(0x3C)), "3C");
    assert_eq!(text(hex8(0xAB)), "AB");
    assert_eq!(text(hex16(0x832A)), "832A");
    assert_eq!(text(hex16(0x000F)), "000F");
}

#[test]
fn decimals_have_no_leading_zeros() {
    assert_eq!(text(dec(0)), "0");
    assert_eq!(text(dec(7)), "7");
    assert_eq!(text(dec(65535)), "65535");
    assert_eq!(text(dec32(1_000_000)), "1000000");
    assert_eq!(text(dec32(u32::MAX)), "4294967295");
}

#[test]
fn signed_decimals() {
    assert_eq!(text(dec_i16(-1024)), "-1024");
    assert_eq!(text(dec_i16(0)), "0");
    assert_eq!(text(dec_i16(i16::MAX)), "32767");
    assert_eq!(text(dec_i16(i16::MIN)), "-32768");
}

#[test]
fn fixed_point_hundredths() {
    assert_eq!(text(fixed2(-1234)), "-12.34");
    assert_eq!(text(fixed2(2336)), "23.36");
    assert_eq!(text(fixed2(5)), "0.05");
    assert_eq!(text(fixed2(0)), "0.00");
    assert_eq!(text(fixed2(10000)), "100.00");
}

#[test]
fn appending_text_and_numbers() {
    let mut v = b"T=".to_vec();
    push_dec(&mut v, 42);
    push_str(&mut v, "s");
    assert_eq!(text(v), "T=42s");
}

#[test]
fn receive_flag_and_byte() {
    assert!(rx_ready(0x0001));
    assert!(!rx_ready(0x0002));
    assert_eq!(getc(0x0141), 0x41);
}
