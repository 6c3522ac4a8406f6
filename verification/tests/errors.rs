use pcap_core::{c_str_bytes, c_string, find_nul, is_c_text, ErrBuf, Error};

fn buffer_with(message: &[u8]) -> ErrBuf {
    let mut bytes = vec![0u8; 256];
    bytes[..message.len()].copy_from_slice(message);
    ErrBuf::from_bytes(bytes)
}

#[test]
fn find_nul_gives_the_first_zero_byte() {
    assert_eq!(find_nul(b"abc\0def\0"), Some(3));
    assert_eq!(find_nul(b"\0"), Some(0));
    assert_eq!(find_nul(b"abc"), None);
    assert_eq!(find_nul(b""), None);
}

#[test]
fn c_str_bytes_stops_before_the_first_zero_byte() {
    assert_eq!(c_str_bytes(b"eth0\0junk"), Some(&b"eth0"[..]));
    assert_eq!(c_str_bytes(b"\0"), Some(&b""[..]));
    assert_eq!(c_str_bytes(b"no end"), None);
}

#[test]
fn fresh_error_buffer_is_256_zero_bytes() {
    let buf = ErrBuf::new();
    assert_eq!(buf.as_bytes().len(), 256);
    assert!(buf.as_bytes().iter().all(|b| *b == 0));
    assert_eq!(buf.read(), Some(String::new()));
}

#[test]
fn error_buffer_reads_up_to_the_terminator() {
    let buf = buffer_with(b"eth9: No such device exists");
    assert_eq!(buf.read(), Some(String::from("eth9: No such device exists")));
}

#[test]
fn error_buffer_without_terminator_holds_no_message() {
    let buf = ErrBuf::from_bytes(vec![b'x'; 256]);
    assert_eq!(buf.read(), None);
    let empty = ErrBuf::from_bytes(Vec::new());
    assert_eq!(empty.read(), None);
}

#[test]
fn error_buffer_with_invalid_text_is_decoded_lossily() {
    let buf = buffer_with(&[b'a', 0xff, b'b']);
    assert_eq!(buf.read(), Some(String::from("a\u{fffd}b")));
}

#[test]
fn error_new_keeps_code_and_message() {
    let e = Error::new(buffer_with(b"permission denied"), -8);
    assert_eq!(e.code(), -8);
    assert_eq!(e.message(), Some("permission denied"));
}

#[test]
fn error_new_without_message_still_has_its_code() {
    let e = Error::new(ErrBuf::from_bytes(vec![1u8; 256]), 7);
    assert_eq!(e.code(), 7);
    assert_eq!(e.message(), None);
}

#[test]
fn error_from_last_decodes_the_message() {
    let e = Error::from_last(Some(&b"syntax error"[..]), -1);
    assert_eq!(e.code(), -1);
    assert_eq!(e.message(), Some("syntax error"));
    let lossy = Error::from_last(Some(&[0xc3, 0x28][..]), -1);
    assert_eq!(lossy.message(), Some("\u{fffd}("));
    let none = Error::from_last(None, -3);
    assert_eq!(none.code(), -3);
    assert_eq!(none.message(), None);
}

#[test]
fn error_check_is_ok_only_for_zero() {
    assert!(Error::check(Some(&b"ignored"[..]), 0).is_ok());
    let e = Error::check(Some(&b"not activated"[..]), -3).unwrap_err();
    assert_eq!(e.code(), -3);
    assert_eq!(e.message(), Some("not activated"));
    let w = Error::check(None, 2).unwrap_err();
    assert_eq!(w.code(), 2);
    assert_eq!(w.message(), None);
}

#[test]
fn error_text_has_code_then_message() {
    let e = Error::from_last(Some(&b"boom"[..]), 1);
    assert_eq!(e.to_string(), "pcap error 1: boom");
    let bare = Error::from_last(None, -11);
    assert_eq!(bare.to_string(), "pcap error -11");
    let zero = Error::from_last(None, 0);
    assert_eq!(zero.to_string(), "pcap error 0");
}

#[test]
fn error_text_at_the_ends_of_the_code_range() {
    assert_eq!(Error::from_last(None, i32::MAX).to_string(), "pcap error 2147483647");
    assert_eq!(Error::from_last(None, i32::MIN).to_string(), "pcap error -2147483648");
    assert_eq!(Error::from_last(None, 10).to_string(), "pcap error 10");
    assert_eq!(Error::from_last(None, -100).to_string(), "pcap error -100");
}

#[test]
fn text_without_zero_bytes_has_a_c_string() {
    assert!(is_c_text("eth0"));
    assert!(is_c_text(""));
    assert!(is_c_text("tcp port 80 and host \u{e9}"));
    assert!(!is_c_text("eth\00"));
    assert!(!is_c_text("\0"));
}

#[test]
fn c_string_is_the_text_and_a_terminator() {
    assert_eq!(c_string("eth0"), b"eth0\0".to_vec());
    assert_eq!(c_string(""), vec![0u8]);
    assert_eq!(c_string("\u{e9}"), vec![0xc3, 0xa9, 0]);
    assert_eq!(c_str_bytes(&c_string("ip6 or arp")), Some(&b"ip6 or arp"[..]));
}

#[test]
fn well_formed_text_is_read_as_it_is() {
    let mut bytes = vec![0u8; 256];
    bytes[..3].copy_from_slice(b"abc");
    assert_eq!(ErrBuf::from_bytes(bytes).read(), Some(String::from("abc")));
    let text = "gr\u{fc}\u{df}e: \u{65e5}\u{672c}";
    let e = Error::from_last(Some(text.as_bytes()), -1);
    assert_eq!(e.message(), Some(text));
}
