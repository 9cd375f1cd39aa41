use service_status::status::ServiceDetails;
use service_status::text::{field_text, narrow_text, text_end};

#[test]
fn text_ends_at_the_first_zero_byte() {
    assert_eq!(text_end(b"sshd\0\0\0"), 4);
    assert_eq!(text_end(b"\0sshd"), 0);
    assert_eq!(text_end(b"sshd"), 4);
    assert_eq!(text_end(b""), 0);
    assert_eq!(text_end(b"a\0b\0"), 1);
}

#[test]
fn field_text_stops_at_the_first_zero_byte() {
    assert_eq!(field_text(b"sshd\0garbage\0"), "sshd");
    assert_eq!(field_text(b"OpenSSH server\0"), "OpenSSH server");
}

#[test]
fn field_without_a_zero_byte_is_read_whole() {
    assert_eq!(field_text(b"sshd"), "sshd");
}

#[test]
fn empty_field_is_empty_text() {
    assert_eq!(field_text(b""), "");
    assert_eq!(field_text(b"\0"), "");
    assert_eq!(field_text(&[0u8; 256]), "");
}

#[test]
fn field_text_decodes_utf8() {
    assert_eq!(field_text("Dienst-ä 服务\0".as_bytes()), "Dienst-ä 服务");
}

#[test]
fn bytes_that_are_not_utf8_are_replaced() {
    assert_eq!(field_text(&[b'a', 0xff, b'b', 0]), "a\u{fffd}b");
    assert_eq!(field_text(&[0xc3, 0]), "\u{fffd}");
}

#[test]
fn narrow_text_keeps_the_low_byte_of_each_unit() {
    assert_eq!(narrow_text(&[0x73, 0x73, 0x68, 0x64, 0, 0x41]), "sshd");
    assert_eq!(narrow_text(&[0x41, 0x42]), "AB");
    assert_eq!(narrow_text(&[]), "");
    assert_eq!(narrow_text(&[0, 0x41]), "");
    assert_eq!(narrow_text(&[0xe9, 0x1e9, 0x100, 0x141]), "\u{e9}\u{e9}\u{0}A");
}

#[test]
fn details_are_read_field_by_field() {
    let mut name = [0u8; 256];
    name[..4].copy_from_slice(b"sshd");
    let mut path = [0u8; 1024];
    path[..14].copy_from_slice(b"/usr/sbin/sshd");
    let details = ServiceDetails::from_fields(
        &name,
        b"OpenSSH\0",
        &path,
        &[0u8; 4192],
        b"notify\0",
        b"root\0",
    );
    assert_eq!(
        details,
        ServiceDetails {
            service_name: "sshd".to_string(),
            service_display_name: "OpenSSH".to_string(),
            executable_path: "/usr/sbin/sshd".to_string(),
            description: String::new(),
            service_type: "notify".to_string(),
            service_account: "root".to_string(),
        }
    );
}
