use nfc_reader::hex::format_serial;

#[test]
fn empty_input_gives_empty_string() {
    assert_eq!(format_serial(&vec![]), "");
}

#[test]
fn mixed_bytes_render_uppercase_two_digit_groups() {
    assert_eq!(format_serial(&vec![0x00, 0xFF, 0x0A]), "00FF0A");
}

#[test]
fn single_bytes_render_with_leading_zero() {
    assert_eq!(format_serial(&vec![0x00]), "00");
    assert_eq!(format_serial(&vec![0x0A]), "0A");
    assert_eq!(format_serial(&vec![0xFF]), "FF");
    assert_eq!(format_serial(&vec![0x7B]), "7B");
}

#[test]
fn output_is_twice_as_long_and_hex_only() {
    let bytes = vec![0x01, 0x23, 0x45, 0x67, 0x89, 0xAB, 0xCD, 0xEF, 0x10, 0x9F];
    let s = format_serial(&bytes);
    assert_eq!(s.len(), 2 * bytes.len());
    assert!(s.chars().all(|c| c.is_ascii_digit() || ('A'..='F').contains(&c)));
}

#[test]
fn distinct_bytes_render_distinctly() {
    assert_ne!(format_serial(&vec![0x01, 0x02]), format_serial(&vec![0x02, 0x01]));
    assert_ne!(format_serial(&vec![0x00, 0x00]), format_serial(&vec![0x00, 0x01]));
}
