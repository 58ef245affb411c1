use laundry_pos::naming::{receipt_file_name, sanitize_order_number, ReceiptFormat};

#[test]
fn sanitize_keeps_safe_characters() {
    assert_eq!(sanitize_order_number("ORD-001"), "ORD-001");
    assert_eq!(sanitize_order_number("abc_XYZ-09"), "abc_XYZ-09");
}

#[test]
fn sanitize_replaces_path_separators() {
    assert_eq!(sanitize_order_number("A/1"), "A_1");
    assert_eq!(sanitize_order_number("..\\..\\x"), "______x");
    assert_eq!(sanitize_order_number("a/../b"), "a____b");
}

#[test]
fn sanitize_replaces_other_unsafe_characters() {
    assert_eq!(sanitize_order_number("a b:c*d?"), "a_b_c_d_");
    assert_eq!(sanitize_order_number(""), "");
}

#[test]
fn file_name_carries_format_extension() {
    assert_eq!(receipt_file_name("ORD-001", ReceiptFormat::Text), "receipt_ORD-001.txt");
    assert_eq!(receipt_file_name("ORD-001", ReceiptFormat::Pdf), "receipt_ORD-001.pdf");
}

#[test]
fn file_name_cannot_escape_directory() {
    let name = receipt_file_name("../../etc/passwd", ReceiptFormat::Text);
    assert_eq!(name, "receipt_______etc_passwd.txt");
    assert!(!name.contains('/'));
    assert!(!name.contains('\\'));
}
