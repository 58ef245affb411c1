use laundry_pos::pdf::render_receipt_pdf;
use laundry_pos::receipt::{ReceiptData, ReceiptItem, StoreProfile};
use laundry_pos::text::format_receipt_text;

fn sample_doc() -> ReceiptData {
    ReceiptData {
        order_number: String::from("ORD-001"),
        date: String::from("2024-01-15"),
        customer_name: String::from("Budi"),
        items: vec![ReceiptItem {
            service: String::from("Wash & Fold"),
            weight_tenths: 35,
            price: 15000,
            subtotal: 52500,
        }],
        total: 52500,
        estimated_completion: String::from("2024-01-16"),
    }
}

#[test]
fn pdf_has_file_frame() {
    let profile = StoreProfile::default();
    let out = render_receipt_pdf(&profile, &sample_doc());
    assert!(out.starts_with("%PDF-1.4\n"));
    assert!(out.ends_with("%%EOF\n"));
    assert!(out.contains("/BaseFont /Helvetica"));
    assert!(out.contains("/BaseFont /Helvetica-Bold"));
    assert!(out.contains("/MediaBox [0 0 227 567]"));
    assert!(out.is_ascii());
}

#[test]
fn pdf_xref_offsets_match_objects() {
    let profile = StoreProfile::default();
    let out = render_receipt_pdf(&profile, &sample_doc());
    // Each object really starts at the offset its xref entry records.
    for (obj, off) in [(1, 9), (2, 58), (3, 115), (4, 251), (5, 321), (6, 396)] {
        let head = format!("{} 0 obj\n", obj);
        assert_eq!(&out[off..off + head.len()], head, "object {}", obj);
        let entry = format!("{:010} 00000 n \n", off);
        assert!(out.contains(&entry), "xref entry for object {}", obj);
    }
    // startxref points at the xref table.
    let tail = out.rsplit_once("startxref\n").unwrap().1;
    let startxref: usize = tail.trim_end_matches("\n%%EOF\n").parse().unwrap();
    assert_eq!(&out[startxref..startxref + 5], "xref\n");
}

#[test]
fn pdf_stream_length_is_exact() {
    let profile = StoreProfile::default();
    let out = render_receipt_pdf(&profile, &sample_doc());
    let (before, after) = out.split_once(" >>\nstream\n").unwrap();
    let len: usize = before.rsplit_once("/Length ").unwrap().1.parse().unwrap();
    let stream = after.split_once("\nendstream").unwrap().0;
    assert_eq!(stream.len(), len);
}

#[test]
fn pdf_escapes_string_delimiters() {
    let profile = StoreProfile::default();
    let mut doc = sample_doc();
    doc.customer_name = String::from("Budi (cash)");
    let out = render_receipt_pdf(&profile, &doc);
    assert!(out.contains("(Customer: Budi \\(cash\\)) Tj"));
}

#[test]
fn pdf_replaces_unprintable_characters() {
    let profile = StoreProfile::default();
    let mut doc = sample_doc();
    doc.customer_name = String::from("Budi\u{7}\u{263a}");
    let out = render_receipt_pdf(&profile, &doc);
    assert!(out.contains("(Customer: Budi??) Tj"));
    assert!(out.is_ascii());
}

#[test]
fn text_and_pdf_show_same_fields() {
    let profile = StoreProfile::default();
    let doc = sample_doc();
    let text = format_receipt_text(&profile, &doc);
    let pdf = render_receipt_pdf(&profile, &doc);
    for field in ["ORD-001", "Budi", "TOTAL: Rp 52.500"] {
        assert!(text.contains(field), "text misses {}", field);
        assert!(pdf.contains(field), "pdf misses {}", field);
    }
}

#[test]
fn pdf_zero_items_keeps_total_and_footer() {
    let profile = StoreProfile::default();
    let mut doc = sample_doc();
    doc.items = vec![];
    doc.total = 0;
    let out = render_receipt_pdf(&profile, &doc);
    // With no item blocks the total block starts right under the details.
    assert!(out.contains("20 452 m 207 452 l S"));
    assert!(out.contains("BT /F2 10 Tf 20 436 Td (TOTAL: Rp 0) Tj ET"));
    assert!(out.contains("(Terima kasih atas kepercayaan Anda!) Tj"));
    assert!(!out.contains("kg x"));
}

#[test]
fn pdf_many_items_overflow_page_bottom() {
    let profile = StoreProfile::default();
    let mut doc = sample_doc();
    doc.items = (0..20)
        .map(|k| ReceiptItem {
            service: format!("Service {}", k),
            weight_tenths: 10,
            price: 1000,
            subtotal: 1000,
        })
        .collect();
    doc.total = 20000;
    let out = render_receipt_pdf(&profile, &doc);
    // The cursor runs off the page bottom: coordinates go negative, the
    // content is still produced in full.
    assert!(out.contains("BT /F1 8 Tf 20 -118 Td (Service 19) Tj ET"));
    assert!(out.contains("20 -148 m 207 -148 l S"));
    assert!(out.contains("(TOTAL: Rp 20.000) Tj"));
    assert!(out.ends_with("%%EOF\n"));
}

#[test]
fn pdf_draws_items_and_rules() {
    let profile = StoreProfile::default();
    let out = render_receipt_pdf(&profile, &sample_doc());
    assert!(out.contains("(Wash & Fold) Tj"));
    assert!(out.contains("(3.5kg x 15.000 = Rp 52.500) Tj"));
    // Bold face for the store name and the total, regular for items.
    assert!(out.contains("BT /F2 10 Tf 20 540 Td (MONIC LAUNDRY) Tj ET"));
    assert!(out.contains("/F2 10 Tf 20 406 Td (TOTAL: Rp 52.500) Tj ET"));
    assert!(out.contains("BT /F1 8 Tf 20 452 Td (Wash & Fold) Tj ET"));
    // Section rules.
    assert!(out.contains("20 508 m 207 508 l S"));
    assert!(out.contains("20 464 m 207 464 l S"));
    assert!(out.contains("20 422 m 207 422 l S"));
}
