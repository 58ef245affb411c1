use laundry_pos::receipt::{ReceiptData, ReceiptItem, StoreProfile};
use laundry_pos::text::format_receipt_text;

fn sample_doc() -> ReceiptData {
    ReceiptData {
        order_number: String::from("ORD-001"),
        date: String::from("2024-01-15"),
        customer_name: String::from("Budi"),
        items: vec![ReceiptItem {
            service: String::from("Wash & Fold"),
            weight_tenths: 35,
            price: 15000,
            subtotal: 52500,
        }],
        total: 52500,
        estimated_completion: String::from("2024-01-16"),
    }
}

#[test]
fn scenario_single_item_receipt() {
    let profile = StoreProfile::default();
    let out = format_receipt_text(&profile, &sample_doc());
    assert!(out.contains("3.5kg x 15.000 = Rp 52.500"));
    assert!(out.contains("TOTAL: Rp 52.500"));
    assert!(out.contains("No. Order    : ORD-001"));
    assert!(out.contains("Tanggal      : 2024-01-15"));
    assert!(out.contains("Customer     : Budi"));
    assert!(out.contains("Barang siap: 2024-01-16"));
}

#[test]
fn full_text_layout() {
    let profile = StoreProfile::default();
    let out = format_receipt_text(&profile, &sample_doc());
    let expected = "========================================\n              MONIC LAUNDRY             \n           Jl. Laundry No. 123          \n           Telp: 021-12345678           \n========================================\n\nNo. Order    : ORD-001\nTanggal      : 2024-01-15\nCustomer     : Budi\n----------------------------------------\nWash & Fold\n3.5kg x 15.000 = Rp 52.500\n\n========================================\nTOTAL: Rp 52.500\n========================================\n\nTerima kasih atas kepercayaan Anda!\nBarang siap: 2024-01-16\n";
    assert_eq!(out, expected);
}

#[test]
fn empty_items_has_sections_and_one_total_line() {
    let profile = StoreProfile::default();
    let mut doc = sample_doc();
    doc.items = vec![];
    doc.total = 0;
    let out = format_receipt_text(&profile, &doc);
    // Header, details and footer survive; no item block appears.
    assert!(out.contains("MONIC LAUNDRY"));
    assert!(out.contains("No. Order    : ORD-001"));
    assert!(out.contains("Barang siap: 2024-01-16"));
    assert!(!out.contains("kg x"));
    // The total line appears exactly once.
    let total_lines = out.lines().filter(|l| l.starts_with("TOTAL: Rp ")).count();
    assert_eq!(total_lines, 1);
    assert_eq!(out.lines().count(), 16);
}

#[test]
fn items_render_in_input_order() {
    let profile = StoreProfile::default();
    let mut doc = sample_doc();
    doc.items = vec![
        ReceiptItem {
            service: String::from("Cuci Kering"),
            weight_tenths: 20,
            price: 8000,
            subtotal: 16000,
        },
        ReceiptItem {
            service: String::from("Setrika"),
            weight_tenths: 15,
            price: 6000,
            subtotal: 9000,
        },
        ReceiptItem {
            service: String::from("Cuci Komplit"),
            weight_tenths: 40,
            price: 10000,
            subtotal: 40000,
        },
    ];
    doc.total = 65000;
    let out = format_receipt_text(&profile, &doc);
    let lines: Vec<&str> = out.lines().collect();
    // Item blocks start at line 10 and take three lines each.
    assert_eq!(lines[10], "Cuci Kering");
    assert_eq!(lines[11], "2kg x 8.000 = Rp 16.000");
    assert_eq!(lines[13], "Setrika");
    assert_eq!(lines[14], "1.5kg x 6.000 = Rp 9.000");
    assert_eq!(lines[16], "Cuci Komplit");
    assert_eq!(lines[17], "4kg x 10.000 = Rp 40.000");
    assert_eq!(lines.len(), 16 + 3 * 3);
    // Service names appear in input order.
    let pos1 = out.find("Cuci Kering").unwrap();
    let pos2 = out.find("Setrika").unwrap();
    let pos3 = out.find("Cuci Komplit").unwrap();
    assert!(pos1 < pos2 && pos2 < pos3);
}

#[test]
fn wide_profile_lines_kept_verbatim() {
    let profile = StoreProfile {
        name: "X".repeat(45),
        address: String::from("A"),
        phone: String::from("P"),
    };
    let out = format_receipt_text(&profile, &sample_doc());
    assert!(out.contains(&"X".repeat(45)));
}
