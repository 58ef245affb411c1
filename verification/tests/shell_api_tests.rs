use laundry_pos::config::AppConfig;
use laundry_pos::dialog::DialogOptions;
use laundry_pos::naming::ReceiptFormat;
use laundry_pos::receipt::{ReceiptData, ReceiptItem, StoreProfile};
use laundry_pos::{get_app_version, prepare_receipt, render_receipt};

#[test]
fn app_version() {
    assert_eq!(get_app_version(), "1.0.0");
}

#[test]
fn config_defaults() {
    let c = AppConfig::default();
    assert_eq!(c.database_url, "");
    assert_eq!(c.app_name, "Monic Laundry POS");
    assert_eq!(c.version, "1.0.0");
}

#[test]
fn dialog_title_defaults_to_message() {
    let with_title = DialogOptions {
        title: Some(String::from("Attention")),
        message: String::from("hello"),
        dialog_type: Some(String::from("info")),
    };
    assert_eq!(with_title.effective_title(), "Attention");
    let without = DialogOptions { title: None, message: String::from("hello"), dialog_type: None };
    assert_eq!(without.effective_title(), "Message");
}

fn sample_doc() -> ReceiptData {
    ReceiptData {
        order_number: String::from("A/1"),
        date: String::from("2024-02-02"),
        customer_name: String::from("Sari"),
        items: vec![ReceiptItem {
            service: String::from("Express"),
            weight_tenths: 12,
            price: 20000,
            subtotal: 24000,
        }],
        total: 24000,
        estimated_completion: String::from("2024-02-03"),
    }
}

#[test]
fn prepare_receipt_text_artifact() {
    let profile = StoreProfile::default();
    let (content, name) = prepare_receipt(&profile, &sample_doc(), ReceiptFormat::Text);
    assert_eq!(name, "receipt_A_1.txt");
    assert!(content.contains("1.2kg x 20.000 = Rp 24.000"));
    assert_eq!(content, render_receipt(&profile, &sample_doc(), ReceiptFormat::Text));
}

#[test]
fn prepare_receipt_pdf_artifact() {
    let profile = StoreProfile::default();
    let (content, name) = prepare_receipt(&profile, &sample_doc(), ReceiptFormat::Pdf);
    assert_eq!(name, "receipt_A_1.pdf");
    assert!(content.starts_with("%PDF-1.4\n"));
    assert!(content.contains("(TOTAL: Rp 24.000) Tj"));
}
