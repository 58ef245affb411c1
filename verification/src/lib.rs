//! Receipt formatting and document generation for a laundry point-of-sale
//! backend.
//!
//! The library renders an order snapshot ([`receipt::ReceiptData`]) into a
//! fixed-width plain-text receipt or a single-page PDF receipt, derives a safe
//! temp-file name for the artifact, and decides how application-menu events
//! map to front-end actions. All formatting is pure: persistence and process
//! launching live outside the library.

use vstd::prelude::*;

pub mod config;
pub mod consistency;
pub mod containment;
pub mod currency;
pub mod dialog;
pub mod menu;
pub mod naming;
pub mod pdf;
pub mod receipt;
mod strutil;
pub mod text;

use crate::naming::{file_name_rep, receipt_file_name, ReceiptFormat};
use crate::pdf::{pdf_doc_rep, render_receipt_pdf};
use crate::receipt::{ReceiptData, StoreProfile};
use crate::text::{format_receipt_text, join_lines, text_lines};

verus! {

/// The version string reported to the front end.
pub fn get_app_version() -> (r: String)
    ensures
        r@ == "1.0.0"@,
{
    String::from_str("1.0.0")
}

/// Renders `doc` in the requested format: the text renderer's lines or the
/// PDF renderer's file, each specified exactly by its module.
pub fn render_receipt(profile: &StoreProfile, doc: &ReceiptData, fmt: ReceiptFormat) -> (r:
    String)
    ensures
        fmt == ReceiptFormat::Text ==> r@ == join_lines(text_lines(*profile, *doc)),
        fmt == ReceiptFormat::Pdf ==> r@ == pdf_doc_rep(*profile, *doc),
{
    match fmt {
        ReceiptFormat::Text => format_receipt_text(profile, doc),
        ReceiptFormat::Pdf => render_receipt_pdf(profile, doc),
    }
}

/// Renders `doc` and derives the sanitized file name the artifact should be
/// persisted under. Writing the file and opening it belong to the host
/// shell; both succeed or fail independently of this computation.
pub fn prepare_receipt(profile: &StoreProfile, doc: &ReceiptData, fmt: ReceiptFormat) -> (r: (
    String,
    String,
))
    ensures
        fmt == ReceiptFormat::Text ==> r.0@ == join_lines(text_lines(*profile, *doc)),
        fmt == ReceiptFormat::Pdf ==> r.0@ == pdf_doc_rep(*profile, *doc),
        r.1@ == file_name_rep(doc.order_number@, fmt),
{
    let content = render_receipt(profile, doc, fmt);
    let name = receipt_file_name(doc.order_number.as_str(), fmt);
    (content, name)
}

} // verus!
