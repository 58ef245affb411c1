//! The PDF receipt renderer.
//!
//! One fixed-size page of 227 x 567 points (80mm x 200mm receipt paper),
//! with the same logical sections as the text renderer: store header, order
//! details, one block per line item, total, footer. Text is placed at
//! absolute integer coordinates and sections are divided by drawn rules
//! instead of character art. A bold face (`/F2`, Helvetica-Bold) marks the
//! store name and the total; everything else uses the regular face (`/F1`,
//! Helvetica). The vertical cursor starts near the top and advances by fixed
//! increments; a receipt with very many items overflows the page bottom
//! silently.
//!
//! The whole file is specified exactly: [`pdf_doc_rep`] gives the output
//! character for character. Text drawn into the page goes through
//! [`pdf_escape`], which escapes the string delimiters and maps characters
//! outside printable ASCII to `?` (the built-in fonts cannot draw them), so
//! the output is pure ASCII and character offsets equal byte offsets.

use vstd::prelude::*;
use crate::currency::{currency_rep, dec_rep, push_digits};
use crate::receipt::{ReceiptData, ReceiptItem, StoreProfile};
use crate::strutil::push_char;
use crate::text::{amount_line, format_amount_line};

verus! {

/// Decimal representation of a possibly negative integer.
pub open spec fn int_rep(i: int) -> Seq<char> {
    if i < 0 {
        seq!['-'] + dec_rep((-i) as nat)
    } else {
        dec_rep(i as nat)
    }
}

/// How one character is written inside a PDF string literal: the string
/// delimiters and the backslash get escaped, printable ASCII passes, and
/// everything else becomes `?`.
pub open spec fn escape_char(c: char) -> Seq<char> {
    if c == '(' || c == ')' || c == '\\' {
        seq!['\\', c]
    } else if 32 <= c as u32 && c as u32 <= 126 {
        seq![c]
    } else {
        seq!['?']
    }
}

/// `s` as it is written inside a PDF string literal.
pub open spec fn pdf_escape(s: Seq<char>) -> Seq<char>
    decreases s.len(),
{
    if s.len() == 0 {
        Seq::empty()
    } else {
        pdf_escape(s.drop_last()) + escape_char(s.last())
    }
}

/// The font selector: bold text is Helvetica-Bold at 10pt, regular text
/// Helvetica at 8pt.
pub open spec fn font_sel(bold: bool) -> Seq<char> {
    if bold {
        "/F2 10 Tf "@
    } else {
        "/F1 8 Tf "@
    }
}

/// The content-stream operation that draws `s` at `(x, y)`.
pub open spec fn text_op(bold: bool, x: int, y: int, s: Seq<char>) -> Seq<char> {
    "BT "@ + font_sel(bold) + int_rep(x) + " "@ + int_rep(y) + " Td ("@ + pdf_escape(s)
        + ") Tj ET\n"@
}

/// The content-stream operation that draws a horizontal rule at height `y`.
pub open spec fn rule_op(y: int) -> Seq<char> {
    "20 "@ + int_rep(y) + " m 207 "@ + int_rep(y) + " l S\n"@
}

/// The store-identity block at the top of the page.
pub open spec fn header_ops(p: StoreProfile) -> Seq<char> {
    text_op(true, 20, 540, p.name@) + text_op(false, 20, 528, p.address@) + text_op(
        false,
        20,
        516,
        p.phone@,
    ) + rule_op(508)
}

/// The order-details block.
pub open spec fn detail_ops(doc: ReceiptData) -> Seq<char> {
    text_op(false, 20, 496, "No. Order: "@ + doc.order_number@) + text_op(
        false,
        20,
        484,
        "Tanggal: "@ + doc.date@,
    ) + text_op(false, 20, 472, "Customer: "@ + doc.customer_name@) + rule_op(464)
}

/// One item block: the service name and, below it, the quantity line — the
/// same quantity line the text renderer prints.
pub open spec fn item_ops(it: ReceiptItem, y: int) -> Seq<char> {
    text_op(false, 20, y, it.service@) + text_op(false, 20, y - 12, amount_line(it))
}

/// All item blocks; each item advances the cursor 30 points down.
pub open spec fn items_ops(items: Seq<ReceiptItem>, y: int) -> Seq<char>
    decreases items.len(),
{
    if items.len() == 0 {
        Seq::empty()
    } else {
        item_ops(items[0], y) + items_ops(items.drop_first(), y - 30)
    }
}

/// The cursor height after `n` item blocks.
pub open spec fn after_items_y(n: nat) -> int {
    452 - 30 * n
}

/// The total block and the footer, placed under the item blocks.
pub open spec fn tail_ops(doc: ReceiptData) -> Seq<char> {
    let y = after_items_y(doc.items@.len());
    rule_op(y) + text_op(true, 20, y - 16, "TOTAL: Rp "@ + currency_rep(doc.total as int))
        + rule_op(y - 24) + text_op(false, 20, y - 40, "Terima kasih atas kepercayaan Anda!"@)
        + text_op(false, 20, y - 52, "Barang siap: "@ + doc.estimated_completion@)
}

/// The full page-content stream.
pub open spec fn content_rep(p: StoreProfile, doc: ReceiptData) -> Seq<char> {
    header_ops(p) + detail_ops(doc) + items_ops(doc.items@, 452) + tail_ops(doc)
}

/// Everything before the content stream's length: the catalog, page tree,
/// page, the two font objects, and the opening of the content-stream object.
/// The byte offsets of these six objects are the offsets recorded in
/// [`pdf_xref`].
pub open spec fn pdf_head() -> Seq<char> {
    "%PDF-1.4\n1 0 obj\n<< /Type /Catalog /Pages 2 0 R >>\nendobj\n2 0 obj\n<< /Type /Pages /Kids [3 0 R] /Count 1 >>\nendobj\n3 0 obj\n<< /Type /Page /Parent 2 0 R /MediaBox [0 0 227 567] /Resources << /Font << /F1 4 0 R /F2 5 0 R >> >> /Contents 6 0 R >>\nendobj\n4 0 obj\n<< /Type /Font /Subtype /Type1 /BaseFont /Helvetica >>\nendobj\n5 0 obj\n<< /Type /Font /Subtype /Type1 /BaseFont /Helvetica-Bold >>\nendobj\n6 0 obj\n<< /Length "@
}

/// The cross-reference table and trailer. The six object offsets are fixed
/// because every object except the content stream has constant text, and the
/// content stream is the last object.
pub open spec fn pdf_xref() -> Seq<char> {
    "xref\n0 7\n0000000000 65535 f \n0000000009 00000 n \n0000000058 00000 n \n0000000115 00000 n \n0000000251 00000 n \n0000000321 00000 n \n0000000396 00000 n \ntrailer\n<< /Size 7 /Root 1 0 R >>\nstartxref\n"@
}

/// The byte offset of the cross-reference table: the head (415 characters),
/// the length digits, `\" >>\\nstream\\n\"` (11), the content itself, and
/// `\"\\nendstream\\nendobj\\n\"` (18).
pub open spec fn startxref_val(content_len: nat) -> nat {
    444 + content_len + dec_rep(content_len).len()
}

/// The complete PDF file for `doc`, character for character.
pub open spec fn pdf_doc_rep(p: StoreProfile, doc: ReceiptData) -> Seq<char> {
    let content = content_rep(p, doc);
    pdf_head() + dec_rep(content.len()) + " >>\nstream\n"@ + content + "\nendstream\nendobj\n"@
        + pdf_xref() + dec_rep(startxref_val(content.len())) + "\n%%EOF\n"@
}

/// `s` as written inside a PDF string literal.
fn escaped_string(s: &str) -> (r: String)
    ensures
        r@ == pdf_escape(s@),
{
    let n = s.unicode_len();
    let mut r = String::new();
    let mut i: usize = 0;
    while i < n
        invariant
            i <= n,
            n == s@.len(),
            r@ == pdf_escape(s@.take(i as int)),
        decreases n - i,
    {
        let c = s.get_char(i);
        if c == '(' || c == ')' || c == '\\' {
            push_char(&mut r, '\\');
            push_char(&mut r, c);
        } else {
            let u = c as u32;
            if 32 <= u && u <= 126 {
                push_char(&mut r, c);
            } else {
                push_char(&mut r, '?');
            }
        }
        proof {
            assert(s@.take(i as int + 1).drop_last() =~= s@.take(i as int));
            assert(s@.take(i as int + 1).last() == s@[i as int]);
            assert(r@ =~= pdf_escape(s@.take(i as int + 1)));
        }
        i += 1;
    }
    proof {
        assert(s@.take(n as int) =~= s@);
    }
    r
}

fn push_int(out: &mut String, v: i128)
    requires
        v > i128::MIN,
    ensures
        final(out)@ == old(out)@ + int_rep(v as int),
{
    if v < 0 {
        push_char(out, '-');
        push_digits(out, (-v) as u128);
        proof {
            assert(out@ =~= old(out)@ + int_rep(v as int));
        }
    } else {
        push_digits(out, v as u128);
    }
}

fn push_text_op(out: &mut String, bold: bool, x: i128, y: i128, s: &str)
    requires
        x > i128::MIN,
        y > i128::MIN,
    ensures
        final(out)@ == old(out)@ + text_op(bold, x as int, y as int, s@),
{
    out.append("BT ");
    if bold {
        out.append("/F2 10 Tf ");
    } else {
        out.append("/F1 8 Tf ");
    }
    push_int(out, x);
    out.append(" ");
    push_int(out, y);
    out.append(" Td (");
    let e = escaped_string(s);
    out.append(e.as_str());
    out.append(") Tj ET\n");
    proof {
        assert(out@ =~= old(out)@ + text_op(bold, x as int, y as int, s@));
    }
}

fn push_rule_op(out: &mut String, y: i128)
    requires
        y > i128::MIN,
    ensures
        final(out)@ == old(out)@ + rule_op(y as int),
{
    out.append("20 ");
    push_int(out, y);
    out.append(" m 207 ");
    push_int(out, y);
    out.append(" l S\n");
    proof {
        assert(out@ =~= old(out)@ + rule_op(y as int));
    }
}

proof fn lemma_items_ops_take(s: Seq<ReceiptItem>, i: int, y: int)
    requires
        0 <= i < s.len(),
    ensures
        items_ops(s.take(i + 1), y) == items_ops(s.take(i), y) + item_ops(s[i], y - 30 * i),
    decreases i,
{
    if i == 0 {
        assert(s.take(0) =~= Seq::<ReceiptItem>::empty());
        assert(s.take(1) =~= seq![s[0]]);
        assert(seq![s[0]].drop_first() =~= Seq::<ReceiptItem>::empty());
        assert(items_ops(Seq::<ReceiptItem>::empty(), y) == Seq::<char>::empty());
        assert(items_ops(Seq::<ReceiptItem>::empty(), y - 30) == Seq::<char>::empty());
        assert(items_ops(s.take(1), y) =~= items_ops(s.take(0), y) + item_ops(s[0], y));
    } else {
        lemma_items_ops_take(s.drop_first(), i - 1, y - 30);
        assert(s.take(i + 1).drop_first() =~= s.drop_first().take(i));
        assert(s.take(i).drop_first() =~= s.drop_first().take(i - 1));
        assert(s.take(i + 1)[0] == s[0]);
        assert(s.take(i)[0] == s[0]);
        assert(s.drop_first()[i - 1] == s[i]);
        assert(items_ops(s.take(i + 1), y) =~= items_ops(s.take(i), y) + item_ops(
            s[i],
            y - 30 * i,
        ));
    }
}

/// Builds the page-content stream.
#[verifier::rlimit(50)]
fn render_pdf_content(profile: &StoreProfile, doc: &ReceiptData) -> (r: String)
    ensures
        r@ == content_rep(*profile, *doc),
{
    let mut out = String::new();
    push_text_op(&mut out, true, 20, 540, profile.name.as_str());
    push_text_op(&mut out, false, 20, 528, profile.address.as_str());
    push_text_op(&mut out, false, 20, 516, profile.phone.as_str());
    push_rule_op(&mut out, 508);
    proof {
        assert(out@ =~= header_ops(*profile));
    }

    let mut line = String::from_str("No. Order: ");
    line.append(doc.order_number.as_str());
    push_text_op(&mut out, false, 20, 496, line.as_str());
    let mut line = String::from_str("Tanggal: ");
    line.append(doc.date.as_str());
    push_text_op(&mut out, false, 20, 484, line.as_str());
    let mut line = String::from_str("Customer: ");
    line.append(doc.customer_name.as_str());
    push_text_op(&mut out, false, 20, 472, line.as_str());
    push_rule_op(&mut out, 464);
    proof {
        assert(out@ =~= header_ops(*profile) + detail_ops(*doc));
    }

    let items = &doc.items;
    let mut i: usize = 0;
    while i < items.len()
        invariant
            i <= items.len(),
            items@ == doc.items@,
            out@ == header_ops(*profile) + detail_ops(*doc) + items_ops(
                items@.take(i as int),
                452,
            ),
        decreases items.len() - i,
    {
        let y: i128 = 452 - 30 * (i as i128);
        let it = &items[i];
        push_text_op(&mut out, false, 20, y, it.service.as_str());
        let am = format_amount_line(it);
        push_text_op(&mut out, false, 20, y - 12, am.as_str());
        proof {
            lemma_items_ops_take(items@, i as int, 452);
            assert(out@ =~= header_ops(*profile) + detail_ops(*doc) + items_ops(
                items@.take(i as int + 1),
                452,
            ));
        }
        i += 1;
    }
    proof {
        assert(items@.take(items@.len() as int) =~= items@);
    }

    let ay: i128 = 452 - 30 * (items.len() as i128);
    push_rule_op(&mut out, ay);
    let mut total = String::from_str("TOTAL: Rp ");
    let t = crate::currency::format_currency(doc.total);
    total.append(t.as_str());
    push_text_op(&mut out, true, 20, ay - 16, total.as_str());
    push_rule_op(&mut out, ay - 24);
    push_text_op(&mut out, false, 20, ay - 40, "Terima kasih atas kepercayaan Anda!");
    let mut est = String::from_str("Barang siap: ");
    est.append(doc.estimated_completion.as_str());
    push_text_op(&mut out, false, 20, ay - 52, est.as_str());
    proof {
        assert(ay as int == after_items_y(doc.items@.len()));
        assert(out@ =~= content_rep(*profile, *doc));
    }
    out
}

/// Renders the complete single-page PDF receipt for `doc`, headed by the
/// store identity in `profile`. The result is exactly [`pdf_doc_rep`].
pub fn render_receipt_pdf(profile: &StoreProfile, doc: &ReceiptData) -> (r: String)
    ensures
        r@ == pdf_doc_rep(*profile, *doc),
{
    let content = render_pdf_content(profile, doc);
    let clen = content.unicode_len();
    let mut lenstr = String::new();
    push_digits(&mut lenstr, clen as u128);
    let dlen = lenstr.unicode_len();

    let mut out = String::from_str(
        "%PDF-1.4\n1 0 obj\n<< /Type /Catalog /Pages 2 0 R >>\nendobj\n2 0 obj\n<< /Type /Pages /Kids [3 0 R] /Count 1 >>\nendobj\n3 0 obj\n<< /Type /Page /Parent 2 0 R /MediaBox [0 0 227 567] /Resources << /Font << /F1 4 0 R /F2 5 0 R >> >> /Contents 6 0 R >>\nendobj\n4 0 obj\n<< /Type /Font /Subtype /Type1 /BaseFont /Helvetica >>\nendobj\n5 0 obj\n<< /Type /Font /Subtype /Type1 /BaseFont /Helvetica-Bold >>\nendobj\n6 0 obj\n<< /Length ",
    );
    out.append(lenstr.as_str());
    out.append(" >>\nstream\n");
    out.append(content.as_str());
    out.append("\nendstream\nendobj\n");
    out.append(
        "xref\n0 7\n0000000000 65535 f \n0000000009 00000 n \n0000000058 00000 n \n0000000115 00000 n \n0000000251 00000 n \n0000000321 00000 n \n0000000396 00000 n \ntrailer\n<< /Size 7 /Root 1 0 R >>\nstartxref\n",
    );
    let startxref: u128 = 444 + (clen as u128) + (dlen as u128);
    push_digits(&mut out, startxref);
    out.append("\n%%EOF\n");
    proof {
        assert(startxref as nat == startxref_val(content@.len()));
        assert(out@ =~= pdf_doc_rep(*profile, *doc));
    }
    out
}

} // verus!
