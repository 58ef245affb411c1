//! Cross-renderer consistency: a text receipt and a PDF receipt generated
//! from the same document show the same order number, customer name and
//! grand total.

use vstd::prelude::*;
use crate::containment::{
    contains_seq, lemma_contains_extend_left, lemma_contains_extend_right, lemma_contains_suffix,
    lemma_contains_trans,
};
use crate::currency::{currency_rep, dec_rep, grouped, spec_digit_char};
use crate::pdf::{
    content_rep, detail_ops, escape_char, font_sel, header_ops, int_rep, items_ops, pdf_doc_rep,
    pdf_escape, pdf_head, pdf_xref, rule_op, startxref_val, tail_ops, text_op,
};
use crate::receipt::{ReceiptData, StoreProfile};
use crate::text::{join_lines, lemma_items_lines_len, lemma_join_contains_line, text_lines};

verus! {

/// Characters that a PDF string literal carries through unchanged:
/// printable ASCII without the string delimiters and the backslash.
pub open spec fn pdf_clean(s: Seq<char>) -> bool {
    forall|i: int|
        0 <= i < s.len() ==> 32 <= (#[trigger] s[i]) as u32 && s[i] as u32 <= 126 && s[i] != '('
            && s[i] != ')' && s[i] != '\\'
}

proof fn lemma_contains_self(t: Seq<char>)
    ensures
        contains_seq(t, t),
{
    crate::containment::lemma_contains_prefix(t, Seq::empty());
    assert(t + Seq::<char>::empty() =~= t);
}

proof fn lemma_escape_concat(a: Seq<char>, b: Seq<char>)
    ensures
        pdf_escape(a + b) == pdf_escape(a) + pdf_escape(b),
    decreases b.len(),
{
    if b.len() == 0 {
        assert(a + b =~= a);
        assert(pdf_escape(a) + pdf_escape(b) =~= pdf_escape(a));
    } else {
        lemma_escape_concat(a, b.drop_last());
        assert((a + b).drop_last() =~= a + b.drop_last());
        assert((a + b).last() == b.last());
        assert(pdf_escape(a + b) =~= pdf_escape(a) + pdf_escape(b));
    }
}

proof fn lemma_escape_clean_identity(s: Seq<char>)
    requires
        pdf_clean(s),
    ensures
        pdf_escape(s) == s,
    decreases s.len(),
{
    if s.len() > 0 {
        lemma_escape_clean_identity(s.drop_last());
        assert(escape_char(s.last()) =~= seq![s.last()]);
        assert(pdf_escape(s) =~= s);
    }
}

proof fn lemma_clean_concat(a: Seq<char>, b: Seq<char>)
    requires
        pdf_clean(a),
        pdf_clean(b),
    ensures
        pdf_clean(a + b),
{
}

proof fn lemma_dec_rep_clean(n: nat)
    ensures
        pdf_clean(dec_rep(n)),
    decreases n,
{
    if n < 10 {
        assert(pdf_clean(seq![spec_digit_char(n)]));
    } else {
        lemma_dec_rep_clean(n / 10);
        assert(pdf_clean(dec_rep(n)));
    }
}

proof fn lemma_grouped_clean(ds: Seq<char>)
    requires
        pdf_clean(ds),
    ensures
        pdf_clean(grouped(ds)),
    decreases ds.len(),
{
    if ds.len() > 3 {
        assert(pdf_clean(ds.take(ds.len() - 3)));
        lemma_grouped_clean(ds.take(ds.len() - 3));
        assert(pdf_clean(grouped(ds)));
    }
}

/// A formatted amount carries only digits, separators and a sign, all of
/// which PDF string literals carry through unchanged.
proof fn lemma_currency_clean(amount: int)
    ensures
        pdf_clean(currency_rep(amount)),
{
    if amount < 0 {
        lemma_dec_rep_clean((-amount) as nat);
        lemma_grouped_clean(dec_rep((-amount) as nat));
        assert(pdf_clean(seq!['-']));
        lemma_clean_concat(seq!['-'], grouped(dec_rep((-amount) as nat)));
    } else {
        lemma_dec_rep_clean(amount as nat);
        lemma_grouped_clean(dec_rep(amount as nat));
    }
}

/// A text-drawing operation shows whatever its escaped payload shows.
proof fn lemma_text_op_contains(bold: bool, x: int, y: int, s: Seq<char>, t: Seq<char>)
    requires
        contains_seq(pdf_escape(s), t),
    ensures
        contains_seq(text_op(bold, x, y, s), t),
{
    let a = "BT "@ + font_sel(bold) + int_rep(x) + " "@ + int_rep(y) + " Td ("@;
    lemma_contains_extend_left(a, pdf_escape(s), t);
    lemma_contains_extend_right(a + pdf_escape(s), ") Tj ET\n"@, t);
}

/// Whatever the content stream shows, the assembled PDF file shows.
proof fn lemma_pdf_doc_contains(p: StoreProfile, doc: ReceiptData, t: Seq<char>)
    requires
        contains_seq(content_rep(p, doc), t),
    ensures
        contains_seq(pdf_doc_rep(p, doc), t),
{
    let content = content_rep(p, doc);
    let pre = pdf_head() + dec_rep(content.len()) + " >>\nstream\n"@;
    lemma_contains_extend_left(pre, content, t);
    lemma_contains_extend_right(pre + content, "\nendstream\nendobj\n"@, t);
    lemma_contains_extend_right(pre + content + "\nendstream\nendobj\n"@, pdf_xref(), t);
    lemma_contains_extend_right(
        pre + content + "\nendstream\nendobj\n"@ + pdf_xref(),
        dec_rep(startxref_val(content.len())),
        t,
    );
    lemma_contains_extend_right(
        pre + content + "\nendstream\nendobj\n"@ + pdf_xref() + dec_rep(
            startxref_val(content.len()),
        ),
        "\n%%EOF\n"@,
        t,
    );
}

/// An escaped labelled payload shows the clean field after the label.
proof fn lemma_escaped_field(label: Seq<char>, field: Seq<char>)
    requires
        pdf_clean(field),
    ensures
        contains_seq(pdf_escape(label + field), field),
{
    lemma_escape_concat(label, field);
    lemma_escape_clean_identity(field);
    lemma_contains_suffix(pdf_escape(label), field);
}

/// The detail block of the content stream shows `t` when one of its three
/// labelled text operations does.
proof fn lemma_content_contains(p: StoreProfile, doc: ReceiptData, t: Seq<char>, which: int)
    requires
        which == 0 ==> contains_seq(
            text_op(false, 20, 496, "No. Order: "@ + doc.order_number@),
            t,
        ),
        which == 1 ==> contains_seq(
            text_op(false, 20, 472, "Customer: "@ + doc.customer_name@),
            t,
        ),
        which == 2 ==> contains_seq(
            text_op(
                true,
                20,
                crate::pdf::after_items_y(doc.items@.len()) - 16,
                "TOTAL: Rp "@ + currency_rep(doc.total as int),
            ),
            t,
        ),
        0 <= which <= 2,
    ensures
        contains_seq(content_rep(p, doc), t),
{
    let t1 = text_op(false, 20, 496, "No. Order: "@ + doc.order_number@);
    let t2 = text_op(false, 20, 484, "Tanggal: "@ + doc.date@);
    let t3 = text_op(false, 20, 472, "Customer: "@ + doc.customer_name@);
    let r4 = rule_op(464);
    let ii = items_ops(doc.items@, 452);
    let y = crate::pdf::after_items_y(doc.items@.len());
    let r1 = rule_op(y);
    let tt = text_op(true, 20, y - 16, "TOTAL: Rp "@ + currency_rep(doc.total as int));
    if which == 0 {
        lemma_contains_extend_right(t1, t2, t);
        lemma_contains_extend_right(t1 + t2, t3, t);
        lemma_contains_extend_right(t1 + t2 + t3, r4, t);
        lemma_contains_extend_left(header_ops(p), detail_ops(doc), t);
        lemma_contains_extend_right(header_ops(p) + detail_ops(doc), ii, t);
        lemma_contains_extend_right(header_ops(p) + detail_ops(doc) + ii, tail_ops(doc), t);
    } else if which == 1 {
        lemma_contains_extend_left(t1 + t2, t3, t);
        lemma_contains_extend_right(t1 + t2 + t3, r4, t);
        lemma_contains_extend_left(header_ops(p), detail_ops(doc), t);
        lemma_contains_extend_right(header_ops(p) + detail_ops(doc), ii, t);
        lemma_contains_extend_right(header_ops(p) + detail_ops(doc) + ii, tail_ops(doc), t);
    } else {
        lemma_contains_extend_left(r1, tt, t);
        lemma_contains_extend_right(r1 + tt, rule_op(y - 24), t);
        lemma_contains_extend_right(
            r1 + tt + rule_op(y - 24),
            text_op(false, 20, y - 40, "Terima kasih atas kepercayaan Anda!"@),
            t,
        );
        lemma_contains_extend_right(
            r1 + tt + rule_op(y - 24) + text_op(
                false,
                20,
                y - 40,
                "Terima kasih atas kepercayaan Anda!"@,
            ),
            text_op(false, 20, y - 52, "Barang siap: "@ + doc.estimated_completion@),
            t,
        );
        lemma_contains_extend_left(header_ops(p) + detail_ops(doc) + ii, tail_ops(doc), t);
    }
}

/// The grand-total prefix is printable ASCII without PDF specials.
proof fn lemma_total_label_clean()
    ensures
        pdf_clean("TOTAL: Rp "@),
{
    reveal_strlit("TOTAL: Rp ");
}

/// A text receipt and a PDF receipt generated from the same document show
/// the same order number, the same customer name, and the same total line.
/// The order number and customer name are assumed free of the few
/// characters a PDF string literal rewrites; on such input both artifacts
/// carry all three fields verbatim.
pub proof fn lemma_cross_renderer_consistency(p: StoreProfile, doc: ReceiptData)
    requires
        pdf_clean(doc.order_number@),
        pdf_clean(doc.customer_name@),
    ensures
        contains_seq(join_lines(text_lines(p, doc)), doc.order_number@),
        contains_seq(pdf_doc_rep(p, doc), doc.order_number@),
        contains_seq(join_lines(text_lines(p, doc)), doc.customer_name@),
        contains_seq(pdf_doc_rep(p, doc), doc.customer_name@),
        contains_seq(
            join_lines(text_lines(p, doc)),
            "TOTAL: Rp "@ + currency_rep(doc.total as int),
        ),
        contains_seq(pdf_doc_rep(p, doc), "TOTAL: Rp "@ + currency_rep(doc.total as int)),
{
    let tl = text_lines(p, doc);
    let n = doc.items@.len() as int;
    let order = doc.order_number@;
    let cust = doc.customer_name@;
    let total = "TOTAL: Rp "@ + currency_rep(doc.total as int);
    lemma_items_lines_len(doc.items@);

    // Text side: the three fields sit on known lines.
    assert(tl[6] == "No. Order    : "@ + order);
    lemma_join_contains_line(tl, 6);
    lemma_contains_suffix("No. Order    : "@, order);
    lemma_contains_trans(join_lines(tl), tl[6], order);

    assert(tl[8] == "Customer     : "@ + cust);
    lemma_join_contains_line(tl, 8);
    lemma_contains_suffix("Customer     : "@, cust);
    lemma_contains_trans(join_lines(tl), tl[8], cust);

    assert(tl[11 + 3 * n] == total);
    lemma_join_contains_line(tl, 11 + 3 * n);

    // PDF side: the same fields sit in known text operations.
    lemma_escaped_field("No. Order: "@, order);
    lemma_text_op_contains(false, 20, 496, "No. Order: "@ + order, order);
    lemma_content_contains(p, doc, order, 0);
    lemma_pdf_doc_contains(p, doc, order);

    lemma_escaped_field("Customer: "@, cust);
    lemma_text_op_contains(false, 20, 472, "Customer: "@ + cust, cust);
    lemma_content_contains(p, doc, cust, 1);
    lemma_pdf_doc_contains(p, doc, cust);

    lemma_total_label_clean();
    lemma_currency_clean(doc.total as int);
    lemma_clean_concat("TOTAL: Rp "@, currency_rep(doc.total as int));
    lemma_escape_clean_identity(total);
    lemma_contains_self(total);
    assert(contains_seq(pdf_escape(total), total));
    lemma_text_op_contains(
        true,
        20,
        crate::pdf::after_items_y(doc.items@.len()) - 16,
        total,
        total,
    );
    lemma_content_contains(p, doc, total, 2);
    lemma_pdf_doc_contains(p, doc, total);
}

} // verus!
