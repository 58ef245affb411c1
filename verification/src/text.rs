//! The plain-text receipt renderer.
//!
//! The layout is a fixed-width, 40-column page: a centered store header, an
//! order-details block, one three-line block per line item, the total line,
//! and a footer. The output is specified line by line: [`text_lines`] gives
//! the exact sequence of lines and [`join_lines`] glues them with `'\n'`, so
//! `format_receipt_text` returns `join_lines(text_lines(..))` character for
//! character.

use vstd::prelude::*;
use crate::currency::{currency_rep, format_currency, format_weight, weight_rep};
use crate::receipt::{ReceiptData, ReceiptItem, StoreProfile};
use crate::strutil::{push_char, push_line};

verus! {

/// A run of `n` spaces.
pub open spec fn spaces(n: nat) -> Seq<char>
    decreases n,
{
    if n == 0 {
        Seq::empty()
    } else {
        spaces((n - 1) as nat).push(' ')
    }
}

/// `s` centered on a 40-column line; a string wider than the line is kept
/// as it is.
pub open spec fn center40(s: Seq<char>) -> Seq<char> {
    if s.len() > 40 {
        s
    } else {
        spaces(((41 - s.len()) / 2) as nat) + s + spaces(
            (40 - s.len() - (41 - s.len()) / 2) as nat,
        )
    }
}

/// The 40-column `=` rule.
pub open spec fn sep_heavy() -> Seq<char> {
    "========================================"@
}

/// The 40-column `-` rule.
pub open spec fn sep_light() -> Seq<char> {
    "----------------------------------------"@
}

/// The header block: heavy rule, centered store identity, heavy rule, blank.
pub open spec fn header_lines(p: StoreProfile) -> Seq<Seq<char>> {
    seq![
        sep_heavy(),
        center40(p.name@),
        center40(p.address@),
        center40(p.phone@),
        sep_heavy(),
        Seq::empty(),
    ]
}

/// The order-details block: order number, date, customer, light rule.
pub open spec fn detail_lines(doc: ReceiptData) -> Seq<Seq<char>> {
    seq![
        "No. Order    : "@ + doc.order_number@,
        "Tanggal      : "@ + doc.date@,
        "Customer     : "@ + doc.customer_name@,
        sep_light(),
    ]
}

/// The quantity line of one item: `{weight}kg x {price} = Rp {subtotal}`.
pub open spec fn amount_line(it: ReceiptItem) -> Seq<char> {
    weight_rep(it.weight_tenths as nat) + "kg x "@ + currency_rep(it.price as int) + " = Rp "@
        + currency_rep(it.subtotal as int)
}

/// The three lines of one item block: service name, quantity line, blank.
pub open spec fn item_lines(it: ReceiptItem) -> Seq<Seq<char>> {
    seq![it.service@, amount_line(it), Seq::empty()]
}

/// All item blocks, in item order.
pub open spec fn items_lines(items: Seq<ReceiptItem>) -> Seq<Seq<char>>
    decreases items.len(),
{
    if items.len() == 0 {
        Seq::empty()
    } else {
        item_lines(items[0]) + items_lines(items.drop_first())
    }
}

/// The total block: heavy rule, total line, heavy rule, blank.
pub open spec fn total_lines(total: int) -> Seq<Seq<char>> {
    seq![
        sep_heavy(),
        "TOTAL: Rp "@ + currency_rep(total),
        sep_heavy(),
        Seq::empty(),
    ]
}

/// The footer: thank-you line and the completion estimate.
pub open spec fn footer_lines(doc: ReceiptData) -> Seq<Seq<char>> {
    seq!["Terima kasih atas kepercayaan Anda!"@, "Barang siap: "@ + doc.estimated_completion@]
}

/// Every line of the text receipt, in order.
pub open spec fn text_lines(p: StoreProfile, doc: ReceiptData) -> Seq<Seq<char>> {
    header_lines(p) + detail_lines(doc) + items_lines(doc.items@) + total_lines(doc.total as int)
        + footer_lines(doc)
}

/// The lines glued together, each one terminated by `'\n'`.
pub open spec fn join_lines(ls: Seq<Seq<char>>) -> Seq<char>
    decreases ls.len(),
{
    if ls.len() == 0 {
        Seq::empty()
    } else {
        join_lines(ls.drop_last()) + ls.last() + seq!['\n']
    }
}

/// True when `s` spans no line break of its own.
pub open spec fn line_free(s: Seq<char>) -> bool {
    forall|i: int| 0 <= i < s.len() ==> #[trigger] s[i] != '\n'
}

pub proof fn lemma_join_concat(a: Seq<Seq<char>>, b: Seq<Seq<char>>)
    ensures
        join_lines(a + b) == join_lines(a) + join_lines(b),
    decreases b.len(),
{
    if b.len() == 0 {
        assert(a + b =~= a);
        assert(join_lines(a) + join_lines(b) =~= join_lines(a));
    } else {
        lemma_join_concat(a, b.drop_last());
        assert((a + b).drop_last() =~= a + b.drop_last());
        assert((a + b).last() == b.last());
        assert(join_lines(a + b) =~= join_lines(a) + join_lines(b));
    }
}

proof fn lemma_join2(l0: Seq<char>, l1: Seq<char>)
    ensures
        join_lines(seq![l0, l1]) == l0 + seq!['\n'] + l1 + seq!['\n'],
{
    reveal_with_fuel(join_lines, 3);
    assert(seq![l0, l1].drop_last() =~= seq![l0]);
    assert(seq![l0].drop_last() =~= Seq::<Seq<char>>::empty());
    assert(join_lines(seq![l0, l1]) =~= l0 + seq!['\n'] + l1 + seq!['\n']);
}

proof fn lemma_join4(l0: Seq<char>, l1: Seq<char>, l2: Seq<char>, l3: Seq<char>)
    ensures
        join_lines(seq![l0, l1, l2, l3]) == l0 + seq!['\n'] + l1 + seq!['\n'] + l2 + seq!['\n']
            + l3 + seq!['\n'],
{
    reveal_with_fuel(join_lines, 3);
    lemma_join2(l0, l1);
    assert(seq![l0, l1, l2, l3].drop_last() =~= seq![l0, l1, l2]);
    assert(seq![l0, l1, l2].drop_last() =~= seq![l0, l1]);
    assert(join_lines(seq![l0, l1, l2, l3]) =~= l0 + seq!['\n'] + l1 + seq!['\n'] + l2 + seq![
        '\n',
    ] + l3 + seq!['\n']);
}

proof fn lemma_join6(
    l0: Seq<char>,
    l1: Seq<char>,
    l2: Seq<char>,
    l3: Seq<char>,
    l4: Seq<char>,
    l5: Seq<char>,
)
    ensures
        join_lines(seq![l0, l1, l2, l3, l4, l5]) == l0 + seq!['\n'] + l1 + seq!['\n'] + l2 + seq![
            '\n',
        ] + l3 + seq!['\n'] + l4 + seq!['\n'] + l5 + seq!['\n'],
{
    reveal_with_fuel(join_lines, 3);
    lemma_join4(l0, l1, l2, l3);
    assert(seq![l0, l1, l2, l3, l4, l5].drop_last() =~= seq![l0, l1, l2, l3, l4]);
    assert(seq![l0, l1, l2, l3, l4].drop_last() =~= seq![l0, l1, l2, l3]);
    assert(join_lines(seq![l0, l1, l2, l3, l4, l5]) =~= l0 + seq!['\n'] + l1 + seq!['\n'] + l2
        + seq!['\n'] + l3 + seq!['\n'] + l4 + seq!['\n'] + l5 + seq!['\n']);
}

fn push_spaces(out: &mut String, n: usize)
    ensures
        final(out)@ == old(out)@ + spaces(n as nat),
    decreases n,
{
    if n > 0 {
        push_spaces(out, n - 1);
        push_char(out, ' ');
        proof {
            assert(out@ =~= old(out)@ + spaces(n as nat));
        }
    } else {
        proof {
            assert(out@ =~= old(out)@ + spaces(0));
        }
    }
}

/// Centers `s` on a 40-column line.
fn center_line(s: &str) -> (r: String)
    ensures
        r@ == center40(s@),
{
    let len = s.unicode_len();
    if len > 40 {
        return String::from_str(s);
    }
    let left: usize = (41 - len) / 2;
    let right: usize = 40 - len - left;
    let mut r = String::new();
    push_spaces(&mut r, left);
    r.append(s);
    push_spaces(&mut r, right);
    proof {
        assert(r@ =~= center40(s@));
    }
    r
}

/// The quantity line of one item.
pub fn format_amount_line(it: &ReceiptItem) -> (r: String)
    ensures
        r@ == amount_line(*it),
{
    let mut r = format_weight(it.weight_tenths);
    r.append("kg x ");
    let p = format_currency(it.price);
    r.append(p.as_str());
    r.append(" = Rp ");
    let s = format_currency(it.subtotal);
    r.append(s.as_str());
    proof {
        assert(r@ =~= amount_line(*it));
    }
    r
}

fn render_header(p: &StoreProfile) -> (r: String)
    ensures
        r@ == join_lines(header_lines(*p)),
{
    let mut out = String::new();
    push_line(&mut out, "========================================");
    let n = center_line(p.name.as_str());
    push_line(&mut out, n.as_str());
    let a = center_line(p.address.as_str());
    push_line(&mut out, a.as_str());
    let ph = center_line(p.phone.as_str());
    push_line(&mut out, ph.as_str());
    push_line(&mut out, "========================================");
    push_line(&mut out, "");
    proof {
        reveal_strlit("");
        lemma_join6(
            sep_heavy(),
            center40(p.name@),
            center40(p.address@),
            center40(p.phone@),
            sep_heavy(),
            Seq::empty(),
        );
        assert(out@ =~= join_lines(header_lines(*p)));
    }
    out
}

fn render_details(doc: &ReceiptData) -> (r: String)
    ensures
        r@ == join_lines(detail_lines(*doc)),
{
    let mut out = String::new();
    out.append("No. Order    : ");
    out.append(doc.order_number.as_str());
    push_char(&mut out, '\n');
    out.append("Tanggal      : ");
    out.append(doc.date.as_str());
    push_char(&mut out, '\n');
    out.append("Customer     : ");
    out.append(doc.customer_name.as_str());
    push_char(&mut out, '\n');
    push_line(&mut out, "----------------------------------------");
    proof {
        lemma_join4(
            "No. Order    : "@ + doc.order_number@,
            "Tanggal      : "@ + doc.date@,
            "Customer     : "@ + doc.customer_name@,
            sep_light(),
        );
        assert(out@ =~= join_lines(detail_lines(*doc)));
    }
    out
}

proof fn lemma_items_lines_take(s: Seq<ReceiptItem>, i: int)
    requires
        0 <= i < s.len(),
    ensures
        items_lines(s.take(i + 1)) == items_lines(s.take(i)) + item_lines(s[i]),
    decreases i,
{
    if i == 0 {
        assert(s.take(0) =~= Seq::<ReceiptItem>::empty());
        assert(s.take(1) =~= seq![s[0]]);
        assert(seq![s[0]].drop_first() =~= Seq::<ReceiptItem>::empty());
        assert(items_lines(Seq::<ReceiptItem>::empty()) == Seq::<Seq<char>>::empty());
        assert(items_lines(s.take(1)) =~= items_lines(s.take(0)) + item_lines(s[0]));
    } else {
        lemma_items_lines_take(s.drop_first(), i - 1);
        assert(s.take(i + 1).drop_first() =~= s.drop_first().take(i));
        assert(s.take(i).drop_first() =~= s.drop_first().take(i - 1));
        assert(s.take(i + 1)[0] == s[0]);
        assert(s.take(i)[0] == s[0]);
        assert(s.drop_first()[i - 1] == s[i]);
        assert(items_lines(s.take(i + 1)) =~= items_lines(s.take(i)) + item_lines(s[i]));
    }
}

fn render_items(items: &Vec<ReceiptItem>) -> (r: String)
    ensures
        r@ == join_lines(items_lines(items@)),
{
    let mut out = String::new();
    let mut i: usize = 0;
    while i < items.len()
        invariant
            i <= items.len(),
            out@ == join_lines(items_lines(items@.take(i as int))),
        decreases items.len() - i,
    {
        let it = &items[i];
        push_line(&mut out, it.service.as_str());
        let am = format_amount_line(it);
        push_line(&mut out, am.as_str());
        push_line(&mut out, "");
        proof {
            reveal_strlit("");
            lemma_items_lines_take(items@, i as int);
            lemma_join_concat(items_lines(items@.take(i as int)), item_lines(items@[i as int]));
            lemma_join3(items@[i as int].service@, amount_line(items@[i as int]), Seq::empty());
            assert(out@ =~= join_lines(items_lines(items@.take(i as int + 1))));
        }
        i += 1;
    }
    proof {
        assert(items@.take(items@.len() as int) =~= items@);
    }
    out
}

proof fn lemma_join3(l0: Seq<char>, l1: Seq<char>, l2: Seq<char>)
    ensures
        join_lines(seq![l0, l1, l2]) == l0 + seq!['\n'] + l1 + seq!['\n'] + l2 + seq!['\n'],
{
    reveal_with_fuel(join_lines, 2);
    lemma_join2(l0, l1);
    assert(seq![l0, l1, l2].drop_last() =~= seq![l0, l1]);
    assert(join_lines(seq![l0, l1, l2]) =~= l0 + seq!['\n'] + l1 + seq!['\n'] + l2 + seq!['\n']);
}

fn render_total(total: i64) -> (r: String)
    ensures
        r@ == join_lines(total_lines(total as int)),
{
    let mut out = String::new();
    push_line(&mut out, "========================================");
    out.append("TOTAL: Rp ");
    let t = format_currency(total);
    out.append(t.as_str());
    push_char(&mut out, '\n');
    push_line(&mut out, "========================================");
    push_line(&mut out, "");
    proof {
        reveal_strlit("");
        lemma_join4(
            sep_heavy(),
            "TOTAL: Rp "@ + currency_rep(total as int),
            sep_heavy(),
            Seq::empty(),
        );
        assert(out@ =~= join_lines(total_lines(total as int)));
    }
    out
}

fn render_footer(doc: &ReceiptData) -> (r: String)
    ensures
        r@ == join_lines(footer_lines(*doc)),
{
    let mut out = String::new();
    push_line(&mut out, "Terima kasih atas kepercayaan Anda!");
    out.append("Barang siap: ");
    out.append(doc.estimated_completion.as_str());
    push_char(&mut out, '\n');
    proof {
        lemma_join2(
            "Terima kasih atas kepercayaan Anda!"@,
            "Barang siap: "@ + doc.estimated_completion@,
        );
        assert(out@ =~= join_lines(footer_lines(*doc)));
    }
    out
}

/// Renders the full fixed-width text receipt for `doc`, headed by the store
/// identity in `profile`. The result is exactly the lines of
/// [`text_lines`], each terminated by a newline.
pub fn format_receipt_text(profile: &StoreProfile, doc: &ReceiptData) -> (r: String)
    ensures
        r@ == join_lines(text_lines(*profile, *doc)),
{
    let mut out = render_header(profile);
    let d = render_details(doc);
    out.append(d.as_str());
    let it = render_items(&doc.items);
    out.append(it.as_str());
    let t = render_total(doc.total);
    out.append(t.as_str());
    let f = render_footer(doc);
    out.append(f.as_str());
    proof {
        let h = header_lines(*profile);
        let dd = detail_lines(*doc);
        let ii = items_lines(doc.items@);
        let tt = total_lines(doc.total as int);
        let ff = footer_lines(*doc);
        lemma_join_concat(h, dd);
        lemma_join_concat(h + dd, ii);
        lemma_join_concat(h + dd + ii, tt);
        lemma_join_concat(h + dd + ii + tt, ff);
        assert(out@ =~= join_lines(text_lines(*profile, *doc)));
    }
    out
}

/// Every line occurs contiguously in the joined text.
pub proof fn lemma_join_contains_line(ls: Seq<Seq<char>>, i: int)
    requires
        0 <= i < ls.len(),
    ensures
        crate::containment::contains_seq(join_lines(ls), ls[i]),
    decreases ls.len(),
{
    if i == ls.len() - 1 {
        crate::containment::lemma_contains_here(join_lines(ls.drop_last()), ls.last(), seq!['\n']);
    } else {
        lemma_join_contains_line(ls.drop_last(), i);
        crate::containment::lemma_contains_extend_right(
            join_lines(ls.drop_last()),
            ls.last(),
            ls[i],
        );
        crate::containment::lemma_contains_extend_right(
            join_lines(ls.drop_last()) + ls.last(),
            seq!['\n'],
            ls[i],
        );
    }
}

/// True when `l` is the grand-total line.
pub open spec fn is_total_line(l: Seq<char>) -> bool {
    l.len() >= 10 && l.take(10) == "TOTAL: Rp "@
}

proof fn lemma_spaces(n: nat)
    ensures
        spaces(n).len() == n,
        forall|i: int| 0 <= i < n ==> spaces(n)[i] == ' ',
    decreases n,
{
    if n > 0 {
        lemma_spaces((n - 1) as nat);
    }
}

pub proof fn lemma_items_lines_len(s: Seq<ReceiptItem>)
    ensures
        items_lines(s).len() == 3 * s.len(),
    decreases s.len(),
{
    if s.len() > 0 {
        lemma_items_lines_len(s.drop_first());
    }
}

proof fn lemma_items_lines_index(s: Seq<ReceiptItem>, k: int)
    requires
        0 <= k < s.len(),
    ensures
        items_lines(s)[3 * k] == s[k].service@,
        items_lines(s)[3 * k + 1] == amount_line(s[k]),
        items_lines(s)[3 * k + 2] =~= Seq::<char>::empty(),
    decreases k,
{
    lemma_items_lines_len(s.drop_first());
    if k == 0 {
        assert(items_lines(s)[0] == item_lines(s[0])[0]);
        assert(items_lines(s)[1] == item_lines(s[0])[1]);
        assert(items_lines(s)[2] == item_lines(s[0])[2]);
    } else {
        lemma_items_lines_index(s.drop_first(), k - 1);
        assert(s.drop_first()[k - 1] == s[k]);
        assert(items_lines(s)[3 * k] == items_lines(s.drop_first())[3 * (k - 1)]);
        assert(items_lines(s)[3 * k + 1] == items_lines(s.drop_first())[3 * (k - 1) + 1]);
        assert(items_lines(s)[3 * k + 2] == items_lines(s.drop_first())[3 * (k - 1) + 2]);
    }
}

/// A receipt with N line items renders exactly N item blocks, in item order:
/// line `10 + 3k` of the receipt is the service name of item `k` and the
/// line after it is that item's quantity line.
pub proof fn lemma_items_render_in_order(p: StoreProfile, doc: ReceiptData)
    ensures
        text_lines(p, doc).len() == 16 + 3 * doc.items@.len(),
        forall|k: int|
            0 <= k < doc.items@.len() ==> text_lines(p, doc)[10 + 3 * k]
                == doc.items@[k].service@,
        forall|k: int|
            0 <= k < doc.items@.len() ==> text_lines(p, doc)[11 + 3 * k] == amount_line(
                doc.items@[k],
            ),
{
    lemma_items_lines_len(doc.items@);
    let tl = text_lines(p, doc);
    let n = doc.items@.len() as int;
    assert forall|k: int| 0 <= k < n implies tl[10 + 3 * k] == doc.items@[k].service@ && tl[11 + 3
        * k] == amount_line(doc.items@[k]) by {
        lemma_items_lines_index(doc.items@, k);
        assert(tl[10 + 3 * k] == items_lines(doc.items@)[3 * k]);
        assert(tl[11 + 3 * k] == items_lines(doc.items@)[3 * k + 1]);
    }
}

/// A receipt with no line items still carries the header, the order details,
/// the total block and the footer — and the total line stands exactly once,
/// as line 11. The newline-free premises make the spec-level lines the
/// physical lines of the rendered text.
pub proof fn lemma_empty_items_layout(p: StoreProfile, doc: ReceiptData)
    requires
        doc.items@.len() == 0,
        p.wf(),
        line_free(doc.order_number@),
        line_free(doc.date@),
        line_free(doc.customer_name@),
        line_free(doc.estimated_completion@),
    ensures
        text_lines(p, doc) == header_lines(p) + detail_lines(doc) + total_lines(doc.total as int)
            + footer_lines(doc),
        text_lines(p, doc).len() == 16,
        is_total_line(text_lines(p, doc)[11]),
        forall|j: int|
            0 <= j < text_lines(p, doc).len() && j != 11 ==> !is_total_line(
                #[trigger] text_lines(p, doc)[j],
            ),
{
    let pat = "TOTAL: Rp "@;
    reveal_strlit("TOTAL: Rp ");
    reveal_strlit("========================================");
    reveal_strlit("No. Order    : ");
    reveal_strlit("Tanggal      : ");
    reveal_strlit("Customer     : ");
    reveal_strlit("----------------------------------------");
    reveal_strlit("Terima kasih atas kepercayaan Anda!");
    reveal_strlit("Barang siap: ");
    assert(pat.len() == 10 && pat[0] == 'T' && pat[1] == 'O');
    assert(items_lines(doc.items@) =~= Seq::<Seq<char>>::empty());
    let tl = text_lines(p, doc);
    assert(tl =~= header_lines(p) + detail_lines(doc) + total_lines(doc.total as int)
        + footer_lines(doc));
    assert(tl.len() == 16);

    // The total line itself.
    let total = pat + crate::currency::currency_rep(doc.total as int);
    assert(tl[11] == total);
    assert(total.take(10) =~= pat);

    // Every other line differs from the total line within its first two
    // characters (or is shorter than the total prefix).
    lemma_spaces(((41 - p.name@.len()) / 2) as nat);
    lemma_spaces(((41 - p.address@.len()) / 2) as nat);
    lemma_spaces(((41 - p.phone@.len()) / 2) as nat);
    assert(center40(p.name@)[0] == ' ');
    assert(center40(p.address@)[0] == ' ');
    assert(center40(p.phone@)[0] == ' ');
    assert forall|j: int| 0 <= j < tl.len() && j != 11 implies !is_total_line(
        #[trigger] tl[j],
    ) by {
        let l = tl[j];
        if l.len() >= 10 && l.take(10) == pat {
            assert(l[0] == l.take(10)[0] && l[0] == 'T');
            assert(l[1] == l.take(10)[1] && l[1] == 'O');
            assert(false);
        }
    }
}

} // verus!
