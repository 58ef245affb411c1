//! Temp-file naming for generated receipts.
//!
//! The order number is embedded in the artifact's file name, so it is
//! sanitized first: every character outside a conservative safe set is
//! replaced by `_` (replaced, not rejected — the receipt is still produced).
//! The safe set holds only letters, digits, `_` and `-`, so neither path
//! separators nor `.` survive and the name cannot point outside the
//! directory it is created in.

use vstd::prelude::*;
use crate::strutil::push_char;

verus! {

/// The two artifact formats a receipt can be rendered to.
#[derive(Clone, Copy, PartialEq, Eq, Structural)]
pub enum ReceiptFormat {
    Text,
    Pdf,
}

/// Characters that pass sanitization unchanged: ASCII letters, digits,
/// `_` and `-`.
pub open spec fn safe_char(c: char) -> bool {
    ('a' <= c && c <= 'z') || ('A' <= c && c <= 'Z') || ('0' <= c && c <= '9') || c == '_' || c
        == '-'
}

/// `s` with every unsafe character replaced by `_`.
pub open spec fn sanitize_rep(s: Seq<char>) -> Seq<char> {
    s.map_values(|c: char| if safe_char(c) { c } else { '_' })
}

/// The file-name extension of each format.
pub open spec fn extension_rep(fmt: ReceiptFormat) -> Seq<char> {
    match fmt {
        ReceiptFormat::Text => ".txt"@,
        ReceiptFormat::Pdf => ".pdf"@,
    }
}

/// The file name a receipt is persisted under.
pub open spec fn file_name_rep(order: Seq<char>, fmt: ReceiptFormat) -> Seq<char> {
    "receipt_"@ + sanitize_rep(order) + extension_rep(fmt)
}

/// Replaces every character of `s` outside the safe set by `_`.
pub fn sanitize_order_number(s: &str) -> (r: String)
    ensures
        r@ == sanitize_rep(s@),
{
    let n = s.unicode_len();
    let mut r = String::new();
    let mut i: usize = 0;
    while i < n
        invariant
            i <= n,
            n == s@.len(),
            r@ == sanitize_rep(s@.take(i as int)),
        decreases n - i,
    {
        let c = s.get_char(i);
        let keep = ('a' <= c && c <= 'z') || ('A' <= c && c <= 'Z') || ('0' <= c && c <= '9') || c
            == '_' || c == '-';
        if keep {
            push_char(&mut r, c);
        } else {
            push_char(&mut r, '_');
        }
        proof {
            assert(s@.take(i as int + 1).map_values(
                |c: char| if safe_char(c) { c } else { '_' },
            ) =~= s@.take(i as int).map_values(|c: char| if safe_char(c) { c } else { '_' }).push(
                if safe_char(s@[i as int]) { s@[i as int] } else { '_' },
            ));
        }
        i += 1;
    }
    proof {
        assert(s@.take(n as int) =~= s@);
    }
    r
}

/// The file name for the receipt of `order_number` in format `fmt`:
/// `receipt_{sanitized order number}{extension}`.
pub fn receipt_file_name(order_number: &str, fmt: ReceiptFormat) -> (r: String)
    ensures
        r@ == file_name_rep(order_number@, fmt),
{
    let mut r = String::from_str("receipt_");
    let s = sanitize_order_number(order_number);
    r.append(s.as_str());
    match fmt {
        ReceiptFormat::Text => r.append(".txt"),
        ReceiptFormat::Pdf => r.append(".pdf"),
    }
    proof {
        assert(r@ =~= file_name_rep(order_number@, fmt));
    }
    r
}

/// Whatever the order number holds, the derived file name carries no path
/// separator, so it cannot escape the directory it is created in.
pub proof fn lemma_file_name_stays_in_directory(order: Seq<char>, fmt: ReceiptFormat)
    ensures
        forall|i: int|
            0 <= i < file_name_rep(order, fmt).len() ==> #[trigger] file_name_rep(order, fmt)[i]
                != '/' && file_name_rep(order, fmt)[i] != '\\',
{
    reveal_strlit("receipt_");
    reveal_strlit(".txt");
    reveal_strlit(".pdf");
    let name = file_name_rep(order, fmt);
    assert forall|i: int| 0 <= i < name.len() implies #[trigger] name[i] != '/' && name[i]
        != '\\' by {
        let pre = "receipt_"@;
        let mid = sanitize_rep(order);
        if i < pre.len() {
            assert(name[i] == pre[i]);
        } else if i < pre.len() + mid.len() {
            assert(name[i] == mid[i - pre.len()]);
            assert(!safe_char('/') && !safe_char('\\'));
        } else {
            assert(name[i] == extension_rep(fmt)[i - pre.len() - mid.len()]);
        }
    }
}

} // verus!
