//! Currency and weight formatting.
//!
//! Amounts are whole currency units (Indonesian Rupiah). A formatted amount
//! carries no decimals and groups digits in threes with `.` as the group
//! separator, e.g. `1500000` renders as `"1.500.000"`. Negative amounts get a
//! leading `-` and the same grouping. Fractional amounts do not exist in this
//! model: callers that hold fractional input round it to a whole unit before
//! calling in.

use vstd::prelude::*;
use crate::strutil::push_char;

verus! {

/// The decimal digit character for `d` (only meaningful for `d < 10`).
pub open spec fn spec_digit_char(d: nat) -> char {
    if d == 0 {
        '0'
    } else if d == 1 {
        '1'
    } else if d == 2 {
        '2'
    } else if d == 3 {
        '3'
    } else if d == 4 {
        '4'
    } else if d == 5 {
        '5'
    } else if d == 6 {
        '6'
    } else if d == 7 {
        '7'
    } else if d == 8 {
        '8'
    } else {
        '9'
    }
}

/// The numeric value of a decimal digit character; 0 for anything else.
pub open spec fn digit_val(c: char) -> nat {
    if c == '0' {
        0
    } else if c == '1' {
        1
    } else if c == '2' {
        2
    } else if c == '3' {
        3
    } else if c == '4' {
        4
    } else if c == '5' {
        5
    } else if c == '6' {
        6
    } else if c == '7' {
        7
    } else if c == '8' {
        8
    } else if c == '9' {
        9
    } else {
        0
    }
}

/// The plain decimal representation of `n`, most significant digit first,
/// without separators and without leading zeros (zero itself is `"0"`).
pub open spec fn dec_rep(n: nat) -> Seq<char>
    decreases n,
{
    if n < 10 {
        seq![spec_digit_char(n)]
    } else {
        dec_rep(n / 10).push(spec_digit_char(n % 10))
    }
}

/// `ds` with a `.` inserted before every group of three digits, counting from
/// the right.
pub open spec fn grouped(ds: Seq<char>) -> Seq<char>
    decreases ds.len(),
{
    if ds.len() <= 3 {
        ds
    } else {
        grouped(ds.take(ds.len() - 3)) + seq!['.'] + ds.skip(ds.len() - 3)
    }
}

/// What `format_currency` renders for `amount`.
pub open spec fn currency_rep(amount: int) -> Seq<char> {
    if amount < 0 {
        seq!['-'] + grouped(dec_rep((-amount) as nat))
    } else {
        grouped(dec_rep(amount as nat))
    }
}

/// What `format_weight` renders for a weight given in tenths of a kilogram:
/// the whole kilograms, and the tenths digit only when it is non-zero.
pub open spec fn weight_rep(tenths: nat) -> Seq<char> {
    if tenths % 10 == 0 {
        dec_rep(tenths / 10)
    } else {
        dec_rep(tenths / 10) + seq!['.', spec_digit_char(tenths % 10)]
    }
}

/// The numeric value of a digit string, most significant digit first.
pub open spec fn seq_val(ds: Seq<char>) -> nat
    decreases ds.len(),
{
    if ds.len() == 0 {
        0
    } else {
        seq_val(ds.drop_last()) * 10 + digit_val(ds.last())
    }
}

/// `s` with every group separator `.` removed.
pub open spec fn strip_separators(s: Seq<char>) -> Seq<char>
    decreases s.len(),
{
    if s.len() == 0 {
        Seq::empty()
    } else {
        strip_separators(s.drop_last()) + (if s.last() == '.' {
            Seq::<char>::empty()
        } else {
            seq![s.last()]
        })
    }
}

/// True when every character of `ds` is a decimal digit.
pub open spec fn all_digits(ds: Seq<char>) -> bool {
    forall|i: int| 0 <= i < ds.len() ==> digit_val(#[trigger] ds[i]) < 10 && ds[i] != '.'
}

fn digit_char(d: u64) -> (c: char)
    requires
        d < 10,
    ensures
        c == spec_digit_char(d as nat),
{
    match d {
        0 => '0',
        1 => '1',
        2 => '2',
        3 => '3',
        4 => '4',
        5 => '5',
        6 => '6',
        7 => '7',
        8 => '8',
        _ => '9',
    }
}

pub(crate) fn push_digits(out: &mut String, n: u128)
    ensures
        final(out)@ == old(out)@ + dec_rep(n as nat),
    decreases n,
{
    if n >= 10 {
        push_digits(out, n / 10);
    }
    let c = digit_char((n % 10) as u64);
    push_char(out, c);
    proof {
        if n < 10 {
            assert(out@ =~= old(out)@ + dec_rep(n as nat));
        } else {
            assert(out@ =~= old(out)@ + dec_rep(n as nat));
        }
    }
}

proof fn lemma_dec_rep_len(n: nat)
    ensures
        dec_rep(n).len() >= 1,
        n < 10 ==> dec_rep(n).len() == 1,
        10 <= n < 100 ==> dec_rep(n).len() == 2,
        100 <= n < 1000 ==> dec_rep(n).len() == 3,
        n >= 1000 ==> dec_rep(n).len() >= 4,
    decreases n,
{
    if n >= 10 {
        lemma_dec_rep_len(n / 10);
    }
}

/// For `n >= 1000` the digit string splits into the digits of `n / 1000`
/// followed by the three low digits, so grouping recurses on `n / 1000`.
proof fn lemma_grouped_step(n: nat)
    requires
        n >= 1000,
    ensures
        grouped(dec_rep(n)) == grouped(dec_rep(n / 1000)) + seq!['.'] + seq![
            spec_digit_char((n / 100) % 10),
            spec_digit_char((n / 10) % 10),
            spec_digit_char(n % 10),
        ],
{
    let low3 = seq![
        spec_digit_char((n / 100) % 10),
        spec_digit_char((n / 10) % 10),
        spec_digit_char(n % 10),
    ];
    assert(n / 10 / 10 == n / 100) by (nonlinear_arith);
    assert(n / 100 / 10 == n / 1000) by (nonlinear_arith);
    assert(n / 10 >= 10 && n / 100 >= 10) by (nonlinear_arith)
        requires
            n >= 1000,
    ;
    assert(dec_rep(n) == dec_rep(n / 10).push(spec_digit_char(n % 10)));
    assert(dec_rep(n / 10) == dec_rep(n / 100).push(spec_digit_char((n / 10) % 10)));
    assert(dec_rep(n / 100) == dec_rep(n / 1000).push(spec_digit_char((n / 100) % 10)));
    assert(dec_rep(n) =~= dec_rep(n / 1000) + low3);
    lemma_dec_rep_len(n / 1000);
    lemma_dec_rep_len(n);
    let ds = dec_rep(n);
    assert(ds.take(ds.len() - 3) =~= dec_rep(n / 1000));
    assert(ds.skip(ds.len() - 3) =~= low3);
}

pub(crate) fn push_grouped(out: &mut String, n: u128)
    ensures
        final(out)@ == old(out)@ + grouped(dec_rep(n as nat)),
    decreases n,
{
    if n < 1000 {
        push_digits(out, n);
        proof {
            lemma_dec_rep_len(n as nat);
        }
    } else {
        push_grouped(out, n / 1000);
        push_char(out, '.');
        let m = (n % 1000) as u64;
        proof {
            let nn = n as nat;
            assert((nn / 100) % 10 == (nn % 1000) / 100) by (nonlinear_arith);
            assert((nn / 10) % 10 == ((nn % 1000) / 10) % 10) by (nonlinear_arith);
            assert(nn % 10 == (nn % 1000) % 10) by (nonlinear_arith);
        }
        push_char(out, digit_char(m / 100));
        push_char(out, digit_char((m / 10) % 10));
        push_char(out, digit_char(m % 10));
        proof {
            lemma_grouped_step(n as nat);
            assert(out@ =~= old(out)@ + grouped(dec_rep(n as nat)));
        }
    }
}

/// Renders `amount` with zero decimals and `.` as the digit-group separator;
/// a negative amount gets a leading `-`.
pub fn format_currency(amount: i64) -> (r: String)
    ensures
        r@ == currency_rep(amount as int),
{
    let mut out = String::new();
    if amount < 0 {
        push_char(&mut out, '-');
        let mag: u128 = (-(amount as i128)) as u128;
        push_grouped(&mut out, mag);
        proof {
            assert(out@ =~= currency_rep(amount as int));
        }
    } else {
        push_grouped(&mut out, amount as u128);
    }
    out
}

/// Renders a weight given in tenths of a kilogram, omitting the fraction when
/// the weight is whole, e.g. `35` renders as `"3.5"` and `30` as `"3"`.
pub fn format_weight(tenths: u64) -> (r: String)
    ensures
        r@ == weight_rep(tenths as nat),
{
    let mut out = String::new();
    push_digits(&mut out, (tenths / 10) as u128);
    if tenths % 10 != 0 {
        push_char(&mut out, '.');
        push_char(&mut out, digit_char(tenths % 10));
        proof {
            assert(out@ =~= weight_rep(tenths as nat));
        }
    }
    out
}

proof fn lemma_strip_concat(a: Seq<char>, b: Seq<char>)
    ensures
        strip_separators(a + b) == strip_separators(a) + strip_separators(b),
    decreases b.len(),
{
    if b.len() == 0 {
        assert(a + b =~= a);
        assert(strip_separators(a) + strip_separators(b) =~= strip_separators(a));
    } else {
        assert((a + b).drop_last() =~= a + b.drop_last());
        assert((a + b).last() == b.last());
        lemma_strip_concat(a, b.drop_last());
        assert(strip_separators(a + b) =~= strip_separators(a) + strip_separators(b));
    }
}

proof fn lemma_strip_all_digits(ds: Seq<char>)
    requires
        all_digits(ds),
    ensures
        strip_separators(ds) == ds,
    decreases ds.len(),
{
    if ds.len() > 0 {
        lemma_strip_all_digits(ds.drop_last());
        assert(strip_separators(ds) =~= ds);
    }
}

proof fn lemma_dec_rep_all_digits(n: nat)
    ensures
        all_digits(dec_rep(n)),
    decreases n,
{
    if n >= 10 {
        lemma_dec_rep_all_digits(n / 10);
        assert(digit_val(spec_digit_char(n % 10)) < 10 && spec_digit_char(n % 10) != '.');
        assert(all_digits(dec_rep(n)));
    }
}

proof fn lemma_strip_grouped(ds: Seq<char>)
    requires
        all_digits(ds),
    ensures
        strip_separators(grouped(ds)) == ds,
    decreases ds.len(),
{
    if ds.len() <= 3 {
        lemma_strip_all_digits(ds);
    } else {
        let hi = ds.take(ds.len() - 3);
        let lo = ds.skip(ds.len() - 3);
        assert(all_digits(hi));
        assert(all_digits(lo));
        lemma_strip_grouped(hi);
        lemma_strip_concat(grouped(hi) + seq!['.'], lo);
        lemma_strip_concat(grouped(hi), seq!['.']);
        assert(seq!['.'].drop_last() =~= Seq::<char>::empty());
        assert(strip_separators(Seq::<char>::empty()) =~= Seq::<char>::empty());
        assert(strip_separators(seq!['.']) =~= Seq::<char>::empty());
        lemma_strip_all_digits(lo);
        assert(strip_separators(grouped(ds)) =~= hi + lo);
        assert(hi + lo =~= ds);
    }
}

proof fn lemma_seq_val_dec_rep(n: nat)
    ensures
        seq_val(dec_rep(n)) == n,
    decreases n,
{
    if n < 10 {
        assert(seq![spec_digit_char(n)].drop_last() =~= Seq::<char>::empty());
        assert(seq_val(Seq::<char>::empty()) == 0);
        assert(digit_val(spec_digit_char(n)) == n);
    } else {
        lemma_seq_val_dec_rep(n / 10);
        let ds = dec_rep(n);
        assert(ds.drop_last() =~= dec_rep(n / 10));
        assert(digit_val(spec_digit_char(n % 10)) == n % 10);
        assert(seq_val(ds) == (n / 10) * 10 + n % 10);
        assert((n / 10) * 10 + n % 10 == n) by (nonlinear_arith);
    }
}

/// Reading a formatted non-negative amount back — dropping the group
/// separators and taking the digits' value — yields the amount itself.
pub proof fn lemma_currency_round_trip(amount: int)
    requires
        0 <= amount,
    ensures
        seq_val(strip_separators(currency_rep(amount))) == amount,
{
    lemma_dec_rep_all_digits(amount as nat);
    lemma_strip_grouped(dec_rep(amount as nat));
    lemma_seq_val_dec_rep(amount as nat);
}

} // verus!
