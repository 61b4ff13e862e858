//! Decimal text for unsigned integers, optionally zero-padded to a width.
use vstd::prelude::*;

verus! {

/// The ASCII digit for a value below ten.
pub open spec fn digit_char(d: nat) -> char {
    if d == 0 {
        '0'
    } else if d == 1 {
        '1'
    } else if d == 2 {
        '2'
    } else if d == 3 {
        '3'
    } else if d == 4 {
        '4'
    } else if d == 5 {
        '5'
    } else if d == 6 {
        '6'
    } else if d == 7 {
        '7'
    } else if d == 8 {
        '8'
    } else {
        '9'
    }
}

/// Decimal digits of `n`, most significant first, with leading zeros added
/// until there are at least `width` digits.
pub open spec fn padded(n: nat, width: nat) -> Seq<char>
    decreases n + width,
{
    if n < 10 && width <= 1 {
        seq![digit_char(n)]
    } else {
        padded(n / 10, if width > 0 { (width - 1) as nat } else { 0 }) + seq![digit_char(n % 10)]
    }
}

/// Decimal digits of `n` without leading zeros (`0` is written as one digit).
pub open spec fn decimal(n: nat) -> Seq<char> {
    padded(n, 1)
}

/// A number above zero is written without a leading zero.
pub proof fn lemma_no_leading_zero(n: nat, width: nat)
    requires
        n > 0,
        width <= 1,
    ensures
        padded(n, width).len() > 0,
        padded(n, width)[0] != '0',
    decreases n,
{
    if n < 10 {
    } else {
        lemma_no_leading_zero(n / 10, 0);
        lemma_padded_nonempty(n / 10, 0);
    }
}

proof fn lemma_padded_nonempty(n: nat, width: nat)
    ensures
        padded(n, width).len() >= 1,
    decreases n + width,
{
    if n < 10 && width <= 1 {
    } else {
        lemma_padded_nonempty(n / 10, if width > 0 { (width - 1) as nat } else { 0 });
    }
}

fn digit_text(d: usize) -> (r: String)
    requires
        d < 10,
    ensures
        r@ == seq![digit_char(d as nat)],
{
    let lit = if d == 0 {
        proof { reveal_strlit("0"); }
        "0"
    } else if d == 1 {
        proof { reveal_strlit("1"); }
        "1"
    } else if d == 2 {
        proof { reveal_strlit("2"); }
        "2"
    } else if d == 3 {
        proof { reveal_strlit("3"); }
        "3"
    } else if d == 4 {
        proof { reveal_strlit("4"); }
        "4"
    } else if d == 5 {
        proof { reveal_strlit("5"); }
        "5"
    } else if d == 6 {
        proof { reveal_strlit("6"); }
        "6"
    } else if d == 7 {
        proof { reveal_strlit("7"); }
        "7"
    } else if d == 8 {
        proof { reveal_strlit("8"); }
        "8"
    } else {
        proof { reveal_strlit("9"); }
        "9"
    };
    let r = String::from_str(lit);
    assert(r@ =~= seq![digit_char(d as nat)]);
    r
}

/// Appends the digits of `n`, zero-padded to at least `width` digits.
pub fn append_padded(out: &mut String, n: usize, width: usize)
    ensures
        final(out)@ == old(out)@ + padded(n as nat, width as nat),
    decreases n + width,
{
    if n < 10 && width <= 1 {
        let d = digit_text(n);
        out.append(d.as_str());
    } else {
        let w: usize = if width > 0 { width - 1 } else { 0 };
        append_padded(out, n / 10, w);
        let d = digit_text(n % 10);
        out.append(d.as_str());
        assert(final(out)@ =~= old(out)@ + padded(n as nat, width as nat));
    }
}

/// Appends the decimal digits of `n`, with no leading zeros.
pub fn append_decimal(out: &mut String, n: usize)
    ensures
        final(out)@ == old(out)@ + decimal(n as nat),
{
    append_padded(out, n, 1);
}

} // verus!
