//! Decimal rendering of integers, used when a numeric bound becomes a SQL
//! parameter value or a placeholder number in the statement text.

use vstd::prelude::*;

verus! {

/// The decimal digit character for `d`.
pub open spec fn dec_digit(d: int) -> char {
    if d == 0 { '0' }
    else if d == 1 { '1' }
    else if d == 2 { '2' }
    else if d == 3 { '3' }
    else if d == 4 { '4' }
    else if d == 5 { '5' }
    else if d == 6 { '6' }
    else if d == 7 { '7' }
    else if d == 8 { '8' }
    else { '9' }
}

/// The decimal digit string of a non-negative integer, most significant
/// digit first.
pub open spec fn dec_rep_nat(n: int) -> Seq<char>
    decreases n,
{
    if n < 10 {
        seq![dec_digit(n)]
    } else {
        dec_rep_nat(n / 10) + seq![dec_digit(n % 10)]
    }
}

/// The decimal string of an integer, with a leading minus sign when it is
/// negative.
pub open spec fn dec_rep(n: int) -> Seq<char> {
    if n < 0 {
        seq!['-'] + dec_rep_nat(-n)
    } else {
        dec_rep_nat(n)
    }
}

/// Appends the decimal digit character for `d` to `out`.
fn append_digit(out: &mut String, d: u64)
    requires
        d < 10,
    ensures
        final(out)@ == old(out)@ + seq![dec_digit(d as int)],
{
    proof {
        reveal_strlit("0");
        reveal_strlit("1");
        reveal_strlit("2");
        reveal_strlit("3");
        reveal_strlit("4");
        reveal_strlit("5");
        reveal_strlit("6");
        reveal_strlit("7");
        reveal_strlit("8");
        reveal_strlit("9");
    }
    match d {
        0 => out.append("0"),
        1 => out.append("1"),
        2 => out.append("2"),
        3 => out.append("3"),
        4 => out.append("4"),
        5 => out.append("5"),
        6 => out.append("6"),
        7 => out.append("7"),
        8 => out.append("8"),
        _ => out.append("9"),
    }
    assert(final(out)@ =~= old(out)@ + seq![dec_digit(d as int)]);
}

/// Appends the decimal digits of `n` to `out`, most significant first.
pub fn append_dec_u64(out: &mut String, n: u64)
    ensures
        final(out)@ == old(out)@ + dec_rep_nat(n as int),
    decreases n,
{
    if n < 10 {
        append_digit(out, n);
    } else {
        append_dec_u64(out, n / 10);
        append_digit(out, n % 10);
        assert(final(out)@ =~= old(out)@ + dec_rep_nat(n as int));
    }
}

/// Appends the decimal string of `n` to `out`, with a minus sign first
/// when `n` is negative.
pub fn append_dec_i64(out: &mut String, n: i64)
    ensures
        final(out)@ == old(out)@ + dec_rep(n as int),
{
    if n < 0 {
        proof {
            reveal_strlit("-");
        }
        out.append("-");
        let m: u64 = if n == i64::MIN {
            9223372036854775808u64
        } else {
            (-n) as u64
        };
        assert(m == -(n as int));
        append_dec_u64(out, m);
        assert(final(out)@ =~= old(out)@ + dec_rep(n as int));
    } else {
        append_dec_u64(out, n as u64);
    }
}

/// The decimal string of `n` as an owned `String`.
pub fn i64_to_string(n: i64) -> (r: String)
    ensures
        r@ == dec_rep(n as int),
{
    let mut out = String::new();
    append_dec_i64(&mut out, n);
    assert(out@ =~= dec_rep(n as int));
    out
}

/// The decimal string of `n` as an owned `String`.
pub fn u64_to_string(n: u64) -> (r: String)
    ensures
        r@ == dec_rep(n as int),
{
    let mut out = String::new();
    append_dec_u64(&mut out, n);
    assert(out@ =~= dec_rep(n as int));
    out
}

} // verus!
