//! Decimal rendering of integers, used by the assembly printer.

use vstd::prelude::*;
use vstd::string::StringExecFns;

verus! {

/// The decimal digit character for `d` (last digit for `d >= 10`).
pub open spec fn digit_char(d: nat) -> char {
    if d == 0 {
        '0'
    } else if d == 1 {
        '1'
    } else if d == 2 {
        '2'
    } else if d == 3 {
        '3'
    } else if d == 4 {
        '4'
    } else if d == 5 {
        '5'
    } else if d == 6 {
        '6'
    } else if d == 7 {
        '7'
    } else if d == 8 {
        '8'
    } else {
        '9'
    }
}

/// Decimal text of a natural number, most significant digit first,
/// without leading zeros (a single `'0'` for zero).
pub open spec fn spec_dec_nat(n: nat) -> Seq<char>
    decreases n,
{
    if n < 10 {
        seq![digit_char(n)]
    } else {
        spec_dec_nat(n / 10).push(digit_char(n % 10))
    }
}

/// Decimal text of an integer: a minus sign before the magnitude for
/// negative values.
pub open spec fn spec_dec_int(v: int) -> Seq<char> {
    if v < 0 {
        seq!['-'] + spec_dec_nat((-v) as nat)
    } else {
        spec_dec_nat(v as nat)
    }
}

/// One-character string for the digit `d`.
fn digit_str(d: u64) -> (s: &'static str)
    requires
        d < 10,
    ensures
        s@ == seq![digit_char(d as nat)],
{
    if d == 0 {
        proof { reveal_strlit("0"); }
        let s = "0";
        assert(s@ =~= seq![digit_char(d as nat)]);
        s
    } else if d == 1 {
        proof { reveal_strlit("1"); }
        let s = "1";
        assert(s@ =~= seq![digit_char(d as nat)]);
        s
    } else if d == 2 {
        proof { reveal_strlit("2"); }
        let s = "2";
        assert(s@ =~= seq![digit_char(d as nat)]);
        s
    } else if d == 3 {
        proof { reveal_strlit("3"); }
        let s = "3";
        assert(s@ =~= seq![digit_char(d as nat)]);
        s
    } else if d == 4 {
        proof { reveal_strlit("4"); }
        let s = "4";
        assert(s@ =~= seq![digit_char(d as nat)]);
        s
    } else if d == 5 {
        proof { reveal_strlit("5"); }
        let s = "5";
        assert(s@ =~= seq![digit_char(d as nat)]);
        s
    } else if d == 6 {
        proof { reveal_strlit("6"); }
        let s = "6";
        assert(s@ =~= seq![digit_char(d as nat)]);
        s
    } else if d == 7 {
        proof { reveal_strlit("7"); }
        let s = "7";
        assert(s@ =~= seq![digit_char(d as nat)]);
        s
    } else if d == 8 {
        proof { reveal_strlit("8"); }
        let s = "8";
        assert(s@ =~= seq![digit_char(d as nat)]);
        s
    } else {
        proof { reveal_strlit("9"); }
        let s = "9";
        assert(s@ =~= seq![digit_char(d as nat)]);
        s
    }
}

/// Appends the decimal text of `n` to `out`.
pub fn push_dec_u64(out: &mut String, n: u64)
    ensures
        final(out)@ == old(out)@ + spec_dec_nat(n as nat),
    decreases n,
{
    if n >= 10 {
        push_dec_u64(out, n / 10);
        let s = digit_str(n % 10);
        out.append(s);
        proof {
            assert(out@ =~= old(out)@ + spec_dec_nat(n as nat));
        }
    } else {
        let s = digit_str(n);
        out.append(s);
    }
}

/// Appends the decimal text of the signed value `v` to `out`.
pub fn push_dec_i64(out: &mut String, v: i64)
    ensures
        final(out)@ == old(out)@ + spec_dec_int(v as int),
{
    if v < 0 {
        proof { reveal_strlit("-"); }
        out.append("-");
        let mag: u64 = ((-1 - v) as u64) + 1;
        assert(mag as int == -(v as int));
        push_dec_u64(out, mag);
        proof {
            assert(out@ =~= old(out)@ + spec_dec_int(v as int));
        }
    } else {
        push_dec_u64(out, v as u64);
    }
}

} // verus!
