//! Decimal rendering of the integers that appear as query-parameter values,
//! so that a plan's query string is pinned character by character.

use vstd::prelude::*;

verus! {

/// The decimal digit character for one digit value.
pub open spec fn spec_digit_char(d: nat) -> char {
    ((48 + d) as u8) as char
}

/// The decimal rendering of a non-negative integer, most significant digit
/// first, with no leading zeros (zero itself renders as one digit).
pub open spec fn spec_decimal_nat(n: nat) -> Seq<char>
    decreases n,
{
    if n < 10 {
        seq![spec_digit_char(n)]
    } else {
        spec_decimal_nat(n / 10).push(spec_digit_char(n % 10))
    }
}

/// The decimal rendering of an integer: a leading minus sign for negative
/// values, then the magnitude's digits.
pub open spec fn spec_decimal_int(n: int) -> Seq<char> {
    if n >= 0 {
        spec_decimal_nat(n as nat)
    } else {
        seq!['-'] + spec_decimal_nat((-n) as nat)
    }
}

/// Appends the digit character for one digit value.
fn push_digit(s: &mut String, d: u64)
    requires
        d < 10,
    ensures
        final(s)@ == old(s)@ + seq![spec_digit_char(d as nat)],
{
    proof {
        reveal_strlit("0");
        reveal_strlit("1");
        reveal_strlit("2");
        reveal_strlit("3");
        reveal_strlit("4");
        reveal_strlit("5");
        reveal_strlit("6");
        reveal_strlit("7");
        reveal_strlit("8");
        reveal_strlit("9");
    }
    match d {
        0 => s.append("0"),
        1 => s.append("1"),
        2 => s.append("2"),
        3 => s.append("3"),
        4 => s.append("4"),
        5 => s.append("5"),
        6 => s.append("6"),
        7 => s.append("7"),
        8 => s.append("8"),
        _ => s.append("9"),
    }
    proof {
        assert(s@ =~= old(s)@ + seq![spec_digit_char(d as nat)]);
    }
}

/// Appends the decimal rendering of a non-negative integer.
fn append_decimal_u64(s: &mut String, n: u64)
    ensures
        final(s)@ == old(s)@ + spec_decimal_nat(n as nat),
    decreases n,
{
    if n < 10 {
        push_digit(s, n);
    } else {
        append_decimal_u64(s, n / 10);
        push_digit(s, n % 10);
        proof {
            assert(s@ =~= old(s)@ + spec_decimal_nat(n as nat));
        }
    }
}

/// Renders an integer in decimal.
pub fn i32_to_decimal(n: i32) -> (r: String)
    ensures
        r@ == spec_decimal_int(n as int),
{
    let mut s = String::new();
    if n >= 0 {
        append_decimal_u64(&mut s, n as u64);
    } else {
        s.append("-");
        proof {
            reveal_strlit("-");
            assert(s@ =~= seq!['-']);
        }
        let magnitude: u64 = (-(n as i64)) as u64;
        append_decimal_u64(&mut s, magnitude);
    }
    s
}

} // verus!
