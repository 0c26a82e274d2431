use vstd::prelude::*;
use vstd::string::StringExecFns;

verus! {

/// Appends one character to a string (`String::push`).
#[verifier::external_body]
pub(crate) fn push_char(s: &mut String, c: char)
    ensures
        final(s)@ == old(s)@.push(c),
{
    s.push(c);
}

/// Appends a string slice to a string.
pub(crate) fn push_str(s: &mut String, t: &str)
    ensures
        final(s)@ == old(s)@ + t@,
{
    s.append(t);
}

/// The character of a digit below 16: `0`-`9`, then `A`-`F`.
pub open spec fn spec_digit_char(d: nat) -> char {
    if d == 0 {
        '0'
    } else if d == 1 {
        '1'
    } else if d == 2 {
        '2'
    } else if d == 3 {
        '3'
    } else if d == 4 {
        '4'
    } else if d == 5 {
        '5'
    } else if d == 6 {
        '6'
    } else if d == 7 {
        '7'
    } else if d == 8 {
        '8'
    } else if d == 9 {
        '9'
    } else if d == 10 {
        'A'
    } else if d == 11 {
        'B'
    } else if d == 12 {
        'C'
    } else if d == 13 {
        'D'
    } else if d == 14 {
        'E'
    } else {
        'F'
    }
}

/// The decimal digits of `v`, most significant first, without leading zeros.
pub open spec fn spec_decimal(v: nat) -> Seq<char>
    decreases v,
{
    if v < 10 {
        seq![spec_digit_char(v)]
    } else {
        spec_decimal(v / 10).push(spec_digit_char(v % 10))
    }
}

/// The low `n` hexadecimal digits of `v`, most significant first.
pub open spec fn spec_hex_digits(v: nat, n: nat) -> Seq<char>
    decreases n,
{
    if n == 0 {
        seq![]
    } else {
        spec_hex_digits(v / 16, (n - 1) as nat).push(spec_digit_char(v % 16))
    }
}

fn digit_char(d: u64) -> (r: char)
    requires
        d < 16,
    ensures
        r == spec_digit_char(d as nat),
{
    if d == 0 {
        '0'
    } else if d == 1 {
        '1'
    } else if d == 2 {
        '2'
    } else if d == 3 {
        '3'
    } else if d == 4 {
        '4'
    } else if d == 5 {
        '5'
    } else if d == 6 {
        '6'
    } else if d == 7 {
        '7'
    } else if d == 8 {
        '8'
    } else if d == 9 {
        '9'
    } else if d == 10 {
        'A'
    } else if d == 11 {
        'B'
    } else if d == 12 {
        'C'
    } else if d == 13 {
        'D'
    } else if d == 14 {
        'E'
    } else {
        'F'
    }
}

/// Appends the decimal form of `v`.
pub(crate) fn push_decimal(s: &mut String, v: u64)
    ensures
        final(s)@ == old(s)@ + spec_decimal(v as nat),
    decreases v,
{
    if v >= 10 {
        push_decimal(s, v / 10);
    }
    let c = digit_char(v % 10);
    push_char(s, c);
    proof {
        assert(old(s)@ + spec_decimal(v as nat) =~= if v >= 10 {
            (old(s)@ + spec_decimal((v / 10) as nat)).push(c)
        } else {
            old(s)@.push(c)
        });
    }
}

/// Appends the low `n` hexadecimal digits of `v`, uppercase.
pub(crate) fn push_hex_digits(s: &mut String, v: u64, n: u32)
    ensures
        final(s)@ == old(s)@ + spec_hex_digits(v as nat, n as nat),
    decreases n,
{
    if n == 0 {
        assert(old(s)@ + spec_hex_digits(v as nat, 0) =~= old(s)@);
        return;
    }
    push_hex_digits(s, v / 16, n - 1);
    let c = digit_char(v % 16);
    push_char(s, c);
    proof {
        assert(old(s)@ + spec_hex_digits(v as nat, n as nat) =~= (old(s)@ + spec_hex_digits(
            (v / 16) as nat,
            (n - 1) as nat,
        )).push(c));
    }
}

} // verus!
