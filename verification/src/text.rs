//! Decimal text of integers, for the paths and addresses the crate builds.

use vstd::prelude::*;

verus! {

/// The character that writes the digit `d`.
pub open spec fn digit_char(d: int) -> char {
    if d == 0 {
        '0'
    } else if d == 1 {
        '1'
    } else if d == 2 {
        '2'
    } else if d == 3 {
        '3'
    } else if d == 4 {
        '4'
    } else if d == 5 {
        '5'
    } else if d == 6 {
        '6'
    } else if d == 7 {
        '7'
    } else if d == 8 {
        '8'
    } else {
        '9'
    }
}

/// The digits of a natural number, most significant first, without leading
/// zeros; zero is written `0`.
pub open spec fn nat_text(n: nat) -> Seq<char>
    decreases n,
{
    if n < 10 {
        seq![digit_char(n as int)]
    } else {
        nat_text(n / 10).push(digit_char((n % 10) as int))
    }
}

/// The decimal text of an integer: a minus sign for negative numbers, then
/// the digits of its magnitude.
pub open spec fn int_text(n: int) -> Seq<char> {
    if n < 0 {
        seq!['-'] + nat_text((-n) as nat)
    } else {
        nat_text(n as nat)
    }
}

/// The text of one digit, as a string slice.
fn digit_str(d: u32) -> (s: &'static str)
    requires
        d < 10,
    ensures
        s@ == seq![digit_char(d as int)],
{
    proof {
        reveal_strlit("0");
        reveal_strlit("1");
        reveal_strlit("2");
        reveal_strlit("3");
        reveal_strlit("4");
        reveal_strlit("5");
        reveal_strlit("6");
        reveal_strlit("7");
        reveal_strlit("8");
        reveal_strlit("9");
    }
    let s = if d == 0 {
        "0"
    } else if d == 1 {
        "1"
    } else if d == 2 {
        "2"
    } else if d == 3 {
        "3"
    } else if d == 4 {
        "4"
    } else if d == 5 {
        "5"
    } else if d == 6 {
        "6"
    } else if d == 7 {
        "7"
    } else if d == 8 {
        "8"
    } else {
        "9"
    };
    assert(s@ =~= seq![digit_char(d as int)]);
    s
}

/// Appends the decimal text of `n` to `out`.
pub fn append_u32(out: &mut String, n: u32)
    ensures
        final(out)@ == old(out)@ + nat_text(n as nat),
    decreases n,
{
    if n >= 10 {
        append_u32(out, n / 10);
    }
    let d = digit_str(n % 10);
    out.append(d);
    proof {
        if n >= 10 {
            assert(out@ =~= old(out)@ + nat_text((n / 10) as nat).push(digit_char((n % 10) as int)));
        } else {
            assert(out@ =~= old(out)@ + seq![digit_char(n as int)]);
        }
    }
}

/// Appends the decimal text of `n` to `out`, with a leading minus sign when
/// `n` is negative.
pub fn append_i32(out: &mut String, n: i32)
    ensures
        final(out)@ == old(out)@ + int_text(n as int),
{
    if n < 0 {
        proof {
            reveal_strlit("-");
        }
        out.append("-");
        let magnitude: u32 = (-(n as i64)) as u32;
        append_u32(out, magnitude);
        assert(out@ =~= old(out)@ + (seq!['-'] + nat_text((-(n as int)) as nat)));
    } else {
        append_u32(out, n as u32);
    }
}

} // verus!
