//! Verified decimal formatting of integers, used when a numeric environment
//! value is substituted into an argument template.

use vstd::prelude::*;

verus! {

/// The decimal digit character for `d` (0 through 9).
pub open spec fn spec_digit(d: int) -> char {
    if d == 0 {
        '0'
    } else if d == 1 {
        '1'
    } else if d == 2 {
        '2'
    } else if d == 3 {
        '3'
    } else if d == 4 {
        '4'
    } else if d == 5 {
        '5'
    } else if d == 6 {
        '6'
    } else if d == 7 {
        '7'
    } else if d == 8 {
        '8'
    } else {
        '9'
    }
}

/// The usual decimal rendering of a natural number: no leading zeroes except
/// for `0` itself.
pub open spec fn spec_nat_str(n: nat) -> Seq<char>
    decreases n,
{
    if n < 10 {
        seq![spec_digit(n as int)]
    } else {
        spec_nat_str(n / 10) + seq![spec_digit((n % 10) as int)]
    }
}

/// The literal textual form of a signed integer: a minus sign followed by the
/// decimal magnitude for negatives, the decimal form otherwise.
pub open spec fn spec_i64_str(n: int) -> Seq<char> {
    if n < 0 {
        seq!['-'] + spec_nat_str((-n) as nat)
    } else {
        spec_nat_str(n as nat)
    }
}

/// The single-character string for one decimal digit.
fn digit_str(d: u64) -> (r: &'static str)
    requires
        d < 10,
    ensures
        r@ == seq![spec_digit(d as int)],
{
    proof {
        reveal_strlit("0");
        reveal_strlit("1");
        reveal_strlit("2");
        reveal_strlit("3");
        reveal_strlit("4");
        reveal_strlit("5");
        reveal_strlit("6");
        reveal_strlit("7");
        reveal_strlit("8");
        reveal_strlit("9");
    }
    let r = if d == 0 {
        "0"
    } else if d == 1 {
        "1"
    } else if d == 2 {
        "2"
    } else if d == 3 {
        "3"
    } else if d == 4 {
        "4"
    } else if d == 5 {
        "5"
    } else if d == 6 {
        "6"
    } else if d == 7 {
        "7"
    } else if d == 8 {
        "8"
    } else {
        "9"
    };
    proof {
        assert(r@ =~= seq![spec_digit(d as int)]);
    }
    r
}

/// Appends the decimal rendering of `n` to `out`.
pub fn push_nat_str(out: &mut String, n: u64)
    ensures
        final(out)@ == old(out)@ + spec_nat_str(n as nat),
    decreases n,
{
    if n >= 10 {
        push_nat_str(out, n / 10);
    }
    out.append(digit_str(n % 10));
    proof {
        assert(final(out)@ =~= old(out)@ + spec_nat_str(n as nat));
    }
}

/// Renders a natural number in decimal.
pub fn u64_to_string(n: u64) -> (r: String)
    ensures
        r@ == spec_nat_str(n as nat),
{
    let mut out = String::new();
    push_nat_str(&mut out, n);
    proof {
        assert(out@ =~= spec_nat_str(n as nat));
    }
    out
}

/// Renders a signed integer in its literal textual form.
pub fn i64_to_string(n: i64) -> (r: String)
    ensures
        r@ == spec_i64_str(n as int),
{
    proof {
        reveal_strlit("-");
    }
    if n < 0 {
        let mut out = String::from_str("-");
        let magnitude: u64 = if n == i64::MIN {
            9223372036854775808u64
        } else {
            (-n) as u64
        };
        assert(magnitude as nat == (-(n as int)) as nat);
        push_nat_str(&mut out, magnitude);
        proof {
            assert("-"@ =~= seq!['-']);
            assert(out@ =~= spec_i64_str(n as int));
        }
        out
    } else {
        u64_to_string(n as u64)
    }
}

} // verus!
