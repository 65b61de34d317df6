//! Decimal rendering of the signed verbosity, for diagnostics.

use vstd::prelude::*;

verus! {

/// The character for one decimal digit.
pub open spec fn decimal_digit(d: int) -> char {
    if d == 0 {
        '0'
    } else if d == 1 {
        '1'
    } else if d == 2 {
        '2'
    } else if d == 3 {
        '3'
    } else if d == 4 {
        '4'
    } else if d == 5 {
        '5'
    } else if d == 6 {
        '6'
    } else if d == 7 {
        '7'
    } else if d == 8 {
        '8'
    } else {
        '9'
    }
}

/// The decimal digits of a natural number, most significant first, with no
/// leading zeroes except for the number zero itself.
pub open spec fn decimal_nat(n: nat) -> Seq<char>
    decreases n,
{
    if n < 10 {
        seq![decimal_digit(n as int)]
    } else {
        decimal_nat(n / 10).push(decimal_digit((n % 10) as int))
    }
}

/// The decimal rendering of an integer: the digits of its magnitude, with a
/// leading minus sign when it is negative.
pub open spec fn decimal_int(v: int) -> Seq<char> {
    if v < 0 {
        seq!['-'] + decimal_nat((-v) as nat)
    } else {
        decimal_nat(v as nat)
    }
}

/// The one-character string for one decimal digit.
fn digit_str(d: u16) -> (r: &'static str)
    requires
        d < 10,
    ensures
        r@ == seq![decimal_digit(d as int)],
{
    proof {
        reveal_strlit("0");
        reveal_strlit("1");
        reveal_strlit("2");
        reveal_strlit("3");
        reveal_strlit("4");
        reveal_strlit("5");
        reveal_strlit("6");
        reveal_strlit("7");
        reveal_strlit("8");
        reveal_strlit("9");
    }
    let r: &'static str = if d == 0 {
        "0"
    } else if d == 1 {
        "1"
    } else if d == 2 {
        "2"
    } else if d == 3 {
        "3"
    } else if d == 4 {
        "4"
    } else if d == 5 {
        "5"
    } else if d == 6 {
        "6"
    } else if d == 7 {
        "7"
    } else if d == 8 {
        "8"
    } else {
        "9"
    };
    proof {
        assert(r@ =~= seq![decimal_digit(d as int)]);
    }
    r
}

/// The decimal digits of a magnitude below one thousand.
proof fn lemma_decimal_nat_small(a: nat)
    requires
        a < 1000,
    ensures
        a < 10 ==> decimal_nat(a) =~= seq![decimal_digit(a as int)],
        10 <= a < 100 ==> decimal_nat(a) =~= seq![
            decimal_digit((a / 10) as int),
            decimal_digit((a % 10) as int),
        ],
        100 <= a ==> decimal_nat(a) =~= seq![
            decimal_digit((a / 100) as int),
            decimal_digit(((a / 10) % 10) as int),
            decimal_digit((a % 10) as int),
        ],
{
    if a >= 100 {
        assert(a / 10 < 100);
        assert(a / 10 >= 10);
        assert((a / 10) / 10 == a / 100) by (nonlinear_arith);
        assert((a / 10) % 10 == (a / 10) % 10);
        assert(decimal_nat(a) == decimal_nat(a / 10).push(decimal_digit((a % 10) as int)));
        assert(decimal_nat(a / 10) == decimal_nat((a / 10) / 10).push(
            decimal_digit(((a / 10) % 10) as int),
        ));
        assert(a / 100 < 10);
    } else if a >= 10 {
        assert(a / 10 < 10);
        assert(decimal_nat(a) == decimal_nat(a / 10).push(decimal_digit((a % 10) as int)));
        assert(decimal_nat(a / 10) == seq![decimal_digit((a / 10) as int)]);
    }
}

/// Render an integer of small magnitude as its decimal digits, with a
/// leading minus sign when it is negative.
pub(crate) fn decimal_string(v: i16) -> (s: String)
    requires
        -1000 < v < 1000,
    ensures
        s@ == decimal_int(v as int),
{
    proof {
        reveal_strlit("");
        reveal_strlit("-");
    }
    let mut s = String::from_str("");
    let a: u16;
    if v < 0 {
        s.append("-");
        a = (0 - v) as u16;
    } else {
        a = v as u16;
    }
    proof {
        lemma_decimal_nat_small(a as nat);
    }
    if a >= 100 {
        s.append(digit_str(a / 100));
        s.append(digit_str((a / 10) % 10));
        s.append(digit_str(a % 10));
    } else if a >= 10 {
        s.append(digit_str(a / 10));
        s.append(digit_str(a % 10));
    } else {
        s.append(digit_str(a));
    }
    proof {
        assert(s@ =~= decimal_int(v as int));
    }
    s
}

} // verus!
