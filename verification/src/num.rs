//! Checked 64-bit arithmetic helpers and decimal rendering of integers.

use vstd::prelude::*;

verus! {

/// The decimal digit character for a value below ten.
pub open spec fn dec_digit(d: nat) -> char {
    if d == 0 {
        '0'
    } else if d == 1 {
        '1'
    } else if d == 2 {
        '2'
    } else if d == 3 {
        '3'
    } else if d == 4 {
        '4'
    } else if d == 5 {
        '5'
    } else if d == 6 {
        '6'
    } else if d == 7 {
        '7'
    } else if d == 8 {
        '8'
    } else {
        '9'
    }
}

/// Decimal rendering of a natural number, most significant digit first,
/// with no leading zeros (zero itself renders as "0").
pub open spec fn dec_str(n: nat) -> Seq<char>
    decreases n,
{
    if n < 10 {
        seq![dec_digit(n)]
    } else {
        dec_str(n / 10).push(dec_digit(n % 10))
    }
}

fn dec_digit_text(d: u64) -> (s: &'static str)
    requires
        d < 10,
    ensures
        s@ =~= seq![dec_digit(d as nat)],
{
    match d {
        0 => {
            proof {
                reveal_strlit("0");
            }
            "0"
        },
        1 => {
            proof {
                reveal_strlit("1");
            }
            "1"
        },
        2 => {
            proof {
                reveal_strlit("2");
            }
            "2"
        },
        3 => {
            proof {
                reveal_strlit("3");
            }
            "3"
        },
        4 => {
            proof {
                reveal_strlit("4");
            }
            "4"
        },
        5 => {
            proof {
                reveal_strlit("5");
            }
            "5"
        },
        6 => {
            proof {
                reveal_strlit("6");
            }
            "6"
        },
        7 => {
            proof {
                reveal_strlit("7");
            }
            "7"
        },
        8 => {
            proof {
                reveal_strlit("8");
            }
            "8"
        },
        _ => {
            proof {
                reveal_strlit("9");
            }
            "9"
        },
    }
}

/// Renders a 64-bit value in decimal.
pub fn u64_to_dec(n: u64) -> (s: String)
    ensures
        s@ == dec_str(n as nat),
    decreases n,
{
    if n < 10 {
        String::from_str(dec_digit_text(n))
    } else {
        let mut s = u64_to_dec(n / 10);
        s.append(dec_digit_text(n % 10));
        proof {
            assert(s@ =~= dec_str((n / 10) as nat).push(dec_digit((n % 10) as nat)));
        }
        s
    }
}

/// Addition on i64 that reports overflow instead of wrapping.
pub fn checked_add_i64(a: i64, b: i64) -> (r: Option<i64>)
    ensures
        a + b < i64::MIN || a + b > i64::MAX ==> r is None,
        i64::MIN <= a + b <= i64::MAX ==> r == Some((a + b) as i64),
{
    a.checked_add(b)
}

/// Subtraction on i64 that reports overflow instead of wrapping.
pub fn checked_sub_i64(a: i64, b: i64) -> (r: Option<i64>)
    ensures
        a - b < i64::MIN || a - b > i64::MAX ==> r is None,
        i64::MIN <= a - b <= i64::MAX ==> r == Some((a - b) as i64),
{
    a.checked_sub(b)
}

/// Multiplication on i64 that reports overflow instead of wrapping.
pub fn checked_mul_i64(a: i64, b: i64) -> (r: Option<i64>)
    ensures
        a * b < i64::MIN || a * b > i64::MAX ==> r is None,
        i64::MIN <= a * b <= i64::MAX ==> r == Some((a * b) as i64),
{
    a.checked_mul(b)
}

/// Division on i64 that reports a zero divisor or overflow instead of panicking.
pub fn checked_div_i64(a: i64, b: i64) -> (r: Option<i64>)
    ensures
        r == a.checked_div(b),
        b == 0 ==> r is None,
        a == i64::MIN && b == -1 ==> r is None,
        a >= 0 && b > 0 ==> r == Some((a / b) as i64),
{
    if b == 0 {
        None
    } else {
        proof {
            if a > 0 && b > 0 {
                vstd::arithmetic::div_mod::lemma_div_nonincreasing(a as int, b as int);
                vstd::arithmetic::div_mod::lemma_div_pos_is_pos(a as int, b as int);
            }
        }
        a.checked_div(b)
    }
}

} // verus!
