//! Decimal rendering of the fee-delta integers that appear in command
//! arguments and audit-log lines.

use vstd::prelude::*;

verus! {

/// The character for a single decimal digit.
pub open spec fn digit_char(d: nat) -> char {
    if d == 0 {
        '0'
    } else if d == 1 {
        '1'
    } else if d == 2 {
        '2'
    } else if d == 3 {
        '3'
    } else if d == 4 {
        '4'
    } else if d == 5 {
        '5'
    } else if d == 6 {
        '6'
    } else if d == 7 {
        '7'
    } else if d == 8 {
        '8'
    } else {
        '9'
    }
}

/// The usual base-ten rendering of a natural number: most significant
/// digit first, no leading zeros (except for zero itself).
pub open spec fn dec_nat(n: nat) -> Seq<char>
    decreases n,
{
    if n < 10 {
        seq![digit_char(n)]
    } else {
        dec_nat(n / 10) + seq![digit_char(n % 10)]
    }
}

/// Base-ten rendering of an integer: a leading minus sign when negative.
pub open spec fn dec_int(n: int) -> Seq<char> {
    if n < 0 {
        seq!['-'] + dec_nat((-n) as nat)
    } else {
        dec_nat(n as nat)
    }
}

/// Base-ten rendering zero-padded on the left to two digits.
pub open spec fn pad2(n: int) -> Seq<char>
    recommends
        0 <= n,
{
    if n < 10 {
        "0"@ + dec_nat(n as nat)
    } else {
        dec_nat(n as nat)
    }
}

/// Base-ten rendering zero-padded on the left to four digits.
pub open spec fn pad4(n: int) -> Seq<char>
    recommends
        0 <= n,
{
    if n < 10 {
        "000"@ + dec_nat(n as nat)
    } else if n < 100 {
        "00"@ + dec_nat(n as nat)
    } else if n < 1000 {
        "0"@ + dec_nat(n as nat)
    } else {
        dec_nat(n as nat)
    }
}

/// The one-character string for a decimal digit.
fn digit_str(d: u64) -> (r: &'static str)
    requires
        d < 10,
    ensures
        r@ == seq![digit_char(d as nat)],
{
    proof {
        reveal_strlit("0");
        reveal_strlit("1");
        reveal_strlit("2");
        reveal_strlit("3");
        reveal_strlit("4");
        reveal_strlit("5");
        reveal_strlit("6");
        reveal_strlit("7");
        reveal_strlit("8");
        reveal_strlit("9");
    }
    let r: &'static str = if d == 0 {
        "0"
    } else if d == 1 {
        "1"
    } else if d == 2 {
        "2"
    } else if d == 3 {
        "3"
    } else if d == 4 {
        "4"
    } else if d == 5 {
        "5"
    } else if d == 6 {
        "6"
    } else if d == 7 {
        "7"
    } else if d == 8 {
        "8"
    } else {
        "9"
    };
    proof {
        assert(r@ =~= seq![digit_char(d as nat)]);
    }
    r
}

/// Renders an unsigned integer in base ten, as `dec_nat` states.
pub fn u64_to_dec(n: u64) -> (r: String)
    ensures
        r@ == dec_nat(n as nat),
    decreases n,
{
    if n < 10 {
        digit_str(n).to_owned()
    } else {
        let prefix = u64_to_dec(n / 10);
        prefix.concat(digit_str(n % 10))
    }
}

/// Renders an unsigned integer zero-padded to two digits, as `pad2` states.
pub fn u32_to_pad2(n: u32) -> (r: String)
    ensures
        r@ == pad2(n as int),
{
    let digits = u64_to_dec(n as u64);
    if n < 10 {
        String::from_str("0").concat(digits.as_str())
    } else {
        digits
    }
}

/// Renders an unsigned integer zero-padded to four digits, as `pad4` states.
pub fn u64_to_pad4(n: u64) -> (r: String)
    ensures
        r@ == pad4(n as int),
{
    let digits = u64_to_dec(n);
    if n < 10 {
        String::from_str("000").concat(digits.as_str())
    } else if n < 100 {
        String::from_str("00").concat(digits.as_str())
    } else if n < 1000 {
        String::from_str("0").concat(digits.as_str())
    } else {
        digits
    }
}

/// Renders a signed integer in base ten, as `dec_int` states.
pub fn i64_to_dec(n: i64) -> (r: String)
    ensures
        r@ == dec_int(n as int),
{
    if n >= 0 {
        u64_to_dec(n as u64)
    } else {
        let m: u64 = if n == i64::MIN {
            9223372036854775808u64
        } else {
            (-n) as u64
        };
        proof {
            assert(m as int == -(n as int));
            reveal_strlit("-");
        }
        let sign = String::from_str("-");
        let digits = u64_to_dec(m);
        let r = sign.concat(digits.as_str());
        proof {
            assert(r@ =~= dec_int(n as int));
        }
        r
    }
}

} // verus!
