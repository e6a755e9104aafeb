//! Verified rendering of numbers as text, for the candidate list and the
//! diagnostic messages: decimal for indexes and speeds, four-digit
//! hexadecimal for vendor and product ids.

use vstd::prelude::*;
use vstd::string::StringExecFns;

verus! {

/// The character of one digit value below 16: `0`-`9`, then `a`-`f`.
pub open spec fn spec_digit_char(d: nat) -> char
    recommends
        d < 16,
{
    if d < 10 {
        ((48 + d) as u8) as char
    } else {
        ((87 + d) as u8) as char
    }
}

/// The four hexadecimal digits of a 16-bit value, most significant first,
/// leading zeroes kept.
pub open spec fn spec_hex4(v: u16) -> Seq<char> {
    seq![
        spec_digit_char((v as nat / 4096) % 16),
        spec_digit_char((v as nat / 256) % 16),
        spec_digit_char((v as nat / 16) % 16),
        spec_digit_char(v as nat % 16),
    ]
}

/// The decimal digits of `n`, most significant first, no leading zeroes
/// (a single `0` for zero).
pub open spec fn spec_dec(n: nat) -> Seq<char>
    decreases n,
{
    if n < 10 {
        seq![spec_digit_char(n)]
    } else {
        spec_dec(n / 10) + seq![spec_digit_char(n % 10)]
    }
}

/// The one-character string of a digit value below 16.
pub fn digit_str(d: u8) -> (r: &'static str)
    requires
        d < 16,
    ensures
        r@.len() == 1,
        r@[0] == spec_digit_char(d as nat),
{
    if d == 0 {
        proof {
            reveal_strlit("0");
        }
        "0"
    } else if d == 1 {
        proof {
            reveal_strlit("1");
        }
        "1"
    } else if d == 2 {
        proof {
            reveal_strlit("2");
        }
        "2"
    } else if d == 3 {
        proof {
            reveal_strlit("3");
        }
        "3"
    } else if d == 4 {
        proof {
            reveal_strlit("4");
        }
        "4"
    } else if d == 5 {
        proof {
            reveal_strlit("5");
        }
        "5"
    } else if d == 6 {
        proof {
            reveal_strlit("6");
        }
        "6"
    } else if d == 7 {
        proof {
            reveal_strlit("7");
        }
        "7"
    } else if d == 8 {
        proof {
            reveal_strlit("8");
        }
        "8"
    } else if d == 9 {
        proof {
            reveal_strlit("9");
        }
        "9"
    } else if d == 10 {
        proof {
            reveal_strlit("a");
        }
        "a"
    } else if d == 11 {
        proof {
            reveal_strlit("b");
        }
        "b"
    } else if d == 12 {
        proof {
            reveal_strlit("c");
        }
        "c"
    } else if d == 13 {
        proof {
            reveal_strlit("d");
        }
        "d"
    } else if d == 14 {
        proof {
            reveal_strlit("e");
        }
        "e"
    } else {
        proof {
            reveal_strlit("f");
        }
        "f"
    }
}

/// Renders a 16-bit value as four hexadecimal digits, leading zeroes kept.
pub fn hex4(v: u16) -> (r: String)
    ensures
        r@ == spec_hex4(v),
{
    let d0 = ((v / 4096) % 16) as u8;
    let d1 = ((v / 256) % 16) as u8;
    let d2 = ((v / 16) % 16) as u8;
    let d3 = (v % 16) as u8;
    let mut s = String::from_str(digit_str(d0));
    s.append(digit_str(d1));
    s.append(digit_str(d2));
    s.append(digit_str(d3));
    proof {
        assert(s@ =~= spec_hex4(v));
    }
    s
}

/// Renders a number in decimal, no leading zeroes.
pub fn usize_to_dec(n: usize) -> (r: String)
    ensures
        r@ == spec_dec(n as nat),
    decreases n,
{
    let d = (n % 10) as u8;
    let ds = digit_str(d);
    if n < 10 {
        String::from_str(ds)
    } else {
        let mut s = usize_to_dec(n / 10);
        s.append(ds);
        s
    }
}

} // verus!
