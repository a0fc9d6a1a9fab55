//! Numbers as text, for messages.

use vstd::prelude::*;
use vstd::string::StringExecFns;

verus! {

/// The digit for a number below sixteen, in lower case.
pub open spec fn digit(d: int) -> char {
    if d == 0 {
        '0'
    } else if d == 1 {
        '1'
    } else if d == 2 {
        '2'
    } else if d == 3 {
        '3'
    } else if d == 4 {
        '4'
    } else if d == 5 {
        '5'
    } else if d == 6 {
        '6'
    } else if d == 7 {
        '7'
    } else if d == 8 {
        '8'
    } else if d == 9 {
        '9'
    } else if d == 10 {
        'a'
    } else if d == 11 {
        'b'
    } else if d == 12 {
        'c'
    } else if d == 13 {
        'd'
    } else if d == 14 {
        'e'
    } else {
        'f'
    }
}

/// The decimal digits of `n`, most significant first, without leading
/// zeros; `0` for zero.
pub open spec fn decimal_text(n: nat) -> Seq<char>
    decreases n,
{
    if n < 10 {
        seq![digit(n as int)]
    } else {
        decimal_text(n / 10).push(digit((n % 10) as int))
    }
}

/// The hexadecimal digits of `n` in lower case, most significant first,
/// without leading zeros; `0` for zero.
pub open spec fn hex_text(n: nat) -> Seq<char>
    decreases n,
{
    if n < 16 {
        seq![digit(n as int)]
    } else {
        hex_text(n / 16).push(digit((n % 16) as int))
    }
}

/// The digits for the given numbers, last number first.
pub open spec fn digits_text(digits: Seq<u8>) -> Seq<char> {
    Seq::new(digits.len(), |i: int| digit(digits[digits.len() - 1 - i] as int))
}

/// The digit for a number below sixteen, as text.
fn digit_str(d: u8) -> (s: &'static str)
    requires
        d < 16,
    ensures
        s@ == seq![digit(d as int)],
{
    proof {
        reveal_strlit("0");
        reveal_strlit("1");
        reveal_strlit("2");
        reveal_strlit("3");
        reveal_strlit("4");
        reveal_strlit("5");
        reveal_strlit("6");
        reveal_strlit("7");
        reveal_strlit("8");
        reveal_strlit("9");
        reveal_strlit("a");
        reveal_strlit("b");
        reveal_strlit("c");
        reveal_strlit("d");
        reveal_strlit("e");
        reveal_strlit("f");
    }
    let s = if d == 0 {
        "0"
    } else if d == 1 {
        "1"
    } else if d == 2 {
        "2"
    } else if d == 3 {
        "3"
    } else if d == 4 {
        "4"
    } else if d == 5 {
        "5"
    } else if d == 6 {
        "6"
    } else if d == 7 {
        "7"
    } else if d == 8 {
        "8"
    } else if d == 9 {
        "9"
    } else if d == 10 {
        "a"
    } else if d == 11 {
        "b"
    } else if d == 12 {
        "c"
    } else if d == 13 {
        "d"
    } else if d == 14 {
        "e"
    } else {
        "f"
    };
    proof {
        assert(s@ =~= seq![digit(d as int)]);
    }
    s
}

/// Writes digits out, last digit first.
fn render(digits: &Vec<u8>) -> (s: String)
    requires
        forall|i: int| 0 <= i < digits@.len() ==> digits@[i] < 16,
    ensures
        s@ == digits_text(digits@),
{
    let mut s = String::new();
    let mut left: usize = digits.len();
    while left > 0
        invariant
            left <= digits@.len(),
            forall|i: int| 0 <= i < digits@.len() ==> digits@[i] < 16,
            s@ == digits_text(digits@).subrange(0, digits@.len() - left),
        decreases left,
    {
        left = left - 1;
        let ghost before = s@;
        s.append(digit_str(digits[left]));
        proof {
            assert(s@ =~= digits_text(digits@).subrange(0, digits@.len() - left));
        }
    }
    proof {
        assert(s@ =~= digits_text(digits@));
    }
    s
}

/// A number in decimal digits.
pub(crate) fn decimal(n: u64) -> (s: String)
    ensures
        s@ == decimal_text(n as nat),
{
    let mut digits: Vec<u8> = Vec::new();
    digits.push((n % 10) as u8);
    let mut rest: u64 = n / 10;
    proof {
        assert(digits_text(digits@) =~= seq![digit((n % 10) as int)]);
        if rest > 0 {
            assert(decimal_text(n as nat) =~= decimal_text(rest as nat) + digits_text(digits@));
        }
    }
    while rest > 0
        invariant
            forall|i: int| 0 <= i < digits@.len() ==> digits@[i] < 16,
            rest > 0 ==> decimal_text(n as nat) == decimal_text(rest as nat) + digits_text(
                digits@,
            ),
            rest == 0 ==> decimal_text(n as nat) == digits_text(digits@),
        decreases rest,
    {
        let ghost before = digits@;
        let ghost high = rest;
        digits.push((rest % 10) as u8);
        rest = rest / 10;
        proof {
            let low = seq![digit((high % 10) as int)];
            assert(digits_text(digits@) =~= low + digits_text(before));
            if rest > 0 {
                assert(decimal_text(high as nat) =~= decimal_text(rest as nat) + low);
                assert(decimal_text(n as nat) =~= decimal_text(rest as nat) + digits_text(
                    digits@,
                ));
            } else {
                assert(decimal_text(high as nat) =~= low);
                assert(decimal_text(n as nat) =~= digits_text(digits@));
            }
        }
    }
    render(&digits)
}

/// A number in hexadecimal digits, in lower case.
pub(crate) fn lower_hex(n: u32) -> (s: String)
    ensures
        s@ == hex_text(n as nat),
{
    let mut digits: Vec<u8> = Vec::new();
    digits.push((n % 16) as u8);
    let mut rest: u32 = n / 16;
    proof {
        assert(digits_text(digits@) =~= seq![digit((n % 16) as int)]);
        if rest > 0 {
            assert(hex_text(n as nat) =~= hex_text(rest as nat) + digits_text(digits@));
        }
    }
    while rest > 0
        invariant
            forall|i: int| 0 <= i < digits@.len() ==> digits@[i] < 16,
            rest > 0 ==> hex_text(n as nat) == hex_text(rest as nat) + digits_text(digits@),
            rest == 0 ==> hex_text(n as nat) == digits_text(digits@),
        decreases rest,
    {
        let ghost before = digits@;
        let ghost high = rest;
        digits.push((rest % 16) as u8);
        rest = rest / 16;
        proof {
            let low = seq![digit((high % 16) as int)];
            assert(digits_text(digits@) =~= low + digits_text(before));
            if rest > 0 {
                assert(hex_text(high as nat) =~= hex_text(rest as nat) + low);
                assert(hex_text(n as nat) =~= hex_text(rest as nat) + digits_text(digits@));
            } else {
                assert(hex_text(high as nat) =~= low);
                assert(hex_text(n as nat) =~= digits_text(digits@));
            }
        }
    }
    render(&digits)
}

} // verus!
