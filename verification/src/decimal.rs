//! Decimal rendering of unsigned integers, used for the formatted age.

use vstd::prelude::*;
use vstd::string::StringExecFns;

verus! {

/// The decimal digit character for a value below ten.
pub open spec fn spec_digit(d: int) -> char {
    if d == 0 {
        '0'
    } else if d == 1 {
        '1'
    } else if d == 2 {
        '2'
    } else if d == 3 {
        '3'
    } else if d == 4 {
        '4'
    } else if d == 5 {
        '5'
    } else if d == 6 {
        '6'
    } else if d == 7 {
        '7'
    } else if d == 8 {
        '8'
    } else {
        '9'
    }
}

/// The decimal digit characters of `n`, most significant first, with no
/// leading zeros (a single zero for 0).
pub open spec fn dec_digits(n: nat) -> Seq<char>
    decreases n,
{
    if n < 10 {
        seq![spec_digit(n as int)]
    } else {
        dec_digits(n / 10) + seq![spec_digit((n % 10) as int)]
    }
}

/// The digit characters of a least-significant-first digit list.
pub open spec fn digit_chars(ds: Seq<u8>) -> Seq<char> {
    ds.map_values(|d: u8| spec_digit(d as int))
}

/// The string slice holding one decimal digit.
fn digit_str(d: u8) -> (r: &'static str)
    requires
        d < 10,
    ensures
        r@ == seq![spec_digit(d as int)],
{
    let r: &'static str = match d {
        0 => "0",
        1 => "1",
        2 => "2",
        3 => "3",
        4 => "4",
        5 => "5",
        6 => "6",
        7 => "7",
        8 => "8",
        _ => "9",
    };
    proof {
        reveal_strlit("0");
        reveal_strlit("1");
        reveal_strlit("2");
        reveal_strlit("3");
        reveal_strlit("4");
        reveal_strlit("5");
        reveal_strlit("6");
        reveal_strlit("7");
        reveal_strlit("8");
        reveal_strlit("9");
        assert(r@ =~= seq![spec_digit(d as int)]);
    }
    r
}

/// Render `n` in decimal.
pub fn u64_to_string(n: u64) -> (s: String)
    ensures
        s@ == dec_digits(n as nat),
{
    let mut digits: Vec<u8> = Vec::new();
    let mut m: u64 = n;

    while m >= 10
        invariant
            dec_digits(n as nat) =~= dec_digits(m as nat) + digit_chars(digits@).reverse(),
            forall|j: int| 0 <= j < digits@.len() ==> digits@[j] < 10,
        decreases m,
    {
        let ghost prev = digits@;
        let d: u8 = (m % 10) as u8;
        digits.push(d);
        m = m / 10;
        proof {
            assert(digit_chars(digits@).reverse() =~= seq![spec_digit(d as int)] + digit_chars(
                prev,
            ).reverse());
        }
    }
    let ghost prev = digits@;
    let last: u8 = m as u8;
    digits.push(last);
    proof {
        assert(digit_chars(digits@).reverse() =~= seq![spec_digit(last as int)] + digit_chars(
            prev,
        ).reverse());
        assert(dec_digits(n as nat) =~= digit_chars(digits@).reverse());
    }

    let mut s = String::new();
    let k: usize = digits.len();
    let mut i: usize = k;
    while i > 0
        invariant
            i <= k,
            k == digits@.len(),
            forall|j: int| 0 <= j < k ==> digits@[j] < 10,
            s@ =~= digit_chars(digits@).reverse().take((k - i) as int),
        decreases i,
    {
        i = i - 1;
        s.append(digit_str(digits[i]));
        proof {
            assert(s@ =~= digit_chars(digits@).reverse().take((k - i) as int));
        }
    }
    proof {
        assert(digit_chars(digits@).reverse().take(k as int) =~= digit_chars(digits@).reverse());
    }
    s
}

} // verus!
