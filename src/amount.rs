//! Supply amounts in the token's native base unit, and their canonical
//! decimal text form.
use vstd::prelude::*;

verus! {

/// The character of a decimal digit.
pub open spec fn digit_char(d: nat) -> char {
    seq!['0', '1', '2', '3', '4', '5', '6', '7', '8', '9'][d as int]
}

/// The canonical decimal form of a non-negative integer: no sign, no
/// separators, no leading zeros (zero itself is written `0`).
pub open spec fn decimal_chars(n: nat) -> Seq<char>
    decreases n,
{
    if n < 10 {
        seq![digit_char(n)]
    } else {
        decimal_chars(n / 10) + seq![digit_char(n % 10)]
    }
}

fn digit_str(d: u128) -> (r: &'static str)
    requires
        d < 10,
    ensures
        r@ == seq![digit_char(d as nat)],
{
    if d == 0 {
        proof { reveal_strlit("0"); }
        assert("0"@ =~= seq![digit_char(0)]);
        "0"
    } else if d == 1 {
        proof { reveal_strlit("1"); }
        assert("1"@ =~= seq![digit_char(1)]);
        "1"
    } else if d == 2 {
        proof { reveal_strlit("2"); }
        assert("2"@ =~= seq![digit_char(2)]);
        "2"
    } else if d == 3 {
        proof { reveal_strlit("3"); }
        assert("3"@ =~= seq![digit_char(3)]);
        "3"
    } else if d == 4 {
        proof { reveal_strlit("4"); }
        assert("4"@ =~= seq![digit_char(4)]);
        "4"
    } else if d == 5 {
        proof { reveal_strlit("5"); }
        assert("5"@ =~= seq![digit_char(5)]);
        "5"
    } else if d == 6 {
        proof { reveal_strlit("6"); }
        assert("6"@ =~= seq![digit_char(6)]);
        "6"
    } else if d == 7 {
        proof { reveal_strlit("7"); }
        assert("7"@ =~= seq![digit_char(7)]);
        "7"
    } else if d == 8 {
        proof { reveal_strlit("8"); }
        assert("8"@ =~= seq![digit_char(8)]);
        "8"
    } else {
        proof { reveal_strlit("9"); }
        assert("9"@ =~= seq![digit_char(9)]);
        "9"
    }
}

/// Writes an amount of base units in its canonical decimal form.
pub fn to_string_native(amount: u128) -> (r: String)
    ensures
        r@ == decimal_chars(amount as nat),
{
    let mut n: u128 = amount / 10;
    let mut s = String::from_str(digit_str(amount % 10));
    while n > 0
        invariant
            n > 0 ==> decimal_chars(amount as nat) == decimal_chars(n as nat) + s@,
            n == 0 ==> decimal_chars(amount as nat) == s@,
        decreases n,
    {
        let d = digit_str(n % 10);
        let ghost prev = s@;
        s = String::from_str(d).concat(s.as_str());
        proof {
            if n >= 10 {
                assert(decimal_chars(n as nat) == decimal_chars((n / 10) as nat) + seq![
                    digit_char((n % 10) as nat),
                ]);
                assert(decimal_chars((n / 10) as nat) + seq![digit_char((n % 10) as nat)] + prev
                    =~= decimal_chars((n / 10) as nat) + s@);
            } else {
                assert(decimal_chars(n as nat) + prev =~= s@);
            }
        }
        n = n / 10;
    }
    s
}

} // verus!
