//! Decimal rendering of unsigned integers.

use vstd::prelude::*;

verus! {

/// The ASCII digit for a value below ten.
pub open spec fn digit_char(d: nat) -> char {
    (48 + d) as char
}

/// The decimal digits of `n`, most significant first, without leading zeros.
pub open spec fn decimal_digits(n: nat) -> Seq<char>
    decreases n,
{
    if n < 10 {
        seq![digit_char(n)]
    } else {
        decimal_digits(n / 10).push(digit_char(n % 10))
    }
}

/// The number that a string of ASCII digits denotes.
pub open spec fn decimal_value(s: Seq<char>) -> nat
    decreases s.len(),
{
    if s.len() == 0 {
        0
    } else {
        decimal_value(s.drop_last()) * 10 + ((s.last() as int - 48) as nat)
    }
}

/// Whether every character of `s` is an ASCII digit.
pub open spec fn all_digits(s: Seq<char>) -> bool {
    forall|i: int| 0 <= i < s.len() ==> '0' <= #[trigger] s[i] <= '9'
}

/// The decimal rendering reads back as the number it renders, uses digits
/// only, and has no leading zero (but for zero itself).
pub proof fn law_decimal_round_trip(n: nat)
    ensures
        decimal_value(decimal_digits(n)) == n,
        all_digits(decimal_digits(n)),
        decimal_digits(n).len() >= 1,
        decimal_digits(n)[0] == '0' ==> n == 0,
    decreases n,
{
    if n >= 10 {
        law_decimal_round_trip(n / 10);
        let s = decimal_digits(n);
        assert(s.drop_last() =~= decimal_digits(n / 10));
        assert(s[0] == decimal_digits(n / 10)[0]);
        assert(digit_char(n % 10) as int == 48 + n % 10);
        assert(decimal_value(s) == decimal_value(s.drop_last()) * 10 + ((s.last() as int - 48) as nat));
    } else {
        assert(decimal_digits(n).drop_last() =~= Seq::<char>::empty());
        assert(digit_char(n) as int == 48 + n);
        let s = decimal_digits(n);
        assert(decimal_value(s) == decimal_value(s.drop_last()) * 10 + ((s.last() as int - 48) as nat));
    }
}

fn digit_str(d: usize) -> (s: &'static str)
    requires
        d < 10,
    ensures
        s@ == seq![digit_char(d as nat)],
{
    proof {
        reveal_strlit("0");
        reveal_strlit("1");
        reveal_strlit("2");
        reveal_strlit("3");
        reveal_strlit("4");
        reveal_strlit("5");
        reveal_strlit("6");
        reveal_strlit("7");
        reveal_strlit("8");
        reveal_strlit("9");
    }
    let s = if d == 0 {
        "0"
    } else if d == 1 {
        "1"
    } else if d == 2 {
        "2"
    } else if d == 3 {
        "3"
    } else if d == 4 {
        "4"
    } else if d == 5 {
        "5"
    } else if d == 6 {
        "6"
    } else if d == 7 {
        "7"
    } else if d == 8 {
        "8"
    } else {
        "9"
    };
    assert(s@ =~= seq![digit_char(d as nat)]);
    s
}

/// Renders `n` in decimal, as `usize::to_string` does.
pub fn decimal_string(n: usize) -> (s: String)
    ensures
        s@ == decimal_digits(n as nat),
    decreases n,
{
    if n < 10 {
        String::from_str(digit_str(n))
    } else {
        let mut s = decimal_string(n / 10);
        s.append(digit_str(n % 10));
        s
    }
}

} // verus!
