//! Base-10 text of integers.

use vstd::prelude::*;

verus! {

/// The character that stands for the digit `d`, for `0 <= d <= 9`.
pub open spec fn digit_char(d: int) -> char
    recommends
        0 <= d <= 9,
{
    if d == 0 {
        '0'
    } else if d == 1 {
        '1'
    } else if d == 2 {
        '2'
    } else if d == 3 {
        '3'
    } else if d == 4 {
        '4'
    } else if d == 5 {
        '5'
    } else if d == 6 {
        '6'
    } else if d == 7 {
        '7'
    } else if d == 8 {
        '8'
    } else {
        '9'
    }
}

/// The digits of `n` in base 10, most significant first, without leading
/// zeros; zero is the single digit `0`.
pub open spec fn nat_text(n: nat) -> Seq<char>
    decreases n,
{
    if n < 10 {
        seq![digit_char(n as int)]
    } else {
        nat_text(n / 10).push(digit_char((n % 10) as int))
    }
}

/// The base-10 text of `i`: a minus sign if `i` is negative, then the digits
/// of its magnitude.
pub open spec fn decimal_text(i: int) -> Seq<char> {
    if i < 0 {
        seq!['-'] + nat_text((-i) as nat)
    } else {
        nat_text(i as nat)
    }
}

/// Whether `c` is one of the ten digits.
pub open spec fn is_digit(c: char) -> bool {
    '0' <= c <= '9'
}

/// The number that the digits in `s` denote in base 10.
pub open spec fn digits_value(s: Seq<char>) -> nat
    decreases s.len(),
{
    if s.len() == 0 {
        0
    } else {
        (digits_value(s.drop_last()) * 10 + (s.last() as nat - '0' as nat)) as nat
    }
}

/// The text of a natural number is made of digits, has no leading zero
/// unless the number is zero, and denotes that number.
pub proof fn lemma_nat_text(n: nat)
    ensures
        nat_text(n).len() >= 1,
        forall|k: int| 0 <= k < nat_text(n).len() ==> is_digit(#[trigger] nat_text(n)[k]),
        nat_text(n)[0] == '0' <==> n == 0,
        n == 0 ==> nat_text(n) == seq!['0'],
        digits_value(nat_text(n)) == n,
    decreases n,
{
    if n < 10 {
        assert(nat_text(n).drop_last() =~= Seq::<char>::empty());
        reveal_with_fuel(digits_value, 2);
    } else {
        lemma_nat_text(n / 10);
        assert(nat_text(n).drop_last() =~= nat_text(n / 10));
    }
}

/// The text of an integer starts with a minus sign if and only if the
/// integer is negative; what follows is the text of its magnitude.
pub proof fn lemma_decimal_text(i: int)
    ensures
        decimal_text(i).len() >= 1,
        decimal_text(i)[0] == '-' <==> i < 0,
        i < 0 ==> decimal_text(i).subrange(1, decimal_text(i).len() as int) == nat_text(
            (-i) as nat,
        ),
        i >= 0 ==> decimal_text(i) == nat_text(i as nat),
        forall|k: int|
            0 <= k < decimal_text(i).len() ==> is_digit(#[trigger] decimal_text(i)[k]) || (k == 0
                && i < 0),
        is_digit(decimal_text(i).last()),
{
    if i < 0 {
        lemma_nat_text((-i) as nat);
        let digits = nat_text((-i) as nat);
        assert(decimal_text(i).subrange(1, decimal_text(i).len() as int) =~= digits);
        assert forall|k: int| 0 <= k < decimal_text(i).len() implies is_digit(
            #[trigger] decimal_text(i)[k],
        ) || (k == 0 && i < 0) by {
            if k > 0 {
                assert(decimal_text(i)[k] == digits[k - 1]);
            }
        }
        assert(decimal_text(i).last() == digits[digits.len() - 1]);
    } else {
        lemma_nat_text(i as nat);
    }
}

/// Two integers with the same text are the same integer.
pub proof fn lemma_decimal_text_injective(i: int, j: int)
    requires
        decimal_text(i) == decimal_text(j),
    ensures
        i == j,
{
    lemma_decimal_text(i);
    lemma_decimal_text(j);
    if i < 0 {
        lemma_nat_text((-i) as nat);
        lemma_nat_text((-j) as nat);
    } else {
        lemma_nat_text(i as nat);
        lemma_nat_text(j as nat);
    }
}

/// The one-character string of a digit.
fn digit_str(d: u64) -> (s: &'static str)
    requires
        d <= 9,
    ensures
        s@ == seq![digit_char(d as int)],
{
    proof {
        reveal_strlit("0");
        reveal_strlit("1");
        reveal_strlit("2");
        reveal_strlit("3");
        reveal_strlit("4");
        reveal_strlit("5");
        reveal_strlit("6");
        reveal_strlit("7");
        reveal_strlit("8");
        reveal_strlit("9");
    }
    if d == 0 {
        "0"
    } else if d == 1 {
        "1"
    } else if d == 2 {
        "2"
    } else if d == 3 {
        "3"
    } else if d == 4 {
        "4"
    } else if d == 5 {
        "5"
    } else if d == 6 {
        "6"
    } else if d == 7 {
        "7"
    } else if d == 8 {
        "8"
    } else {
        "9"
    }
}

/// Appends the digits of `n` to `out`.
fn push_nat(out: &mut String, n: u64)
    ensures
        final(out)@ == old(out)@ + nat_text(n as nat),
    decreases n,
{
    if n >= 10 {
        push_nat(out, n / 10);
    }
    out.append(digit_str(n % 10));
}

/// Appends the base-10 text of `value` to `out`.
pub fn push_decimal(out: &mut String, value: i64)
    ensures
        final(out)@ == old(out)@ + decimal_text(value as int),
{
    if value < 0 {
        out.append("-");
        proof {
            reveal_strlit("-");
        }
        // `-(value + 1)` fits in an `i64` even for the least value.
        let below: i64 = -(value + 1);
        let magnitude: u64 = below as u64 + 1;
        push_nat(out, magnitude);
    } else {
        push_nat(out, value as u64);
    }
}

} // verus!
