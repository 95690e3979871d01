//! Whole numbers as the dashboard prints them: in decimal, and as two-digit
//! clock fields.
use vstd::prelude::*;

use crate::chars::push_char;

verus! {

/// The character of a decimal digit `0..=9`.
pub open spec fn digit_char(d: nat) -> char {
    if d == 0 {
        '0'
    } else if d == 1 {
        '1'
    } else if d == 2 {
        '2'
    } else if d == 3 {
        '3'
    } else if d == 4 {
        '4'
    } else if d == 5 {
        '5'
    } else if d == 6 {
        '6'
    } else if d == 7 {
        '7'
    } else if d == 8 {
        '8'
    } else {
        '9'
    }
}

/// `n` written in decimal, without leading zeros (`0` is `"0"`).
pub open spec fn decimal(n: nat) -> Seq<char>
    decreases n,
{
    if n < 10 {
        seq![digit_char(n)]
    } else {
        decimal(n / 10) + seq![digit_char(n % 10)]
    }
}

/// `n` written with at least two digits (`{:02}`).
pub open spec fn two_digits(n: nat) -> Seq<char> {
    if n < 10 {
        seq!['0'] + decimal(n)
    } else {
        decimal(n)
    }
}

/// The number a string of decimal digits stands for, read the usual way:
/// each character is worth its code minus the code of `'0'`, and each
/// position to the left is worth ten times more.
pub open spec fn numeral_value(s: Seq<char>) -> int
    decreases s.len(),
{
    if s.len() == 0 {
        0
    } else {
        numeral_value(s.drop_last()) * 10 + (s.last() as u32 - '0' as u32)
    }
}

/// A digit is written with the character whose code is that of `'0'` plus
/// the digit.
pub proof fn lemma_digit_char_code(d: nat)
    requires
        d < 10,
    ensures
        digit_char(d) as u32 == '0' as u32 + d,
        '0' <= digit_char(d) <= '9',
{
}

/// A whole number is written as the standard base-10 numeral: only the
/// characters `'0'..='9'`, no leading zero, and reading it back gives the
/// number.
pub proof fn lemma_decimal_reads_back(n: nat)
    ensures
        decimal(n).len() >= 1,
        forall|i: int| 0 <= i < decimal(n).len() ==> '0' <= #[trigger] decimal(n)[i] <= '9',
        numeral_value(decimal(n)) == n,
        n > 0 ==> decimal(n)[0] != '0',
        n < 10 ==> decimal(n).len() == 1,
    decreases n,
{
    lemma_digit_char_code(n % 10);
    if n >= 10 {
        lemma_decimal_reads_back(n / 10);
        let s = decimal(n);
        let p = decimal(n / 10);
        assert(s == p + seq![digit_char(n % 10)]);
        assert(s.drop_last() =~= p);
        assert forall|i: int| 0 <= i < s.len() implies '0' <= #[trigger] s[i] <= '9' by {
            if i < p.len() {
                assert(s[i] == p[i]);
            }
        }
        assert(s[0] == p[0]);
        assert(s.last() == digit_char(n % 10));
        assert(numeral_value(s) == numeral_value(p) * 10 + (s.last() as u32 - '0' as u32));
        assert((n / 10) * 10 + n % 10 == n);
    } else {
        let s = decimal(n);
        assert(s.drop_last() =~= Seq::<char>::empty());
        assert(s.last() == digit_char(n));
        assert(numeral_value(s) == numeral_value(s.drop_last()) * 10 + (s.last() as u32 - '0' as u32));
        assert(numeral_value(Seq::<char>::empty()) == 0);
    }
}

/// A clock field below 100 is written with exactly two digits and reads back
/// as its value.
pub proof fn lemma_two_digits_reads_back(n: nat)
    requires
        n < 100,
    ensures
        two_digits(n).len() == 2,
        forall|i: int| 0 <= i < 2 ==> '0' <= #[trigger] two_digits(n)[i] <= '9',
        numeral_value(two_digits(n)) == n,
{
    lemma_decimal_reads_back(n);
    if n < 10 {
        let s = two_digits(n);
        let z = seq!['0'];
        assert(s.drop_last() =~= z);
        assert(z.drop_last() =~= Seq::<char>::empty());
        assert(numeral_value(z) == numeral_value(z.drop_last()) * 10 + (z.last() as u32 - '0' as u32));
        assert(numeral_value(z) == 0);
        assert(s.last() == digit_char(n));
        lemma_digit_char_code(n);
        assert(numeral_value(s) == numeral_value(s.drop_last()) * 10 + (s.last() as u32 - '0' as u32));
    } else {
        lemma_decimal_reads_back(n / 10);
        lemma_digit_char_code(n / 10);
    }
}

fn digit(d: u128) -> (c: char)
    requires
        d < 10,
    ensures
        c == digit_char(d as nat),
{
    if d == 0 {
        '0'
    } else if d == 1 {
        '1'
    } else if d == 2 {
        '2'
    } else if d == 3 {
        '3'
    } else if d == 4 {
        '4'
    } else if d == 5 {
        '5'
    } else if d == 6 {
        '6'
    } else if d == 7 {
        '7'
    } else if d == 8 {
        '8'
    } else {
        '9'
    }
}

/// Appends `n` in decimal.
pub fn push_decimal(s: &mut String, n: u128)
    ensures
        final(s)@ == old(s)@ + decimal(n as nat),
    decreases n,
{
    if n >= 10 {
        push_decimal(s, n / 10);
    }
    push_char(s, digit(n % 10));
    proof {
        if n >= 10 {
            assert(old(s)@ + decimal(n as nat) =~= old(s)@ + decimal((n / 10) as nat) + seq![digit_char((n % 10) as nat)]);
        } else {
            assert(old(s)@ + decimal(n as nat) =~= old(s)@.push(digit_char((n % 10) as nat)));
        }
    }
}

/// Appends `n` with at least two digits.
pub fn push_two_digits(s: &mut String, n: u128)
    ensures
        final(s)@ == old(s)@ + two_digits(n as nat),
{
    if n < 10 {
        push_char(s, '0');
    }
    push_decimal(s, n);
    assert(final(s)@ =~= old(s)@ + two_digits(n as nat));
}

} // verus!
