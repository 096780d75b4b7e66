//! Numbers written out as text.

use vstd::prelude::*;

verus! {

/// `String::push` appends one character.
pub assume_specification[ String::push ](text: &mut String, c: char)
    ensures
        final(text)@ == old(text)@.push(c),
;

/// The character for the decimal digit `d`.
pub open spec fn digit_char(d: int) -> char {
    (d + 48) as u8 as char
}

/// The decimal digits of `n`, most significant first, without leading zeros.
pub open spec fn decimal_digits(n: nat) -> Seq<char>
    decreases n,
{
    if n < 10 {
        seq![digit_char(n as int)]
    } else {
        decimal_digits(n / 10).push(digit_char((n % 10) as int))
    }
}

/// `n` in decimal, with a minus sign in front where it is negative.
pub open spec fn signed_digits(n: int) -> Seq<char> {
    if n < 0 {
        seq!['-'] + decimal_digits((-n) as nat)
    } else {
        decimal_digits(n as nat)
    }
}

/// `n` in decimal, filled up with zeros to two characters.
pub open spec fn two_digits(n: int) -> Seq<char> {
    if 0 <= n < 10 {
        seq!['0'] + decimal_digits(n as nat)
    } else {
        signed_digits(n)
    }
}

/// `count` spaces.
pub open spec fn spaces(count: nat) -> Seq<char> {
    Seq::new(count, |i: int| ' ')
}

/// `n` in decimal, filled up with spaces in front to four characters.
pub open spec fn four_wide(n: int) -> Seq<char> {
    if signed_digits(n).len() < 4 {
        spaces((4 - signed_digits(n).len()) as nat) + signed_digits(n)
    } else {
        signed_digits(n)
    }
}

/// A number has as many digits as its size asks for.
pub proof fn lemma_digit_count(n: nat)
    ensures
        n < 10 ==> decimal_digits(n).len() == 1,
        10 <= n < 100 ==> decimal_digits(n).len() == 2,
        100 <= n < 1000 ==> decimal_digits(n).len() == 3,
        1000 <= n ==> decimal_digits(n).len() >= 4,
    decreases n,
{
    if n >= 10 {
        lemma_digit_count(n / 10);
    }
}

/// Writes `n` in decimal.
pub fn decimal(n: u64) -> (text: String)
    ensures
        text@ == decimal_digits(n as nat),
    decreases n,
{
    if n < 10 {
        let mut text = String::new();
        text.push((48u8 + n as u8) as char);
        assert(text@ =~= decimal_digits(n as nat));
        text
    } else {
        let mut text = decimal(n / 10);
        text.push((48u8 + (n % 10) as u8) as char);
        text
    }
}

/// Writes `n` in decimal, with its sign where it is negative.
pub fn signed_decimal(n: i64) -> (text: String)
    ensures
        text@ == signed_digits(n as int),
{
    if n < 0 {
        let magnitude: u64 = if n == i64::MIN {
            9223372036854775808u64
        } else {
            (-n) as u64
        };
        let mut text = String::new();
        text.push('-');
        let digits = decimal(magnitude);
        text.append(digits.as_str());
        assert(text@ =~= signed_digits(n as int));
        text
    } else {
        decimal(n as u64)
    }
}

/// Writes `n` in at least two characters, with a zero in front of a single
/// digit.
pub fn two_digit_decimal(n: i64) -> (text: String)
    ensures
        text@ == two_digits(n as int),
{
    if 0 <= n && n < 10 {
        let mut text = String::new();
        text.push('0');
        let digits = decimal(n as u64);
        text.append(digits.as_str());
        assert(text@ =~= two_digits(n as int));
        text
    } else {
        signed_decimal(n)
    }
}

/// Writes `n` in at least four characters, with spaces in front of a shorter
/// number.
pub fn four_wide_decimal(n: i64) -> (text: String)
    ensures
        text@ == four_wide(n as int),
{
    let padding: usize = if n >= 1000 || n <= -100 {
        0
    } else if n >= 100 || n <= -10 {
        1
    } else if n >= 10 || n < 0 {
        2
    } else {
        3
    };
    proof {
        if n < 0 {
            lemma_digit_count((-n) as nat);
        } else {
            lemma_digit_count(n as nat);
        }
    }
    let mut text = String::new();
    let mut i: usize = 0;
    while i < padding
        invariant
            i <= padding,
            text@ == spaces(i as nat),
        decreases padding - i,
    {
        text.push(' ');
        i += 1;
        assert(text@ =~= spaces(i as nat));
    }
    let digits = signed_decimal(n);
    text.append(digits.as_str());
    assert(text@ =~= four_wide(n as int));
    text
}

} // verus!
