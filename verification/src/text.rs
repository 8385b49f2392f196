//! Texts that responses are written in: numbers in decimal and hexadecimal
//! digits, and lines joined by a separator.

use vstd::prelude::*;
use vstd::string::*;
use itertools::Itertools;

verus! {

/// The character of a digit below sixteen, in lower case.
pub open spec fn digit_char(digit: nat) -> char {
    seq!['0', '1', '2', '3', '4', '5', '6', '7', '8', '9', 'a', 'b', 'c', 'd', 'e', 'f'][digit as int]
}

/// `n` in decimal digits, most significant first, without leading zeros; zero
/// is the single digit `0`.
pub open spec fn decimal_text(n: nat) -> Seq<char>
    decreases n,
{
    if n < 10 {
        seq![digit_char(n)]
    } else {
        decimal_text(n / 10).push(digit_char(n % 10))
    }
}

/// `n` in lower-case hexadecimal digits, most significant first, without a
/// prefix and without leading zeros; zero is the single digit `0`.
pub open spec fn hex_text(n: nat) -> Seq<char>
    decreases n,
{
    if n < 16 {
        seq![digit_char(n)]
    } else {
        hex_text(n / 16).push(digit_char(n % 16))
    }
}

/// The `width` least significant hexadecimal digits of `n`, most significant
/// first, with leading zeros where `n` has fewer.
pub open spec fn fixed_hex_text(n: nat, width: nat) -> Seq<char>
    decreases width,
{
    if width == 0 {
        Seq::empty()
    } else {
        fixed_hex_text(n / 16, (width - 1) as nat).push(digit_char(n % 16))
    }
}

/// The items in order, with `separator` between each two of them.
pub open spec fn joined(items: Seq<Seq<char>>, separator: Seq<char>) -> Seq<char>
    decreases items.len(),
{
    if items.len() == 0 {
        Seq::empty()
    } else if items.len() == 1 {
        items[0]
    } else {
        joined(items.drop_last(), separator) + separator + items.last()
    }
}

/// The texts that a vector of strings holds.
pub open spec fn texts(items: Seq<String>) -> Seq<Seq<char>> {
    Seq::new(items.len(), |i: int| items[i]@)
}

/// Joins the strings with `separator` between them, by `Itertools::join` on the
/// vector's iterator. That function writes the first item, then the separator
/// and the next item for each item that follows, and gives the empty string for
/// no item.
#[verifier::external_body]
pub(crate) fn join(items: &Vec<String>, separator: &str) -> (text: String)
    ensures
        text@ == joined(texts(items@), separator@),
{
    items.iter().join(separator)
}

/// The one-character string of a decimal digit.
fn decimal_digit_str(digit: u64) -> (text: &'static str)
    requires
        digit < 10,
    ensures
        text@ == seq![digit_char(digit as nat)],
{
    proof {
        reveal_strlit("0");
        reveal_strlit("1");
        reveal_strlit("2");
        reveal_strlit("3");
        reveal_strlit("4");
        reveal_strlit("5");
        reveal_strlit("6");
        reveal_strlit("7");
        reveal_strlit("8");
        reveal_strlit("9");
    }
    if digit == 0 {
        "0"
    } else if digit == 1 {
        "1"
    } else if digit == 2 {
        "2"
    } else if digit == 3 {
        "3"
    } else if digit == 4 {
        "4"
    } else if digit == 5 {
        "5"
    } else if digit == 6 {
        "6"
    } else if digit == 7 {
        "7"
    } else if digit == 8 {
        "8"
    } else {
        "9"
    }
}

/// Writes `n` in decimal digits.
pub fn decimal_string(n: u64) -> (text: String)
    ensures
        text@ == decimal_text(n as nat),
    decreases n,
{
    if n < 10 {
        String::from_str(decimal_digit_str(n))
    } else {
        let mut text = decimal_string(n / 10);
        text.append(decimal_digit_str(n % 10));
        text
    }
}

/// A text of fixed width has as many digits as the width says.
pub proof fn lemma_fixed_hex_text_len(n: nat, width: nat)
    ensures
        fixed_hex_text(n, width).len() == width,
    decreases width,
{
    if width > 0 {
        lemma_fixed_hex_text_len(n / 16, (width - 1) as nat);
    }
}

} // verus!
