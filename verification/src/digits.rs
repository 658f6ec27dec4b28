//! Decimal numerals, for the line numbers beside the text.

use vstd::prelude::*;

verus! {

/// The number of decimal digits of `n`.
pub open spec fn decimal_digits(n: nat) -> nat
    decreases n,
{
    if n < 10 {
        1
    } else {
        1 + decimal_digits(n / 10)
    }
}

/// The char of the digit `d`.
pub open spec fn digit_char(d: nat) -> char {
    ('0' as u8 + d) as char
}

/// The decimal numeral of `n`, most significant digit first.
pub open spec fn decimal_text(n: nat) -> Seq<char>
    decreases n,
{
    if n < 10 {
        seq![digit_char(n)]
    } else {
        decimal_text(n / 10).push(digit_char(n % 10))
    }
}

/// `s` from its last element to its first.
pub open spec fn backwards(s: Seq<char>) -> Seq<char> {
    Seq::new(s.len(), |i: int| s[s.len() - 1 - i])
}

/// A numeral has as many chars as its number has digits.
pub proof fn lemma_decimal_text_len(n: nat)
    ensures
        decimal_text(n).len() == decimal_digits(n),
    decreases n,
{
    if n >= 10 {
        lemma_decimal_text_len(n / 10);
    }
}

/// The char of a digit.
fn digit(d: usize) -> (c: char)
    requires
        d < 10,
    ensures
        c == digit_char(d as nat),
{
    (48u8 + d as u8) as char
}

/// Calls `String::push`: `c` is appended to `s`.
#[verifier::external_body]
pub(crate) fn string_push(s: &mut String, c: char)
    ensures
        final(s)@ == old(s)@.push(c),
{
    s.push(c)
}

/// The decimal numeral of `n`.
pub fn decimal_string(n: usize) -> (text: String)
    ensures
        text@ == decimal_text(n as nat),
{
    let mut digits: Vec<char> = Vec::new();
    let mut rest: usize = n;
    assert(decimal_text(rest as nat) + backwards(digits@) =~= decimal_text(n as nat));
    while rest >= 10
        invariant
            decimal_text(n as nat) == decimal_text(rest as nat) + backwards(digits@),
        decreases rest,
    {
        let ghost before = digits@;
        digits.push(digit(rest % 10));
        assert(backwards(digits@) =~= seq![digit_char((rest % 10) as nat)] + backwards(before));
        assert(decimal_text((rest / 10) as nat) + backwards(digits@) =~= decimal_text(rest as nat)
            + backwards(before));
        rest = rest / 10;
    }
    let ghost before = digits@;
    digits.push(digit(rest));
    assert(backwards(digits@) =~= decimal_text(rest as nat) + backwards(before));
    let mut text = String::new();
    let mut i: usize = digits.len();
    while i > 0
        invariant
            i <= digits.len(),
            text@ == backwards(digits@).subrange(0, digits.len() - i),
        decreases i,
    {
        i = i - 1;
        let ghost so_far = text@;
        string_push(&mut text, digits[i]);
        assert(text@ =~= backwards(digits@).subrange(0, digits.len() - i));
    }
    assert(text@ =~= backwards(digits@));
    text
}

} // verus!
