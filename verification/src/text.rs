//! The textual forms of an identifier value.

use crate::mixing::{unmix, unmixed};
use crate::nonzero::NonZeroWord;
use vstd::prelude::*;
use vstd::string::*;

verus! {

/// The character that stands for a digit below sixteen.
pub open spec fn digit_char(digit: int) -> char {
    "0123456789abcdef"@[digit]
}

/// The decimal digits of a number, most significant first, without leading
/// zeros; zero is the single digit `0`.
pub open spec fn decimal_digits(value: nat) -> Seq<char>
    decreases value,
{
    if value < 10 {
        seq![digit_char(value as int)]
    } else {
        decimal_digits(value / 10).push(digit_char((value % 10) as int))
    }
}

/// The hexadecimal digits of a number in lower case, most significant first,
/// without leading zeros; zero is the single digit `0`.
pub open spec fn hex_digits(value: nat) -> Seq<char>
    decreases value,
{
    if value < 16 {
        seq![digit_char(value as int)]
    } else {
        hex_digits(value / 16).push(digit_char((value % 16) as int))
    }
}

/// A value in decimal.
pub open spec fn decimal_text(value: u64) -> Seq<char> {
    decimal_digits(value as nat)
}

/// A value in lower-case hexadecimal behind `0x`.
pub open spec fn hex_text(value: u64) -> Seq<char> {
    "0x"@ + hex_digits(value as nat)
}

/// `format!("{}", value)` for a `u64`: the standard formatter writes an
/// unsigned number under `{}` in decimal, without sign, padding or leading
/// zeros.
#[verifier::external_body]
pub(crate) fn format_decimal(value: u64) -> (text: String)
    ensures
        text@ == decimal_text(value),
{
    format!("{}", value)
}

/// `format!("{:#x}", value)` for a `u64`: the standard formatter writes an
/// unsigned number under `{:#x}` in lower-case hexadecimal behind the prefix
/// `0x`, without padding or leading zeros.
#[verifier::external_body]
pub(crate) fn format_hex(value: u64) -> (text: String)
    ensures
        text@ == hex_text(value),
{
    format!("{:#x}", value)
}

/// The diagnostic form of an identifier value: the value itself in
/// hexadecimal, and the sequence number behind it in decimal.
pub open spec fn debug_form(value: u64) -> Seq<char> {
    "Id("@ + hex_text(value) + "; seq="@ + decimal_text(unmixed(value)) + ")"@
}

/// The plain form of an identifier value: the number in decimal.
pub fn display_text(value: NonZeroWord) -> (text: String)
    ensures
        text@ == decimal_text(value@),
{
    format_decimal(value.get())
}

/// The diagnostic form of an identifier value. It is meant for people, and
/// shows the sequence number because that is the easier number to read.
pub fn debug_text(value: NonZeroWord) -> (text: String)
    ensures
        text@ == debug_form(value@),
{
    let raw: u64 = value.get();
    let hex = format_hex(raw);
    let seq = format_decimal(unmix(raw));
    let mut text = String::from_str("Id(");
    text.append(hex.as_str());
    text.append("; seq=");
    text.append(seq.as_str());
    text.append(")");
    text
}

} // verus!
