//! Scores as text, with their digits in groups of three.

use vstd::prelude::*;
use vstd::string::StringExecFns;
use num_format::{Locale, ToFormattedString};

verus! {

/// The character of the decimal digit `digit`.
pub open spec fn digit_char(digit: nat) -> char {
    if digit == 0 {
        '0'
    } else if digit == 1 {
        '1'
    } else if digit == 2 {
        '2'
    } else if digit == 3 {
        '3'
    } else if digit == 4 {
        '4'
    } else if digit == 5 {
        '5'
    } else if digit == 6 {
        '6'
    } else if digit == 7 {
        '7'
    } else if digit == 8 {
        '8'
    } else {
        '9'
    }
}

/// `n` in decimal digits.
pub open spec fn decimal(n: nat) -> Seq<char>
    decreases n,
{
    if n < 10 {
        seq![digit_char(n)]
    } else {
        decimal(n / 10).push(digit_char(n % 10))
    }
}

/// `n` in decimal digits, with a comma before every group of three digits
/// counted from the right, as in `1,234,567`.
pub open spec fn grouped(n: nat) -> Seq<char>
    decreases n,
{
    if n < 1000 {
        decimal(n)
    } else {
        grouped(n / 1000) + seq![
            ',',
            digit_char(n % 1000 / 100),
            digit_char(n % 100 / 10),
            digit_char(n % 10),
        ]
    }
}

/// Calls `to_formatted_string` of `num_format::ToFormattedString` on `n`
/// with the locale `Locale::en`.
///
/// That locale separates groups of three digits by a comma, so the result
/// is claimed to be the decimal digits of `n` grouped in that way.
#[verifier::external_body]
fn format_en(n: usize) -> (text: String)
    ensures
        text@ == grouped(n as nat),
{
    n.to_formatted_string(&Locale::en)
}

/// A score as it is shown: in decimal digits, grouped in threes by commas.
pub fn score_text(score: usize) -> (text: String)
    ensures
        text@ == grouped(score as nat),
{
    format_en(score)
}

/// The line that shows the high score.
pub fn high_score_text(high_score: usize) -> (text: String)
    ensures
        text@ == "High Score: "@ + grouped(high_score as nat),
{
    let digits = score_text(high_score);
    String::from_str("High Score: ").concat(digits.as_str())
}

} // verus!
