//! The high score: the best score seen, with the text form in which it is
//! kept between runs.

use vstd::prelude::*;
use vstd::string::StringSliceAdditionalSpecFns;

verus! {

/// Whether `text` is one or more decimal digits.
pub open spec fn is_digits(text: Seq<u8>) -> bool {
    &&& text.len() > 0
    &&& forall|i: int| 0 <= i < text.len() ==> 48 <= #[trigger] text[i] <= 57
}

/// The number that the decimal digits `text` write.
pub open spec fn digits_value(text: Seq<u8>) -> nat
    decreases text.len(),
{
    if text.len() == 0 {
        0
    } else {
        (digits_value(text.drop_last()) * 10 + (text.last() - 48)) as nat
    }
}

/// The score that `text` stands for: the number it writes in decimal
/// digits, with or without a plus sign in front, if it is in the range of
/// a score; zero for any other text.
pub open spec fn saved_score(text: Seq<u8>) -> nat {
    let digits = if text.len() > 0 && text[0] == 43 {
        text.drop_first()
    } else {
        text
    };
    if is_digits(digits) && digits_value(digits) <= usize::MAX {
        digits_value(digits)
    } else {
        0
    }
}

/// A longer run of digits writes no smaller a number.
proof fn lemma_digits_value_grows(text: Seq<u8>, n: int)
    requires
        0 <= n <= text.len(),
        forall|i: int| 0 <= i < text.len() ==> 48 <= #[trigger] text[i] <= 57,
    ensures
        digits_value(text.take(n)) <= digits_value(text),
    decreases text.len() - n,
{
    if n < text.len() {
        lemma_digits_value_grows(text, n + 1);
        assert(text.take(n + 1).drop_last() =~= text.take(n));
    } else {
        assert(text.take(n) =~= text);
    }
}

/// Keeps the highest score seen.
#[derive(Debug)]
pub struct HighScoreManager {
    high_score: usize,
}

impl View for HighScoreManager {
    type V = nat;

    closed spec fn view(&self) -> nat {
        self.high_score as nat
    }
}

impl HighScoreManager {
    /// A manager that starts out from the high score `baseline`.
    pub fn new(baseline: usize) -> (manager: Self)
        ensures
            manager@ == baseline,
    {
        Self { high_score: baseline }
    }

    /// A manager that starts out from the high score that `saved` stands
    /// for.
    pub fn from_saved(saved: &str) -> (manager: Self)
        ensures
            manager@ == saved_score(saved.spec_bytes()),
    {
        Self::new(parse_saved(saved.as_bytes()))
    }

    /// Takes note of `score`. Returns whether it is a new high score, which
    /// is then to be saved.
    pub fn add_score(&mut self, score: usize) -> (is_record: bool)
        ensures
            is_record == (score > old(self)@),
            final(self)@ == (if score > old(self)@ {
                score as nat
            } else {
                old(self)@
            }),
    {
        if score > self.high_score {
            self.high_score = score;
            true
        } else {
            false
        }
    }

    pub fn get_high_score(&self) -> (high_score: usize)
        ensures
            high_score == self@,
    {
        self.high_score
    }
}

/// The score that the bytes `text` stand for.
pub fn parse_saved(text: &[u8]) -> (score: usize)
    ensures
        score == saved_score(text@),
{
    let start: usize = if text.len() > 0 && text[0] == 43 {
        1
    } else {
        0
    };
    let ghost digits = text@.subrange(start as int, text@.len() as int);
    assert(digits =~= (if text@.len() > 0 && text@[0] == 43 {
        text@.drop_first()
    } else {
        text@
    }));
    if start == text.len() {
        return 0;
    }
    let mut score: usize = 0;
    let mut i: usize = start;
    while i < text.len()
        invariant
            start <= i <= text@.len(),
            digits == text@.subrange(start as int, text@.len() as int),
            digits == (if text@.len() > 0 && text@[0] == 43 {
                text@.drop_first()
            } else {
                text@
            }),
            forall|k: int| 0 <= k < i - start ==> 48 <= #[trigger] digits[k] <= 57,
            score == digits_value(digits.take(i - start)),
        decreases text@.len() - i,
    {
        let byte = text[i];
        if byte < 48 || byte > 57 {
            assert(digits[i - start] == byte);
            return 0;
        }
        assert(digits.take(i - start + 1).drop_last() =~= digits.take(i - start));
        assert(digits.take(i - start + 1).last() == byte);
        let next = match score.checked_mul(10) {
            Some(tens) => tens.checked_add((byte - 48) as usize),
            None => None,
        };
        match next {
            Some(value) => {
                score = value;
            },
            None => {
                proof {
                    assert(digits_value(digits.take(i - start + 1)) == score * 10 + (byte - 48));
                    if is_digits(digits) {
                        lemma_digits_value_grows(digits, i - start + 1);
                    }
                }
                return 0;
            },
        }
        i += 1;
    }
    assert(digits.take(i - start) =~= digits);
    score
}

} // verus!
