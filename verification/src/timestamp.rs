//! The wire form of a timestamp: milliseconds since the epoch, written as a
//! string of decimal digits.

use vstd::prelude::*;
use vstd::string::*;
use crate::instant::Instant;

verus! {

/// Why a string is not a timestamp.
#[derive(Clone, Copy, Debug, PartialEq, Eq)]
pub enum TimestampError {
    /// The string holds no character at all.
    Empty,
    /// The string holds a character that is not one of `0` to `9`.
    NotDecimal,
    /// The string holds only digits, and the number they write is larger than
    /// a `u64` can hold.
    TooLarge,
}

/// The byte that writes the digit `0` in ASCII.
const DIGIT_ZERO: u8 = 48;

/// The byte that writes the digit `9` in ASCII.
const DIGIT_NINE: u8 = 57;

/// `c` is one of the ten decimal digits.
pub open spec fn is_digit(c: char) -> bool {
    '0' <= c <= '9'
}

/// The number that the digit `c` stands for.
pub open spec fn digit_value(c: char) -> nat
    recommends
        is_digit(c),
{
    (c as int - '0' as int) as nat
}

/// Every character of `s` is a decimal digit.
pub open spec fn all_digits(s: Seq<char>) -> bool {
    forall|i: int| 0 <= i < s.len() ==> is_digit(#[trigger] s[i])
}

/// The number that `s` writes in base ten, most significant digit first.
pub open spec fn decimal_value(s: Seq<char>) -> nat
    recommends
        all_digits(s),
    decreases s.len(),
{
    if s.len() == 0 {
        0
    } else {
        decimal_value(s.drop_last()) * 10 + digit_value(s.last())
    }
}

/// What a string of the wire format says: the count of milliseconds that it
/// writes, or the reason why it writes none.
pub open spec fn millis_of(s: Seq<char>) -> Result<u64, TimestampError> {
    if s.len() == 0 {
        Err(TimestampError::Empty)
    } else if !all_digits(s) {
        Err(TimestampError::NotDecimal)
    } else if decimal_value(s) > u64::MAX {
        Err(TimestampError::TooLarge)
    } else {
        Ok(decimal_value(s) as u64)
    }
}

/// The instant that a string of the wire format names.
pub open spec fn timestamp_of(s: Seq<char>) -> Result<Instant, TimestampError> {
    match millis_of(s) {
        Ok(ms) => Ok(Instant::of_millis(ms)),
        Err(e) => Err(e),
    }
}

/// A string writes a number at least as large as any of its prefixes does.
pub proof fn lemma_prefix_value(s: Seq<char>, k: int)
    requires
        0 <= k <= s.len(),
    ensures
        decimal_value(s.take(k)) <= decimal_value(s),
    decreases s.len(),
{
    if k == s.len() {
        assert(s.take(k) =~= s);
    } else {
        lemma_prefix_value(s.drop_last(), k);
        assert(s.drop_last().take(k) =~= s.take(k));
    }
}

/// Reads a string of decimal digits as a count of milliseconds.
///
/// A sign, a blank or any other character that is not a digit is refused,
/// and so is a number that does not fit into 64 bits. Leading zeros are
/// accepted and change nothing.
pub fn parse_millis(text: &str) -> (r: Result<u64, TimestampError>)
    ensures
        r == millis_of(text@),
{
    if text.is_empty() {
        return Err(TimestampError::Empty);
    }
    if !text.is_ascii() {
        return Err(TimestampError::NotDecimal);
    }
    let bytes = text.as_bytes();
    proof {
        is_ascii_spec_bytes(text);
    }
    let n = bytes.len();
    let mut i: usize = 0;
    while i < n
        invariant
            i <= n,
            n == text@.len(),
            n == bytes@.len(),
            is_ascii(text),
            forall|j: int| 0 <= j < n ==> bytes@[j] == text@[j] as u8,
            forall|j: int| 0 <= j < i ==> is_digit(#[trigger] text@[j]),
        decreases n - i,
    {
        let b = bytes[i];
        if b < DIGIT_ZERO || b > DIGIT_NINE {
            assert(!is_digit(text@[i as int]));
            return Err(TimestampError::NotDecimal);
        }
        i = i + 1;
    }
    let mut acc: u64 = 0;
    i = 0;
    while i < n
        invariant
            i <= n,
            n == text@.len(),
            n == bytes@.len(),
            n > 0,
            all_digits(text@),
            forall|j: int| 0 <= j < n ==> bytes@[j] == text@[j] as u8,
            acc == decimal_value(text@.take(i as int)),
        decreases n - i,
    {
        let d = (bytes[i] - DIGIT_ZERO) as u64;
        proof {
            let next = text@.take(i + 1);
            assert(next.drop_last() =~= text@.take(i as int));
            assert(next.last() == text@[i as int]);
            assert(is_digit(text@[i as int]));
            assert(decimal_value(next) == acc * 10 + d);
            lemma_prefix_value(text@, i + 1);
        }
        if acc > (u64::MAX - d) / 10 {
            return Err(TimestampError::TooLarge);
        }
        acc = acc * 10 + d;
        i = i + 1;
    }
    proof {
        assert(text@.take(n as int) =~= text@);
    }
    Ok(acc)
}

/// Turns the wire form of a timestamp into the instant it names: the whole
/// seconds are the count divided by one thousand, and the remaining
/// milliseconds become nanoseconds.
pub fn deserialize_timestamp(text: &str) -> (r: Result<Instant, TimestampError>)
    ensures
        r == timestamp_of(text@),
{
    match parse_millis(text) {
        Ok(ms) => Ok(Instant::from_millis(ms)),
        Err(e) => Err(e),
    }
}

} // verus!
