//! Renderings that come from the standard library.

use vstd::prelude::*;
#[allow(unused_imports)]
use vstd::utf8::{decode_utf8, valid_utf8};

use crate::time::Duration;
#[allow(unused_imports)]
use crate::time::NANOS_PER_SEC;

verus! {

/// The digits of `n` in decimal notation.
pub open spec fn decimal_digits(n: nat) -> Seq<char>
    decreases n,
{
    let digit = ('0' as u32 + n % 10) as char;
    if n < 10 {
        seq![digit]
    } else {
        decimal_digits(n / 10).push(digit)
    }
}

/// The number that decimal digits denote.
pub open spec fn denoted(digits: Seq<char>) -> int
    decreases digits.len(),
{
    if digits.len() == 0 {
        0
    } else {
        denoted(digits.drop_last()) * 10 + (digits.last() as u32 - 48)
    }
}

/// The decimal digits of a number are digits, denote it, and start with no needless zero.
pub proof fn law_decimal_digits_denote_their_number(n: nat)
    ensures
        denoted(decimal_digits(n)) == n,
        decimal_digits(n).len() > 0,
        forall|i: int|
            0 <= i < decimal_digits(n).len() ==> '0' <= #[trigger] decimal_digits(n)[i] <= '9',
        n > 0 ==> decimal_digits(n)[0] != '0',
    decreases n,
{
    let digits = decimal_digits(n);
    if n < 10 {
        assert(digits.drop_last() =~= Seq::<char>::empty());
        assert(denoted(digits.drop_last()) == 0);
    } else {
        law_decimal_digits_denote_their_number(n / 10);
        assert(digits.drop_last() =~= decimal_digits(n / 10));
    }
}

/// The digit `n`.
fn digit_text(n: u64) -> (text: &'static str)
    requires
        n < 10,
    ensures
        text@ == seq![('0' as u32 + n) as char],
{
    proof {
        reveal_strlit("0");
        reveal_strlit("1");
        reveal_strlit("2");
        reveal_strlit("3");
        reveal_strlit("4");
        reveal_strlit("5");
        reveal_strlit("6");
        reveal_strlit("7");
        reveal_strlit("8");
        reveal_strlit("9");
    }
    let text = match n {
        0 => "0",
        1 => "1",
        2 => "2",
        3 => "3",
        4 => "4",
        5 => "5",
        6 => "6",
        7 => "7",
        8 => "8",
        _ => "9",
    };
    assert(text@ =~= seq![('0' as u32 + n) as char]);
    text
}

/// Renders a number in decimal notation.
pub fn decimal_text(n: u64) -> (text: String)
    ensures
        text@ == decimal_digits(n as nat),
    decreases n,
{
    if n < 10 {
        digit_text(n).to_owned()
    } else {
        let text = decimal_text(n / 10).concat(digit_text(n % 10));
        assert(text@ =~= decimal_digits(n as nat));
        text
    }
}

/// What the standard library's `Debug` prints for a duration of so many nanoseconds.
pub uninterp spec fn duration_debug_text(nanos: nat) -> Seq<char>;

/// The `Debug` form of `std::time::Duration`, named by [`duration_debug_text`].
#[verifier::external_body]
fn debug_parts_text(secs: u64, nanos: u32) -> (text: String)
    requires
        nanos < NANOS_PER_SEC,
    ensures
        text@ == duration_debug_text((secs * NANOS_PER_SEC + nanos) as nat),
{
    format!("{:?}", std::time::Duration::new(secs, nanos))
}

/// Renders a duration as the standard library's `Debug` does.
pub fn debug_duration_text(duration: Duration) -> (text: String)
    ensures
        text@ == duration_debug_text(duration.nanos()),
{
    debug_parts_text(duration.as_secs(), duration.subsec_nanos())
}

/// What `String::from_utf8_lossy` makes of a byte string.
pub uninterp spec fn lossy_text(bytes: Seq<u8>) -> Seq<char>;

/// `String::from_utf8_lossy`: the text of a byte string, with a replacement character for
/// what is not UTF-8. Valid UTF-8 comes out as it is.
#[verifier::external_body]
pub(crate) fn from_utf8_lossy(bytes: &[u8]) -> (text: String)
    ensures
        text@ == lossy_text(bytes@),
        valid_utf8(bytes@) ==> text@ == decode_utf8(bytes@),
{
    String::from_utf8_lossy(bytes).into_owned()
}

/// What the standard library's `Debug` prints for a text.
pub uninterp spec fn str_debug_text(text: Seq<char>) -> Seq<char>;

/// The `Debug` form of `str`, named by [`str_debug_text`]: the text with its special
/// characters escaped, between two double quotes.
#[verifier::external_body]
pub(crate) fn debug_str_text(text: &str) -> (quoted: String)
    ensures
        quoted@ == str_debug_text(text@),
        quoted@.len() >= 2,
        quoted@[0] == '"',
        quoted@[quoted@.len() - 1] == '"',
{
    format!("{:?}", text)
}

/// Whether more bytes could make the byte string valid UTF-8: it is valid, or it ends in the
/// middle of a character.
pub open spec fn can_become_valid(bytes: Seq<u8>) -> bool {
    exists|more: Seq<u8>| #[trigger] valid_utf8(bytes + more)
}

/// The length of the malformed sequence at which `std::str::from_utf8` stops, or `None`
/// where the input ends in the middle of a character.
pub uninterp spec fn utf8_error_len(bytes: Seq<u8>) -> Option<usize>;

/// Whether `index` bytes are the longest prefix of `bytes` that is valid UTF-8.
pub open spec fn is_longest_valid_prefix(bytes: Seq<u8>, index: int) -> bool {
    &&& 0 <= index <= bytes.len()
    &&& valid_utf8(bytes.take(index))
    &&& forall|longer: int|
        index < longer <= bytes.len() ==> !valid_utf8(#[trigger] bytes.take(longer))
}

/// `std::str::from_utf8`: the bytes as text where they are valid UTF-8; otherwise the parts
/// of its error. `valid_up_to` is the length of the longest valid prefix. `error_len` is
/// `None` where the input ends in the middle of a character, which more bytes could complete;
/// otherwise it is the length of the malformed sequence after that prefix. How long that
/// sequence is taken to be, beyond that it is not empty and lies within the input, is named
/// by [`utf8_error_len`].
#[verifier::external_body]
pub(crate) fn from_utf8(bytes: &[u8]) -> (result: Result<&str, (usize, Option<usize>)>)
    ensures
        result is Ok <==> valid_utf8(bytes@),
        result matches Ok(text) ==> text@ == decode_utf8(bytes@),
        result matches Err(error) ==> is_longest_valid_prefix(bytes@, error.0 as int) && error.1
            == utf8_error_len(bytes@),
        result matches Err(error) ==> (error.1 is None <==> can_become_valid(bytes@)),
        result matches Err((valid_up_to, Some(length))) ==> 0 < length && valid_up_to + length
            <= bytes@.len(),
{
    match std::str::from_utf8(bytes) {
        Ok(text) => Ok(text),
        Err(error) => Err((error.valid_up_to(), error.error_len())),
    }
}

} // verus!
