//! Text out of a buffer of UTF-16 units, as a platform call fills it.

use crate::error::IoError;
use vstd::prelude::*;

verus! {

/// `FromUtf16Error` of the standard library, which `String::from_utf16`
/// returns for units that it rejects. Nothing here looks inside it.
#[verifier::external_type_specification]
#[verifier::external_body]
pub struct ExFromUtf16Error(std::string::FromUtf16Error);

/// Whether `unit` is the first half of a surrogate pair.
pub open spec fn is_high_surrogate(unit: u16) -> bool {
    0xD800 <= unit <= 0xDBFF
}

/// Whether `unit` is the second half of a surrogate pair.
pub open spec fn is_low_surrogate(unit: u16) -> bool {
    0xDC00 <= unit <= 0xDFFF
}

/// The character that a high surrogate and the low surrogate after it
/// encode together.
pub open spec fn paired(high: u16, low: u16) -> char {
    (0x10000 + (high - 0xD800) * 0x400 + (low - 0xDC00)) as char
}

/// `rest` with `first` before it, where there is a `rest`.
pub open spec fn after_first(first: char, rest: Option<Seq<char>>) -> Option<Seq<char>> {
    match rest {
        Some(text) => Some(seq![first] + text),
        None => None,
    }
}

/// The characters that a sequence of UTF-16 units encodes, or `None` where
/// the sequence is not well-formed UTF-16.
///
/// A unit that is no surrogate is the character with its number. A high
/// surrogate with a low surrogate after it is one character. A surrogate
/// anywhere else makes the sequence ill-formed.
pub open spec fn utf16_text(units: Seq<u16>) -> Option<Seq<char>>
    decreases units.len(),
{
    if units.len() == 0 {
        Some(Seq::empty())
    } else if !is_high_surrogate(units[0]) && !is_low_surrogate(units[0]) {
        after_first(units[0] as char, utf16_text(units.skip(1)))
    } else if is_high_surrogate(units[0]) && units.len() >= 2 && is_low_surrogate(units[1]) {
        after_first(paired(units[0], units[1]), utf16_text(units.skip(2)))
    } else {
        None
    }
}

/// `count` units that are all zero.
pub open spec fn zeros(count: nat) -> Seq<u16> {
    Seq::new(count, |i: int| 0u16)
}

/// `count` NUL characters.
pub open spec fn nuls(count: nat) -> Seq<char> {
    Seq::new(count, |i: int| 0u8 as char)
}

/// `String::from_utf16` of the standard library, which decodes the whole
/// slice as UTF-16 and fails where it holds a surrogate that is not part
/// of a pair. The contract says that it succeeds exactly on well-formed
/// UTF-16 and then returns the characters that the units encode.
pub assume_specification[ String::from_utf16 ](v: &[u16]) -> (res: Result<
    String,
    std::string::FromUtf16Error,
>)
    ensures
        res matches Ok(s) ==> utf16_text(v@) == Some(s@),
        res is Err ==> utf16_text(v@) is None,
;

/// The text of a decoding, with the empty text for one that failed.
pub open spec fn text_or_empty(decoded: Result<Seq<char>, IoError>) -> Seq<char> {
    match decoded {
        Ok(text) => text,
        Err(_) => Seq::empty(),
    }
}

/// What decoding `units` gives: the text, or `DecodeError`.
pub open spec fn decoded_units(units: Seq<u16>) -> Result<Seq<char>, IoError> {
    match utf16_text(units) {
        Some(text) => Ok(text),
        None => Err(IoError::DecodeError),
    }
}

/// Decodes every unit of `buffer` as UTF-16, the units after the text that
/// the platform wrote included. Fails with `DecodeError` where the buffer
/// is not well-formed UTF-16. The text has at most as many characters as
/// the buffer has units.
pub fn decode_wide(buffer: &[u16]) -> (out: Result<String, IoError>)
    ensures
        match decoded_units(buffer@) {
            Ok(text) => out matches Ok(s) && s@ == text,
            Err(err) => out == Err::<String, IoError>(err),
        },
        out matches Ok(s) ==> s@.len() <= buffer@.len(),
{
    proof {
        lemma_text_no_longer_than_units(buffer@);
    }
    match String::from_utf16(buffer) {
        Ok(text) => Ok(text),
        Err(_) => Err(IoError::DecodeError),
    }
}

/// Whether the platform call that fills a buffer with a name succeeded,
/// given the number of units that it reports to have written: such a call
/// reports none where it failed.
pub fn name_was_written(written: u32) -> (ok: bool)
    ensures
        ok == (written >= 1),
{
    written >= 1
}

/// The decoded name, or the empty string where decoding failed.
pub fn name_or_empty(decoded: Result<String, IoError>) -> (out: String)
    ensures
        out@ == match decoded {
            Ok(name) => name@,
            Err(_) => Seq::<char>::empty(),
        },
{
    match decoded {
        Ok(name) => name,
        Err(_) => String::new(),
    }
}

/// The file name of the running program out of the buffer that the platform
/// filled with it: all of `buffer` decoded as UTF-16, or the empty string
/// where the buffer does not decode. The name has at most as many
/// characters as the buffer has units.
pub fn get_module_file_name(buffer: &[u16]) -> (out: String)
    ensures
        out@ == text_or_empty(decoded_units(buffer@)),
        out@.len() <= buffer@.len(),
{
    name_or_empty(decode_wide(buffer))
}

/// A text has at most as many characters as the units that encode it.
pub proof fn lemma_text_no_longer_than_units(units: Seq<u16>)
    ensures
        utf16_text(units) matches Some(text) ==> text.len() <= units.len(),
    decreases units.len(),
{
    if units.len() > 0 {
        if !is_high_surrogate(units[0]) && !is_low_surrogate(units[0]) {
            lemma_text_no_longer_than_units(units.skip(1));
        } else if is_high_surrogate(units[0]) && units.len() >= 2 && is_low_surrogate(units[1]) {
            lemma_text_no_longer_than_units(units.skip(2));
        }
    }
}

/// Units that decode, followed by units that decode, decode to the one
/// text followed by the other.
pub proof fn lemma_text_of_both(front: Seq<u16>, back: Seq<u16>)
    requires
        utf16_text(front) is Some,
        utf16_text(back) is Some,
    ensures
        utf16_text(front + back) == Some(utf16_text(front)->0 + utf16_text(back)->0),
    decreases front.len(),
{
    if front.len() > 0 {
        let one: int = if is_high_surrogate(front[0]) {
            2
        } else {
            1
        };
        lemma_text_of_both(front.skip(one), back);
        assert((front + back).skip(one) =~= front.skip(one) + back);
    }
}

/// Units that are all zero decode to as many NUL characters: this is what
/// a buffer holds that no call has written to.
pub proof fn lemma_text_of_zeros(count: nat)
    ensures
        utf16_text(zeros(count)) == Some(nuls(count)),
    decreases count,
{
    if count > 0 {
        lemma_text_of_zeros((count - 1) as nat);
        assert(zeros(count).skip(1) =~= zeros((count - 1) as nat));
    }
}

/// A name that decodes, followed by zero units up to the end of the
/// buffer, decodes to the name followed by as many NUL characters.
pub proof fn lemma_text_then_nuls(name: Seq<u16>, count: nat)
    requires
        utf16_text(name) is Some,
    ensures
        utf16_text(name + zeros(count)) == Some(utf16_text(name)->0 + nuls(count)),
{
    lemma_text_of_zeros(count);
    lemma_text_of_both(name, zeros(count));
}

} // verus!
