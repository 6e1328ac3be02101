//! Calls into code that is not proved here: each contract below is believed.

use vstd::prelude::*;
use vstd::string::*;
use vstd::utf8::*;

use crate::number::all_hex;
use crate::text::optional;

verus! {

/// A PCI class code in brackets, such as `[0300]`.
pub const CLASS_PATTERN: &'static str = r"\[([0-9a-fA-F]{4})\]";

/// A vendor and a device in brackets, such as `[10de:1f95]`.
pub const PAIR_PATTERN: &'static str = r"\[([0-9a-fA-F]{4}):[0-9a-fA-F]{4}\]";

/// Whether `text` begins with four hexadecimal digits in brackets or, for a
/// `pair`, with twice four, a colon between them.
pub open spec fn begins_with_code(text: Seq<char>, pair: bool) -> bool {
    let end: int = if pair {
        10
    } else {
        5
    };
    &&& text.len() > end
    &&& text[0] == '['
    &&& all_hex(text.subrange(1, 5))
    &&& pair ==> text[5] == ':' && all_hex(text.subrange(6, 10))
    &&& text[end] == ']'
}

/// The first four digits of the leftmost code in `text`.
pub open spec fn first_code(text: Seq<char>, pair: bool) -> Option<Seq<char>>
    decreases text.len(),
{
    if text.len() == 0 {
        None
    } else if begins_with_code(text, pair) {
        Some(text.subrange(1, 5))
    } else {
        first_code(text.skip(1), pair)
    }
}

/// `regex::Regex::new` on one of the two patterns of this module, then
/// `Regex::captures` on `text`: what the first group of the leftmost match
/// holds, or nothing where no part of `text` matches. Both patterns are valid,
/// and their group takes part in every match. The pattern is compiled anew at
/// each call.
#[verifier::external_body]
pub(crate) fn first_group(pattern: &str, text: &str) -> (group: Option<String>)
    requires
        pattern@ == CLASS_PATTERN@ || pattern@ == PAIR_PATTERN@,
    ensures
        pattern@ == CLASS_PATTERN@ ==> optional(group) == first_code(text@, false),
        pattern@ == PAIR_PATTERN@ ==> optional(group) == first_code(text@, true),
{
    let compiled = regex::Regex::new(pattern).unwrap();
    compiled.captures(text).map(|found| found[1].to_string())
}

/// What `String::from_utf8_lossy` makes of `bytes`.
pub uninterp spec fn utf8_lossy(bytes: Seq<u8>) -> Seq<char>;

/// The text that `bytes` hold: what they encode where they are UTF-8, else what
/// is left once the parts that are not have been replaced.
pub open spec fn decoded(bytes: Seq<u8>) -> Seq<char> {
    if valid_utf8(bytes) {
        decode_utf8(bytes)
    } else {
        utf8_lossy(bytes)
    }
}

/// `String::from_utf8_lossy`: bytes that are UTF-8 come out as the text that they
/// encode; of others, which parts are replaced by U+FFFD is left to the name.
#[verifier::external_body]
pub(crate) fn decode_lossy(bytes: &[u8]) -> (text: String)
    ensures
        text@ == utf8_lossy(bytes@),
        valid_utf8(bytes@) ==> text@ == decode_utf8(bytes@),
{
    String::from_utf8_lossy(bytes).into_owned()
}

/// `std::str::from_utf8`: succeeds exactly on bytes that are UTF-8, with the text
/// that they encode.
#[verifier::external_body]
pub(crate) fn decode_strict(bytes: &[u8]) -> (text: Option<&str>)
    ensures
        text is Some <==> valid_utf8(bytes@),
        text matches Some(found) ==> found@ == decode_utf8(bytes@),
{
    std::str::from_utf8(bytes).ok()
}

/// What `str::to_lowercase` makes of `text`.
pub uninterp spec fn unicode_lower(text: Seq<char>) -> Seq<char>;

/// The lower case of an ASCII letter; any other character as it is.
pub open spec fn ascii_lower_char(c: char) -> char {
    if 'A' <= c <= 'Z' {
        (c as u32 + 32) as char
    } else {
        c
    }
}

/// `text` with its ASCII letters in lower case.
pub open spec fn ascii_lower(text: Seq<char>) -> Seq<char> {
    Seq::new(text.len(), |i: int| ascii_lower_char(text[i]))
}

/// `text` in lower case.
pub open spec fn lowered(text: Seq<char>) -> Seq<char> {
    if is_ascii_chars(text) {
        ascii_lower(text)
    } else {
        unicode_lower(text)
    }
}

/// `str::to_lowercase`: of ASCII text only the letters `A` to `Z` change; other
/// text is left to the name.
#[verifier::external_body]
pub(crate) fn lower_case(text: &str) -> (lower: String)
    ensures
        lower@ == unicode_lower(text@),
        is_ascii_chars(text@) ==> lower@ == ascii_lower(text@),
{
    text.to_lowercase()
}

} // verus!
