//! Text taken from property bytes, and the sentinel that stands for a field
//! the windowing server did not supply.

use vstd::prelude::*;
use vstd::utf8::{decode_utf8, valid_utf8};
use std::borrow::Cow;

verus! {

/// The text that lossy UTF-8 decoding makes of `bytes`: well-formed sequences
/// decode to their characters, and each malformed stretch becomes U+FFFD.
pub uninterp spec fn utf8_lossy(bytes: Seq<u8>) -> Seq<char>;

/// `String::from_utf8_lossy` decodes bytes into text and never fails.
/// Assumed: the text is a function of the bytes alone, and [`utf8_lossy`]
/// names it; of bytes that are valid UTF-8 it is the characters that they
/// encode. Nothing further is claimed about what malformed bytes give.
pub assume_specification<'a>[ std::string::String::from_utf8_lossy ](v: &'a [u8]) -> (text:
    std::borrow::Cow<'a, str>)
    ensures
        text@ == utf8_lossy(v@),
        valid_utf8(v@) ==> text@ == decode_utf8(v@),
;

/// The text that property bytes stand for: the characters they encode where
/// they are valid UTF-8, and their lossy decoding otherwise.
pub open spec fn lossy_text(bytes: Seq<u8>) -> Seq<char> {
    if valid_utf8(bytes) {
        decode_utf8(bytes)
    } else {
        utf8_lossy(bytes)
    }
}

/// Decodes `bytes` lossily into an owned string.
pub fn decode_lossy(bytes: &[u8]) -> (text: String)
    ensures
        text@ == lossy_text(bytes@),
{
    match String::from_utf8_lossy(bytes) {
        Cow::Borrowed(borrowed) => borrowed.to_owned(),
        Cow::Owned(owned) => owned,
    }
}

/// The text of the sentinel that marks an undeterminable field.
pub open spec fn unknown() -> Seq<char> {
    "Unknown"@
}

/// `text` itself, or the sentinel when `text` is empty.
pub open spec fn or_unknown(text: Seq<char>) -> Seq<char> {
    if text.len() == 0 {
        unknown()
    } else {
        text
    }
}

/// The sentinel is not empty, so neither is anything that went through
/// [`or_unknown`].
pub proof fn lemma_or_unknown_non_empty(text: Seq<char>)
    ensures
        or_unknown(text).len() > 0,
{
    reveal_strlit("Unknown");
}

/// Replaces an empty field by the sentinel `"Unknown"`.
pub fn fill_unknown(text: String) -> (filled: String)
    ensures
        filled@ == or_unknown(text@),
        filled@.len() > 0,
{
    proof {
        lemma_or_unknown_non_empty(text@);
    }
    if text.as_str().is_empty() {
        "Unknown".to_owned()
    } else {
        text
    }
}

} // verus!
