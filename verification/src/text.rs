//! Text at the edges of the browser: bytes that may or may not be text, and
//! text that must be escaped before it is written into markup.

use std::string::FromUtf8Error;
use vstd::prelude::*;
use vstd::string::*;
use vstd::utf8::*;

verus! {

/// The error of `String::from_utf8`, carried through without being inspected.
#[verifier::external_type_specification]
#[verifier::external_body]
pub struct ExFromUtf8Error(FromUtf8Error);

/// `String::from_utf8` succeeds exactly on well-formed UTF-8 and then yields
/// the characters that the bytes encode.
pub assume_specification[ String::from_utf8 ](vec: Vec<u8>) -> (r: Result<String, FromUtf8Error>)
    ensures
        r is Ok <==> valid_utf8(vec@),
        r matches Ok(s) ==> s@ == decode_utf8(vec@),
;

/// The text that `String::from_utf8_lossy` makes of a byte string, in which
/// every ill-formed sequence is replaced by U+FFFD.
pub uninterp spec fn lossy_text(bytes: Seq<u8>) -> Seq<char>;

/// Calls `String::from_utf8_lossy`. Its result depends on the bytes alone; on
/// well-formed UTF-8 it is the decoded text, unchanged.
#[verifier::external_body]
pub(crate) fn to_string_lossy(bytes: &[u8]) -> (text: String)
    ensures
        text@ == lossy_text(bytes@),
        valid_utf8(bytes@) ==> text@ == decode_utf8(bytes@),
{
    String::from_utf8_lossy(bytes).into_owned()
}

/// What one character becomes when it is written into markup.
pub open spec fn escaped_char(c: char) -> Seq<char> {
    if c == '&' {
        "&amp;"@
    } else if c == '<' {
        "&lt;"@
    } else if c == '>' {
        "&gt;"@
    } else if c == '\'' {
        "&#x27;"@
    } else {
        seq![c]
    }
}

/// The escaped form of a text: each character replaced by [`escaped_char`],
/// in order.
pub open spec fn escaped(text: Seq<char>) -> Seq<char>
    decreases text.len(),
{
    if text.len() == 0 {
        Seq::empty()
    } else {
        escaped(text.drop_last()) + escaped_char(text.last())
    }
}

/// Renders a string slice with `hypertext::Renderable::render_to`, which
/// appends the text to `output` with `&`, `<`, `>` and `'` replaced by their
/// entities and every other character kept.
#[verifier::external_body]
pub(crate) fn render_text(text: &str, output: &mut String)
    ensures
        final(output)@ == old(output)@ + escaped(text@),
{
    hypertext::Renderable::render_to(text, output);
}

/// A text without its leading separators.
pub open spec fn without_leading_separators(text: Seq<char>) -> Seq<char>
    decreases text.len(),
{
    if text.len() > 0 && text.first() == '/' {
        without_leading_separators(text.drop_first())
    } else {
        text
    }
}

/// Strips every leading `/` from `text`.
pub fn trim_leading_separators(text: &str) -> (rest: &str)
    ensures
        rest@ == without_leading_separators(text@),
{
    let len = text.unicode_len();
    let mut start: usize = 0;
    assert(text@.skip(0) =~= text@);
    while start < len && text.get_char(start) == '/'
        invariant
            start <= len,
            len == text@.len(),
            without_leading_separators(text@) == without_leading_separators(
                text@.skip(start as int),
            ),
        decreases len - start,
    {
        assert(text@.skip(start as int).drop_first() =~= text@.skip(start + 1));
        start += 1;
    }
    assert(text@.skip(start as int) =~= text@.subrange(start as int, len as int));
    text.substring_char(start, len)
}

} // verus!
