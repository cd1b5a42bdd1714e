//! Parsing of the numeric texts that a probe report carries, and the
//! platform's path separator.

use vstd::prelude::*;
use crate::models::media::FrameRate;
use crate::numerals::{decimal_u32, parse_digits};

verus! {

/// Reads an unsigned 32-bit decimal numeral: an optional plus sign, then one
/// or more digits. Returns `None` for any other text and for a value that does
/// not fit.
pub fn parse_u32(text: &str) -> (value: Option<u32>)
    ensures
        value == decimal_u32(text@),
{
    let len = text.unicode_len();
    if len > 0 && text.get_char(0) == '+' {
        parse_digits(text, 1)
    } else {
        assert(text@.skip(0) =~= text@);
        parse_digits(text, 0)
    }
}

/// The position of the first `c` in `text` at or after `from`, or the length
/// of `text` where there is none.
pub open spec fn position_of(text: Seq<char>, c: char, from: int) -> int
    decreases text.len() - from,
{
    if from < 0 || from >= text.len() {
        text.len() as int
    } else if text[from] == c {
        from
    } else {
        position_of(text, c, from + 1)
    }
}

fn find_char(text: &str, c: char, from: usize) -> (at: usize)
    requires
        from <= text@.len(),
    ensures
        at == position_of(text@, c, from as int),
        from <= at <= text@.len(),
{
    let len = text.unicode_len();
    let mut i: usize = from;
    while i < len
        invariant
            from <= i <= len,
            len == text@.len(),
            position_of(text@, c, from as int) == position_of(text@, c, i as int),
        decreases len - i,
    {
        if text.get_char(i) == c {
            return i;
        }
        i = i + 1;
    }
    i
}

/// What a text means as a frame rate: a numerator, a slash and a
/// denominator, both unsigned decimal numerals. Whatever follows a second
/// slash is not read. A text without a slash, or with a part that is no such
/// numeral, means nothing.
pub open spec fn frame_rate_of(text: Seq<char>) -> Option<FrameRate> {
    let slash = position_of(text, '/', 0);
    let end = position_of(text, '/', slash + 1);
    if slash >= text.len() {
        None
    } else {
        let numerator = decimal_u32(text.subrange(0, slash));
        let denominator = decimal_u32(text.subrange(slash + 1, end));
        if numerator.is_some() && denominator.is_some() {
            Some(FrameRate { numerator: numerator.unwrap(), denominator: denominator.unwrap() })
        } else {
            None
        }
    }
}

/// Reads a frame rate written as a ratio, such as `30000/1001`.
pub fn parse_frame_rate(text: &str) -> (rate: Option<FrameRate>)
    ensures
        rate == frame_rate_of(text@),
{
    let len = text.unicode_len();
    let slash = find_char(text, '/', 0);
    if slash >= len {
        return None;
    }
    let end = find_char(text, '/', slash + 1);
    let numerator = parse_u32(text.substring_char(0, slash));
    let denominator = parse_u32(text.substring_char(slash + 1, end));
    match (numerator, denominator) {
        (Some(n), Some(d)) => Some(FrameRate { numerator: n, denominator: d }),
        _ => None,
    }
}

/// Whether `c` separates the components of a path on some platform.
pub open spec fn is_separator(c: char) -> bool {
    c == '/' || c == '\\'
}

/// Whether a file extension is free of path separators.
pub open spec fn plain_extension(extension: Seq<char>) -> bool {
    forall|i: int| 0 <= i < extension.len() ==> !is_separator(#[trigger] extension[i])
}

/// Tells whether a file extension is free of path separators.
pub fn is_plain_extension(extension: &str) -> (plain: bool)
    ensures
        plain == plain_extension(extension@),
{
    let len = extension.unicode_len();
    let mut i: usize = 0;
    while i < len
        invariant
            i <= len,
            len == extension@.len(),
            forall|j: int| 0 <= j < i ==> !is_separator(#[trigger] extension@[j]),
        decreases len - i,
    {
        let c = extension.get_char(i);
        if c == '/' || c == '\\' {
            assert(is_separator(extension@[i as int]));
            return false;
        }
        i = i + 1;
    }
    true
}

/// `std::path::MAIN_SEPARATOR`: the character that separates path components
/// on the platform the program is built for. Trusted: it is the slash or the
/// backslash, as the standard library documents for its platforms.
#[verifier::external_body]
fn main_separator() -> (c: char)
    ensures
        is_separator(c),
{
    std::path::MAIN_SEPARATOR
}

/// `std::path::Path::with_extension`: the path with the extension of its file
/// name replaced. Trusted, with nothing claimed of the result; the extension
/// must hold no separator, which the standard library refuses.
#[verifier::external_body]
pub(crate) fn with_extension(path: &str, extension: &str) -> (changed: String)
    requires
        plain_extension(extension@),
{
    std::path::Path::new(path).with_extension(extension).to_string_lossy().into_owned()
}

/// The platform's path separator as a text of one character.
pub fn get_system_path_separator() -> (sep: String)
    ensures
        sep@.len() == 1,
        is_separator(sep@[0]),
{
    proof {
        reveal_strlit("/");
        reveal_strlit("\\");
    }
    if main_separator() == '\\' {
        "\\".to_owned()
    } else {
        "/".to_owned()
    }
}

} // verus!
