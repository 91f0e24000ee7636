//! The text-to-text transformations that other libraries compute.

use ammonia::Builder;
use deunicode::deunicode;
use limace::Slugifier;
use rustrict::CensorStr;
use std::collections::HashSet;
use vstd::prelude::*;

verus! {

/// The transliteration of `text` into ASCII.
pub uninterp spec fn transliteration(text: Seq<char>) -> Seq<char>;

/// `text` with its markup removed: the text content alone, written as HTML.
pub uninterp spec fn stripped_of_tags(text: Seq<char>) -> Seq<char>;

/// `text` with its profane terms replaced by placeholders.
pub uninterp spec fn censored(text: Seq<char>) -> Seq<char>;

/// The slug of `text`.
pub uninterp spec fn slug_of(text: Seq<char>) -> Seq<char>;

/// Whether every character of `text` is below U+007F: ASCII, and not the
/// control character delete.
pub open spec fn is_plain_ascii(text: Seq<char>) -> bool {
    forall|i: int| 0 <= i < text.len() ==> (#[trigger] text[i] as u32) < 0x7f
}

/// Whether every character of `text` is ASCII: U+0000 to U+007F.
pub open spec fn is_ascii_text(text: Seq<char>) -> bool {
    forall|i: int| 0 <= i < text.len() ==> (#[trigger] text[i] as u32) <= 0x7f
}

/// Whether `c` may stand in a slug: a lower-case ASCII letter, a digit, or
/// the separator `-`.
pub open spec fn is_slug_char(c: char) -> bool {
    'a' <= c <= 'z' || '0' <= c <= '9' || c == '-'
}

/// Whether `text` is made of slug characters alone.
pub open spec fn is_slug(text: Seq<char>) -> bool {
    forall|i: int| 0 <= i < text.len() ==> is_slug_char(#[trigger] text[i])
}

/// Transliterates `text` into ASCII.
///
/// Trusted: this is `deunicode::deunicode`, whose result depends on the
/// text alone. It is documented to be ASCII. A text whose bytes are all
/// below 0x7F takes the function's fast path and is returned as it is.
#[verifier::external_body]
pub(crate) fn transliterate(text: &str) -> (out: String)
    ensures
        out@ == transliteration(text@),
        is_ascii_text(out@),
        is_plain_ascii(text@) ==> out@ == text@,
{
    deunicode(text)
}

/// Removes all markup from `text`.
///
/// Trusted: this is `ammonia::Builder::clean` with the default settings
/// and an empty set of allowed tags, rendered as a string. The result
/// depends on the text alone.
#[verifier::external_body]
pub(crate) fn strip_tags(text: &str) -> (out: String)
    ensures
        out@ == stripped_of_tags(text@),
{
    Builder::new().tags(HashSet::default()).clean(text).to_string()
}

/// Replaces the profane terms of `text` by placeholders.
///
/// Trusted: this is `rustrict::CensorStr::censor` on a string slice, whose
/// result depends on the text alone.
#[verifier::external_body]
pub(crate) fn censor(text: &str) -> (out: String)
    ensures
        out@ == censored(text@),
{
    text.censor()
}

/// Turns `text` into a slug.
///
/// Trusted: this is `limace::Slugifier::slugify` with the default
/// separator `-`. The result depends on the text alone, and is made of
/// lower-case ASCII letters, digits and the separator.
#[verifier::external_body]
pub(crate) fn slugify(text: &str) -> (out: String)
    ensures
        out@ == slug_of(text@),
        is_slug(out@),
{
    Slugifier::default().slugify(text)
}

} // verus!
