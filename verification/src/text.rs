//! Texts for the eyes of people: how values and actions describe themselves.

use vstd::prelude::*;

verus! {

/// What formatting a text with `{:?}` returns: the text in double quotes,
/// with the escapes that `Debug` for `str` applies.
pub uninterp spec fn debug_text(text: Seq<char>) -> Seq<char>;

/// Formats a text with `{:?}`, which is `Debug` for `str`.
///
/// Trusted: the result is `debug_text` of the text.
#[verifier::external_body]
pub(crate) fn quote(text: &str) -> (quoted: String)
    ensures
        quoted@ == debug_text(text@),
{
    format!("{:?}", text)
}

/// A text between two others.
pub fn enclose(before: &str, text: &str, after: &str) -> (whole: String)
    ensures
        whole@ == before@ + text@ + after@,
{
    before.to_owned().concat(text).concat(after)
}

} // verus!
