//! Building the texts that are shown to the user.
use vstd::prelude::*;
use vstd::string::*;

verus! {

/// What the standard library's `{:?}` writes for a string: the string between
/// double quotes, with the characters escaped that cannot be printed.
pub uninterp spec fn quoted_text(text: Seq<char>) -> Seq<char>;

/// Calls `format!("{:?}", text)`, the `Debug` form of a string.
///
/// The contract claims that the result depends on the characters of `text`
/// alone; which characters are escaped, and how, is left unsaid.
#[verifier::external_body]
pub(crate) fn quote(text: &str) -> (r: String)
    ensures
        r@ == quoted_text(text@),
{
    format!("{:?}", text)
}

/// `head` followed by `tail`.
pub fn join(head: &str, tail: &str) -> (r: String)
    ensures
        r@ == head@ + tail@,
{
    let mut text = head.to_owned();
    text.append(tail);
    text
}

} // verus!
