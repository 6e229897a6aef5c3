//! How many terminal columns text takes, as `unicode-width` measures it.

use vstd::prelude::*;

verus! {

/// The columns `unicode_width::UnicodeWidthStr::width` gives the text `s`.
pub uninterp spec fn display_width(s: Seq<char>) -> nat;

/// The columns `unicode_width::UnicodeWidthChar::width` gives `c`, `None`
/// for a control character.
pub uninterp spec fn char_width(c: char) -> Option<nat>;

/// The columns the text `s` takes.
///
/// Trusted: `unicode_width::UnicodeWidthStr::width`; the contract names
/// its result.
#[verifier::external_body]
pub(crate) fn str_width(s: &str) -> (w: usize)
    ensures
        w == display_width(s@),
{
    unicode_width::UnicodeWidthStr::width(s)
}

/// The columns `c` takes, `None` for a control character.
///
/// Trusted: `unicode_width::UnicodeWidthChar::width`; the contract names
/// its result.
#[verifier::external_body]
pub(crate) fn char_columns(c: char) -> (w: Option<usize>)
    ensures
        match w {
            Some(n) => char_width(c) == Some(n as nat),
            None => char_width(c) is None,
        },
{
    unicode_width::UnicodeWidthChar::width(c)
}

} // verus!
