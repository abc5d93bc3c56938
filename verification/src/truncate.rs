//! Shortening long fields for the compact table.

use unicode_truncate::UnicodeTruncateStr;
use vstd::prelude::*;

verus! {

/// Terminal columns a shortened field keeps before its ellipsis.
pub const FIELD_WIDTH: usize = 10;

/// The marker that ends every shortened field.
pub open spec fn ellipsis() -> Seq<char> {
    seq!['.', '.', '.']
}

/// The part of `text` that `UnicodeTruncateStr::unicode_truncate` keeps when it
/// cuts `text` down to `width` terminal columns.
pub uninterp spec fn width_prefix(text: Seq<char>, width: nat) -> Seq<char>;

/// What a field shows: all of it when `long`, else its first columns and the
/// ellipsis.
pub open spec fn shortened(text: Seq<char>, long: bool) -> Seq<char> {
    if long {
        text
    } else {
        width_prefix(text, FIELD_WIDTH as nat) + ellipsis()
    }
}

/// Calls `UnicodeTruncateStr::unicode_truncate` on `text` and keeps the string
/// half of the pair it returns.
///
/// Not proved: that crate walks the characters of `text`, adds up their display
/// widths from its width tables, and slices `text` from its start up to the last
/// character boundary at which the sum is still within `width`. Where the cut
/// falls is left to those tables, so the result is named; that it is a slice
/// from the start of `text`, hence a prefix, is stated.
#[verifier::external_body]
fn truncate_to_width(text: &str, width: usize) -> (head: String)
    ensures
        head@ == width_prefix(text@, width as nat),
        head@.is_prefix_of(text@),
{
    text.unicode_truncate(width).0.to_owned()
}

/// Appends the ellipsis to what was kept of a field.
pub fn with_ellipsis(head: String) -> (shown: String)
    ensures
        shown@ == head@ + ellipsis(),
{
    proof {
        reveal_strlit("...");
    }
    let shown = head.concat("...");
    assert(shown@ =~= head@ + ellipsis());
    shown
}

/// The text a long field displays: `s` itself when `long` is set, otherwise the
/// start of `s` that fits in `FIELD_WIDTH` columns, followed by the ellipsis.
/// The ellipsis is appended whether or not anything was cut off.
pub fn ez_truncate(s: &String, long: &bool) -> (shown: String)
    ensures
        shown@ == shortened(s@, *long),
        *long ==> shown@ == s@,
        !*long ==> shown@ == width_prefix(s@, FIELD_WIDTH as nat) + ellipsis(),
        !*long ==> width_prefix(s@, FIELD_WIDTH as nat).is_prefix_of(s@),
{
    if *long {
        return s.clone();
    }
    with_ellipsis(truncate_to_width(s.as_str(), FIELD_WIDTH))
}

} // verus!
