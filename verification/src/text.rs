//! Small operations on text that the rest of the library shares.

use vstd::prelude::*;

verus! {

/// `str::ends_with` with a `&str` pattern: whether `suffix` is how `text`
/// ends, char for char.
#[verifier::external_body]
pub(crate) fn ends_with(text: &str, suffix: &str) -> (r: bool)
    ensures
        r == suffix@.is_suffix_of(text@),
{
    text.ends_with(suffix)
}

/// Whether two texts hold the same chars.
pub fn same_text(a: &str, b: &str) -> (r: bool)
    ensures
        r == (a@ == b@),
{
    a.to_owned() == b.to_owned()
}

/// `a` followed by `b`.
pub fn join(a: &str, b: &str) -> (r: String)
    ensures
        r@ == a@ + b@,
{
    let mut out = a.to_owned();
    out.append(b);
    out
}

} // verus!
