//! Reading the profile controller's answers.

use vstd::prelude::*;

verus! {

/// What `str::trim` returns for the given characters.
pub uninterp spec fn trimmed_of(s: Seq<char>) -> Seq<char>;

/// Relies on `str::trim`: leading and trailing whitespace removed; the result
/// depends on the characters alone.
#[verifier::external_body]
fn trim(s: &str) -> (r: &str)
    ensures
        r@ == trimmed_of(s@),
{
    s.trim()
}

/// The active profile named by an already trimmed answer; an empty answer
/// names none.
pub fn profile_from_trimmed(trimmed: &str) -> (r: Option<String>)
    ensures
        trimmed@.len() == 0 ==> r is None,
        trimmed@.len() != 0 ==> (r matches Some(p) && p@ == trimmed@),
{
    if trimmed.is_empty() {
        None
    } else {
        Some(trimmed.to_owned())
    }
}

/// The active profile named by the controller's output, surrounding
/// whitespace removed; an empty answer names none.
pub fn profile_from_output(output: &str) -> (r: Option<String>)
    ensures
        trimmed_of(output@).len() == 0 ==> r is None,
        trimmed_of(output@).len() != 0 ==> (r matches Some(p) && p@ == trimmed_of(output@)),
{
    let t = trim(output);
    profile_from_trimmed(t)
}

} // verus!
