//! Power profile names and their validation.

use vstd::prelude::*;

verus! {

/// What `str::to_lowercase` returns for the given characters.
pub uninterp spec fn lower_of(s: Seq<char>) -> Seq<char>;

/// Relies on `str::to_lowercase`: the result depends on the characters alone.
#[verifier::external_body]
fn lowercase(s: &str) -> (r: String)
    ensures
        r@ == lower_of(s@),
{
    s.to_lowercase()
}

/// The spellings (already lower-cased) that name a supported power profile;
/// `power_saver` is kept as an older alias of `power-saver`.
pub open spec fn is_profile_name(s: Seq<char>) -> bool {
    s == "performance"@ || s == "balanced"@ || s == "power-saver"@ || s == "power_saver"@
}

/// A profile name as written in the configuration is accepted when its
/// lower-cased form is one of the supported names.
pub open spec fn profile_accepted(s: Seq<char>) -> bool {
    is_profile_name(lower_of(s))
}

/// Tells whether an already lower-cased name is one of the supported profiles.
pub fn is_lowered_profile_name(lowered: &String) -> (r: bool)
    ensures
        r == is_profile_name(lowered@),
{
    let performance = "performance".to_owned();
    let balanced = "balanced".to_owned();
    let power_saver = "power-saver".to_owned();
    let legacy = "power_saver".to_owned();
    *lowered == performance || *lowered == balanced || *lowered == power_saver || *lowered
        == legacy
}

/// Tells whether a profile name, in any letter case, names a supported profile.
pub fn validate_default_profile(profile: &str) -> (r: bool)
    ensures
        r == profile_accepted(profile@),
{
    let lowered = lowercase(profile);
    is_lowered_profile_name(&lowered)
}

} // verus!
