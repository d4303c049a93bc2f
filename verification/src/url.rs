//! URL well-formedness, decided by the parser of the `url` crate.

use vstd::prelude::*;

verus! {

/// Whether `s` is a well-formed absolute URL: exactly the strings that the
/// `url` crate's parser accepts without a base URL.
pub uninterp spec fn url_well_formed(s: Seq<char>) -> bool;

/// Relies on `url::Url::parse` (re-exported as `reqwest::Url`): it returns
/// `Ok` exactly when its input is a well-formed absolute URL, and the outcome
/// depends on the characters of the input alone.
#[verifier::external_body]
pub(crate) fn check_url(s: &str) -> (ok: bool)
    ensures
        ok == url_well_formed(s@),
{
    reqwest::Url::parse(s).is_ok()
}

} // verus!
