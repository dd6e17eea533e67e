//! URLs, as the `url` crate parses and resolves them.

use reqwest::Url;
use vstd::prelude::*;

verus! {

/// `reqwest::Url`, the parsed URL of the `url` crate. Nothing of its inside
/// is visible to the verifier.
#[verifier::external_type_specification]
#[verifier::external_body]
pub struct ExUrl(reqwest::Url);

/// The URL that `reference` denotes when it is read against `base`, if it
/// denotes one.
pub uninterp spec fn joined_url(base: Url, reference: Seq<char>) -> Option<Url>;

/// `Url::join`, taken on trust: `reference` parsed with `base` as its base
/// URL. What comes out depends on the two alone; `None` stands for every
/// error of the parser.
#[verifier::external_body]
pub(crate) fn join(base: &Url, reference: &str) -> (joined: Option<Url>)
    ensures
        joined == joined_url(*base, reference@),
{
    base.join(reference).ok()
}

} // verus!
