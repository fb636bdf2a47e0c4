//! Request addresses.

use vstd::prelude::*;
use crate::text::opt_view;

verus! {

/// The serialization of the URL that `s` parses to, if it is a valid
/// absolute URL.
pub uninterp spec fn parsed_url(s: Seq<char>) -> Option<Seq<char>>;

/// Relies on `url::Url::parse` (re-exported by reqwest as `reqwest::Url`)
/// and on the serialization that `String::from(Url)` hands back: parsing is
/// a function of the text alone.
#[verifier::external_body]
pub(crate) fn normalize_url(s: &str) -> (r: Option<String>)
    ensures
        opt_view(r) == parsed_url(s@),
{
    reqwest::Url::parse(s).ok().map(String::from)
}

} // verus!
