//! Decoding of a query string into its parameters.

use vstd::prelude::*;

use crate::text::pair_views;

verus! {

/// The name and value pairs that `url::form_urlencoded::parse` yields for the
/// bytes of `query`, in the order in which it yields them.
pub uninterp spec fn form_pairs(query: Seq<char>) -> Seq<(Seq<char>, Seq<char>)>;

/// Decodes `query` with `url::form_urlencoded::parse` and collects the pairs
/// it yields, in order, as owned text. The decoder reads its input and
/// nothing else, so the same query always gives the same pairs.
#[verifier::external_body]
pub(crate) fn parse_pairs(query: &str) -> (pairs: Vec<(String, String)>)
    ensures
        pair_views(pairs@) == form_pairs(query@),
{
    url::form_urlencoded::parse(query.as_bytes()).into_owned().collect()
}

} // verus!
