//! The matcher port: the fuzzy scoring algorithm is an external
//! collaborator, used through one trusted wrapper.  The core only relies on
//! the contract stated here: the score is a pure function of the query and
//! the candidate text, and the matched positions index characters of the
//! candidate in strictly increasing order.

use vstd::prelude::*;

use fuzzy_matcher::FuzzyMatcher;

verus! {

/// What the skim fuzzy matcher returns for a candidate and a query: `None`
/// when the candidate does not match, otherwise the rank (higher is more
/// relevant) and the matched character positions.  The algorithm itself is
/// outside this crate; the name only fixes that equal inputs give equal
/// results.
pub uninterp spec fn score_of(candidate: Seq<char>, query: Seq<char>) -> Option<(i64, Seq<usize>)>;

/// Relies on `fuzzy_matcher::skim::SkimMatcherV2::fuzzy_indices` (through
/// the `FuzzyMatcher` trait): deterministic for fixed inputs; an empty
/// query matches everything with rank `0` and no positions; the returned
/// positions are strictly increasing character indices into the candidate.
#[verifier::external_body]
pub(crate) fn skim_score(candidate: &str, query: &str) -> (r: Option<(i64, Vec<usize>)>)
    ensures
        match r {
            Some((s, v)) => {
                &&& score_of(candidate@, query@) == Some((s, v@))
                &&& forall|i: int, j: int| 0 <= i < j < v@.len() ==> v@[i] < v@[j]
                &&& forall|i: int| 0 <= i < v@.len() ==> (#[trigger] v@[i]) < candidate@.len()
                &&& query@.len() == 0 ==> s == 0 && v@.len() == 0
            },
            None => score_of(candidate@, query@) is None && query@.len() > 0,
        },
{
    let matcher = fuzzy_matcher::skim::SkimMatcherV2::default();
    matcher.fuzzy_indices(candidate, query)
}

} // verus!
