//! A displayable candidate with an opaque payload.

use vstd::prelude::*;

verus! {

/// The score a matcher gave one item against the current query.
///
/// `matched_positions` are character positions into the item's display text,
/// used for render-time highlighting; the well-formedness predicate asks
/// them to be strictly increasing and in range.
pub struct MatchScore {
    /// The ordering value: higher means more relevant.
    pub rank: i64,
    /// Character positions of the matched query characters, strictly
    /// increasing.
    pub matched_positions: Vec<usize>,
}

impl MatchScore {
    /// The positions are strictly increasing and index into a display text
    /// of `len` characters.
    pub open spec fn positions_wf(&self, len: nat) -> bool {
        &&& forall|i: int, j: int|
            0 <= i < j < self.matched_positions@.len() ==> self.matched_positions@[i]
                < self.matched_positions@[j]
        &&& forall|i: int|
            0 <= i < self.matched_positions@.len() ==> (#[trigger] self.matched_positions@[i])
                < len
    }
}

/// A display label paired with a caller-supplied payload, plus the mutable
/// match-score slot.  The score is `None` exactly when the item does not
/// match the current query; it is recomputed in full on every query edit.
pub struct Item<T> {
    /// The text shown in the candidate list and handed to the matcher.
    pub name: String,
    /// The caller's payload, cloned and returned on confirmed selection.
    pub item: T,
    /// The item's score against the current query, or `None` for no match.
    pub score: Option<MatchScore>,
}

impl<T> Item<T> {
    /// The stored score, if any, has well-formed highlight positions for
    /// this item's name.
    pub open spec fn score_wf(&self) -> bool {
        match self.score {
            Some(s) => s.positions_wf(self.name@.len()),
            None => true,
        }
    }

    /// A fresh item with no score yet.
    pub fn new(name: String, item: T) -> (r: Item<T>)
        ensures
            r.name == name,
            r.item == item,
            r.score is None,
    {
        Item { name, item, score: None }
    }
}

} // verus!
