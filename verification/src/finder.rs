//! The incremental search model and its window: the full item collection,
//! the current query, the derived ranked matches, and the session-wide
//! terminal offsets.
//!
//! `matches` holds indices into `all_items` and is always exactly the set
//! of items the matcher scored, ranked best-first, ties in input order; it
//! is recomputed in full on every query edit.

use vstd::prelude::*;
use vstd::pervasive::cloned;
use vstd::seq_lib::group_to_multiset_ensures;

use crate::decoder::Event;
use crate::item::{Item, MatchScore};
use crate::list::{names_of, ConfigError, List};
use crate::matcher::{score_of, skim_score};
use crate::ranking::{pair_before, sort_pairs};

verus! {

/// The rank the current scores give to item `k`; meaningful only when the
/// item's score slot is filled.
pub open spec fn rank_of<T>(items: Seq<Item<T>>, k: usize) -> i64 {
    match items[k as int].score {
        Some(ms) => ms.rank,
        None => 0,
    }
}

/// Every match index names an item that scored.
pub open spec fn matches_sound<T>(items: Seq<Item<T>>, ms: Seq<usize>) -> bool {
    forall|k: int|
        0 <= k < ms.len() ==> (#[trigger] ms[k]) < items.len() && items[ms[k] as int].score
            is Some
}

/// Every item that scored appears among the matches.
pub open spec fn matches_exhaustive<T>(items: Seq<Item<T>>, ms: Seq<usize>) -> bool {
    forall|idx: usize|
        idx < items.len() && (#[trigger] items[idx as int].score) is Some ==> ms.contains(idx)
}

/// Matches are ranked best-first, ties kept in input order: a stable
/// descending sort, stated as a strict total order on (rank, input index).
pub open spec fn matches_ranked<T>(items: Seq<Item<T>>, ms: Seq<usize>) -> bool {
    forall|a: int, b: int|
        0 <= a < b < ms.len() ==> pair_before(
            (ms[a], rank_of(items, ms[a])),
            (ms[b], rank_of(items, ms[b])),
        )
}

/// Two sequences with the same members, each strictly ranked best-first
/// with ties in input order, are the same sequence.
proof fn lemma_ranked_same_members_equal<T>(items: Seq<Item<T>>, ms1: Seq<usize>, ms2: Seq<usize>)
    requires
        forall|x: usize| ms1.contains(x) <==> ms2.contains(x),
        matches_ranked(items, ms1),
        matches_ranked(items, ms2),
    ensures
        ms1 == ms2,
    decreases ms1.len(),
{
    if ms1.len() == 0 {
        if ms2.len() > 0 {
            assert(ms2.contains(ms2[0]));
            assert(ms1.contains(ms2[0]));
        }
        assert(ms1 =~= ms2);
    } else {
        let x = ms1[0];
        assert(ms1.contains(x));
        assert(ms2.contains(x));
        let j = choose|j: int| 0 <= j < ms2.len() && ms2[j] == x;
        if j > 0 {
            let y = ms2[0];
            assert(ms2.contains(y));
            assert(ms1.contains(y));
            let k = choose|k: int| 0 <= k < ms1.len() && ms1[k] == y;
            if k > 0 {
                assert(pair_before((x, rank_of(items, x)), (y, rank_of(items, y))));
                assert(pair_before((y, rank_of(items, y)), (x, rank_of(items, x))));
                assert(false);
            }
        }
        assert(ms1[0] == ms2[0]);
        let t1 = ms1.drop_first();
        let t2 = ms2.drop_first();
        // A ranked sequence repeats no index: two positions with the same
        // index would have to come strictly before one another.
        assert forall|y: usize| t1.contains(y) implies ms1.contains(y) && y != x by {
            let p = choose|p: int| 0 <= p < t1.len() && t1[p] == y;
            assert(ms1[p + 1] == y);
            assert(pair_before((x, rank_of(items, x)), (y, rank_of(items, y))));
        }
        assert forall|y: usize| ms1.contains(y) && y != x implies t1.contains(y) by {
            let p = choose|p: int| 0 <= p < ms1.len() && ms1[p] == y;
            assert(t1[p - 1] == y);
        }
        assert forall|y: usize| t2.contains(y) implies ms2.contains(y) && y != x by {
            let p = choose|p: int| 0 <= p < t2.len() && t2[p] == y;
            assert(ms2[p + 1] == y);
            assert(pair_before((x, rank_of(items, x)), (y, rank_of(items, y))));
        }
        assert forall|y: usize| ms2.contains(y) && y != x implies t2.contains(y) by {
            let p = choose|p: int| 0 <= p < ms2.len() && ms2[p] == y;
            assert(t2[p - 1] == y);
        }
        assert(forall|x2: usize| t1.contains(x2) <==> t2.contains(x2));
        assert(matches_ranked(items, t1));
        assert(matches_ranked(items, t2));
        lemma_ranked_same_members_equal(items, t1, t2);
        assert(ms2.len() == t2.len() + 1);
        assert forall|i: int| 0 <= i < ms1.len() implies ms1[i] == ms2[i] by {
            if i > 0 {
                assert(t1[i - 1] == ms1[i]);
                assert(t2[i - 1] == ms2[i]);
            }
        }
        assert(ms1 =~= ms2);
    }
}

/// The ranked match sequence is unique: any two sequences that are each
/// sound, exhaustive and ranked over the same scored items are equal.  So
/// the soundness, exhaustiveness and rankedness that the finder's
/// invariant carries pin `matches` completely: a requery that computes
/// the same scores (the same query again, as after a backspace on an
/// empty query) reproduces exactly the matches it started from.
pub proof fn lemma_matches_unique<T>(items: Seq<Item<T>>, ms1: Seq<usize>, ms2: Seq<usize>)
    requires
        matches_sound(items, ms1),
        matches_exhaustive(items, ms1),
        matches_ranked(items, ms1),
        matches_sound(items, ms2),
        matches_exhaustive(items, ms2),
        matches_ranked(items, ms2),
    ensures
        ms1 == ms2,
{
    assert forall|x: usize| ms1.contains(x) implies ms2.contains(x) by {
        let p = choose|p: int| 0 <= p < ms1.len() && ms1[p] == x;
        assert(items[x as int].score is Some);
    }
    assert forall|x: usize| ms2.contains(x) implies ms1.contains(x) by {
        let p = choose|p: int| 0 <= p < ms2.len() && ms2[p] == x;
        assert(items[x as int].score is Some);
    }
    lemma_ranked_same_members_equal(items, ms1, ms2);
}

/// One item after rescoring against query `q`: name and payload kept, the
/// score slot set to exactly what the matcher port returns.
pub open spec fn rescored<T>(a: Item<T>, b: Item<T>, q: Seq<char>) -> bool {
    &&& b.name == a.name
    &&& b.item == a.item
    &&& match (b.score, score_of(a.name@, q)) {
        (Some(ms), Some(p)) => ms.rank == p.0 && ms.matched_positions@ == p.1,
        (None, None) => true,
        _ => false,
    }
    &&& b.score_wf()
}

/// What the session loop does after one logical event: repaint and keep
/// running, or finish, handing the confirmed payload (if any) back to the
/// caller.
pub enum StepAction<T> {
    /// The model changed (or may have); repaint before reading more keys.
    Repaint,
    /// The session is over; `Some` carries the confirmed selection.
    Finish(Option<T>),
}

/// The incremental fuzzy finder.
pub struct FuzzyFinder<T> {
    /// The query typed so far.
    pub search_term: String,
    /// Every candidate handed in by the caller, in input order.
    pub all_items: Vec<Item<T>>,
    /// Indices into `all_items` of the items that match the query, ranked
    /// best-first, ties in input order.
    pub matches: Vec<usize>,
    /// The terminal row the session started on.
    pub console_offset: u16,
    /// Whether the next repaint is the first one, which must reserve the
    /// list rows.
    pub first: bool,
    /// The window over the ranked matches.
    pub list: List,
    /// How many rows the viewport had to scroll up front so the reserved
    /// list area fits on screen.
    pub positive_space_remaining: u16,
}

/// The extra scroll space a session needs: how far the reserved rows would
/// run past the bottom of the screen, never more than the starting row
/// itself (so the repaint anchor stays on screen).
pub open spec fn spec_overflow_rows(cursor_row: u16, lines_to_show: i8, terminal_height: u16) -> int {
    let end = cursor_row + lines_to_show;
    if end > terminal_height {
        if end - terminal_height > cursor_row {
            cursor_row as int
        } else {
            end - terminal_height
        }
    } else {
        0
    }
}

impl<T> FuzzyFinder<T> {
    /// Everything the finder's operations preserve: a well-formed window
    /// ranging over exactly the matches, highlight positions in range of
    /// their item's name, and the search-model invariant — `matches` is
    /// always exactly the set of items whose score slot is filled, ranked
    /// best-first with ties in input order.
    pub open spec fn wf(&self) -> bool {
        &&& self.list.wf()
        &&& self.list.match_count == self.matches@.len()
        &&& self.positive_space_remaining <= self.console_offset
        &&& matches_sound(self.all_items@, self.matches@)
        &&& matches_exhaustive(self.all_items@, self.matches@)
        &&& matches_ranked(self.all_items@, self.matches@)
        &&& forall|i: int|
            0 <= i < self.all_items@.len() ==> (#[trigger] self.all_items@[i]).score_wf()
    }

    /// The display name of the currently selected match, if any.
    pub open spec fn selected_name(&self) -> Option<Seq<char>> {
        if self.matches@.len() > 0 {
            Some(self.all_items@[self.matches@[self.list.abs_selected()] as int].name@)
        } else {
            None
        }
    }

    /// What one full requery against `q` establishes: every score slot is
    /// recomputed through the matcher port, the matches are exactly the
    /// scored items ranked best-first with ties in input order, and the
    /// selection tracks the previously selected item by display name, or
    /// resets to the top when that item no longer matches.
    pub open spec fn requeried(pre: FuzzyFinder<T>, post: FuzzyFinder<T>, q: Seq<char>) -> bool {
        &&& post.all_items@.len() == pre.all_items@.len()
        &&& forall|i: int|
            0 <= i < pre.all_items@.len() ==> rescored(
                pre.all_items@[i],
                #[trigger] post.all_items@[i],
                q,
            )
        &&& matches_sound(post.all_items@, post.matches@)
        &&& matches_exhaustive(post.all_items@, post.matches@)
        &&& matches_ranked(post.all_items@, post.matches@)
        &&& post.matches@.len() == 0 ==> post.list.selected_index == 0
            && post.list.scroll_offset == 0
        &&& post.matches@.len() > 0 ==> match pre.selected_name() {
            Some(p) => List::spec_tracked(
                pre.list,
                post.list,
                names_of(post.all_items@, post.matches@),
                p,
            ),
            None => post.list.selected_index == 0 && post.list.scroll_offset == 0,
        }
        &&& post.console_offset == pre.console_offset
        &&& post.first == pre.first
        &&& post.positive_space_remaining == pre.positive_space_remaining
        &&& post.list.lines_to_show == pre.list.lines_to_show
    }

    /// A fresh session over `items`, which enter unscored.  `cursor_row`
    /// and `terminal_height` come from the terminal at session start; a
    /// capacity below one row is a configuration error.
    pub fn new(items: Vec<Item<T>>, lines_to_show: i8, cursor_row: u16, terminal_height: u16) -> (r:
        Result<FuzzyFinder<T>, ConfigError>)
        requires
            forall|i: int| 0 <= i < items@.len() ==> (#[trigger] items@[i].score) is None,
        ensures
            lines_to_show < 1 ==> r == Err::<FuzzyFinder<T>, ConfigError>(
                ConfigError::ZeroCapacity,
            ),
            lines_to_show >= 1 ==> (r matches Ok(f) && {
                &&& f.wf()
                &&& f.search_term@ == Seq::<char>::empty()
                &&& f.all_items == items
                &&& f.matches@.len() == 0
                &&& f.console_offset == cursor_row
                &&& f.first == true
                &&& f.list.lines_to_show == lines_to_show as usize
                &&& f.positive_space_remaining == spec_overflow_rows(
                    cursor_row,
                    lines_to_show,
                    terminal_height,
                )
            }),
    {
        let list = match List::new(lines_to_show) {
            Ok(l) => l,
            Err(e) => {
                return Err(e);
            },
        };
        let end: u32 = cursor_row as u32 + lines_to_show as u32;
        let overflow: u16 = if end > terminal_height as u32 {
            let over = end - terminal_height as u32;
            if over > cursor_row as u32 {
                cursor_row
            } else {
                over as u16
            }
        } else {
            0
        };
        Ok(
            FuzzyFinder {
                search_term: String::new(),
                all_items: items,
                matches: Vec::new(),
                console_offset: cursor_row,
                first: true,
                list,
                positive_space_remaining: overflow,
            },
        )
    }

    /// The item at the current selection, or `None` when nothing matches.
    pub fn get_selected(&self) -> (r: Option<&Item<T>>)
        requires
            self.wf(),
        ensures
            self.matches@.len() == 0 ==> r is None,
            self.matches@.len() > 0 ==> r == Some(
                &self.all_items@[self.matches@[self.list.abs_selected()] as int],
            ),
    {
        if self.matches.len() == 0 {
            None
        } else {
            let abs = self.list.scroll_offset + self.list.selected_index;
            Some(&self.all_items[self.matches[abs]])
        }
    }

    /// Move the selection one match up, clamped at the first match.
    pub fn up(&mut self)
        requires
            old(self).wf(),
        ensures
            final(self).wf(),
            final(self).search_term == old(self).search_term,
            final(self).all_items@ == old(self).all_items@,
            final(self).matches@ == old(self).matches@,
            final(self).console_offset == old(self).console_offset,
            final(self).first == old(self).first,
            final(self).positive_space_remaining == old(self).positive_space_remaining,
            final(self).list.lines_to_show == old(self).list.lines_to_show,
            old(self).matches@.len() == 0 ==> final(self).list == old(self).list,
            old(self).matches@.len() > 0 ==> {
                &&& final(self).list.abs_selected() == if old(self).list.abs_selected() > 0 {
                    old(self).list.abs_selected() - 1
                } else {
                    0
                }
                &&& final(self).list.scroll_offset == if old(self).list.selected_index > 0 {
                    old(self).list.scroll_offset as int
                } else if old(self).list.scroll_offset > 0 {
                    old(self).list.scroll_offset - 1
                } else {
                    0
                }
            },
    {
        self.list.up();
    }

    /// Move the selection one match down, clamped at the last match.
    pub fn down(&mut self)
        requires
            old(self).wf(),
        ensures
            final(self).wf(),
            final(self).search_term == old(self).search_term,
            final(self).all_items@ == old(self).all_items@,
            final(self).matches@ == old(self).matches@,
            final(self).console_offset == old(self).console_offset,
            final(self).first == old(self).first,
            final(self).positive_space_remaining == old(self).positive_space_remaining,
            final(self).list.lines_to_show == old(self).list.lines_to_show,
            old(self).matches@.len() == 0 ==> final(self).list == old(self).list,
            old(self).matches@.len() > 0 ==> {
                &&& final(self).list.abs_selected() == if old(self).list.abs_selected() + 1 < old(
                    self,
                ).matches@.len() {
                    old(self).list.abs_selected() + 1
                } else {
                    old(self).list.abs_selected()
                }
                &&& final(self).list.scroll_offset == if old(self).list.abs_selected() + 1 < old(
                    self,
                ).matches@.len() && old(self).list.selected_index + 1 == old(
                    self,
                ).list.lines_to_show {
                    old(self).list.scroll_offset + 1
                } else {
                    old(self).list.scroll_offset as int
                }
            },
    {
        self.list.down();
    }

    /// Append a character to the query and requery.
    pub fn append(&mut self, c: char)
        requires
            old(self).wf(),
        ensures
            final(self).wf(),
            final(self).search_term@ == old(self).search_term@.push(c),
            FuzzyFinder::requeried(*old(self), *final(self), final(self).search_term@),
    {
        self.search_term.push(c);
        self.update_matches();
    }

    /// Remove the last character of the query, if any, and requery.
    pub fn backspace(&mut self)
        requires
            old(self).wf(),
        ensures
            final(self).wf(),
            final(self).search_term@ == if old(self).search_term@.len() > 0 {
                old(self).search_term@.drop_last()
            } else {
                old(self).search_term@
            },
            FuzzyFinder::requeried(*old(self), *final(self), final(self).search_term@),
    {
        let _ = self.search_term.pop();
        self.update_matches();
    }

    /// Rescore every item against the current query and re-derive the
    /// ranked matches and the window.  This is the one place scores and
    /// matches change.
    pub fn update_matches(&mut self)
        requires
            old(self).wf(),
        ensures
            final(self).wf(),
            final(self).search_term == old(self).search_term,
            FuzzyFinder::requeried(*old(self), *final(self), old(self).search_term@),
    {
        broadcast use group_to_multiset_ensures;

        let ghost pre = *old(self);
        // Capture the selected item's name before the scores move under it.
        let prev: Option<String> = if self.matches.len() > 0 {
            let abs = self.list.scroll_offset + self.list.selected_index;
            Some(self.all_items[self.matches[abs]].name.clone())
        } else {
            None
        };
        // Rescore every item, draining into reverse order and back.
        let mut rev: Vec<Item<T>> = Vec::new();
        while self.all_items.len() > 0
            invariant
                rev@.len() + self.all_items@.len() == pre.all_items@.len(),
                self.all_items@ == pre.all_items@.subrange(0, self.all_items@.len() as int),
                self.search_term == pre.search_term,
                self.list == pre.list,
                self.matches@ == pre.matches@,
                self.console_offset == pre.console_offset,
                self.first == pre.first,
                self.positive_space_remaining == pre.positive_space_remaining,
                forall|j: int|
                    0 <= j < rev@.len() ==> rescored(
                        pre.all_items@[pre.all_items@.len() - 1 - j],
                        #[trigger] rev@[j],
                        pre.search_term@,
                    ),
            decreases self.all_items@.len(),
        {
            let mut it = self.all_items.pop().unwrap();
            let sc = skim_score(it.name.as_str(), self.search_term.as_str());
            match sc {
                Some((rank, pos)) => {
                    it.score = Some(MatchScore { rank, matched_positions: pos });
                },
                None => {
                    it.score = None;
                },
            }
            rev.push(it);
        }
        while rev.len() > 0
            invariant
                self.all_items@.len() + rev@.len() == pre.all_items@.len(),
                self.search_term == pre.search_term,
                self.list == pre.list,
                self.matches@ == pre.matches@,
                self.console_offset == pre.console_offset,
                self.first == pre.first,
                self.positive_space_remaining == pre.positive_space_remaining,
                forall|i: int|
                    0 <= i < self.all_items@.len() ==> rescored(
                        pre.all_items@[i],
                        #[trigger] self.all_items@[i],
                        pre.search_term@,
                    ),
                forall|j: int|
                    0 <= j < rev@.len() ==> rescored(
                        pre.all_items@[pre.all_items@.len() - 1 - j],
                        #[trigger] rev@[j],
                        pre.search_term@,
                    ),
            decreases rev@.len(),
        {
            let it = rev.pop().unwrap();
            self.all_items.push(it);
        }
        let ghost items = self.all_items@;
        // Collect (input index, rank) for every scored item, in input order.
        let mut pairs: Vec<(usize, i64)> = Vec::new();
        let mut i: usize = 0;
        while i < self.all_items.len()
            invariant
                i <= self.all_items@.len(),
                self.all_items@ == items,
                forall|a: int|
                    0 <= a < pairs@.len() ==> {
                        let p = #[trigger] pairs@[a];
                        &&& (p.0 as int) < i as int
                        &&& items[p.0 as int].score is Some
                        &&& p.1 == rank_of(items, p.0)
                    },
                forall|a: int, b: int| 0 <= a < b < pairs@.len() ==> pairs@[a].0 < pairs@[b].0,
                forall|idx: usize|
                    idx < i && (#[trigger] items[idx as int].score) is Some ==> pairs@.contains(
                        (idx, rank_of(items, idx)),
                    ),
            decreases self.all_items@.len() - i,
        {
            if self.all_items[i].score.is_some() {
                let rank: i64 = self.all_items[i].score.as_ref().unwrap().rank;
                let ghost pairs_prev = pairs@;
                pairs.push((i, rank));
                proof {
                    assert(pairs@[pairs@.len() - 1] == (i, rank_of(items, i)));
                    assert forall|y: (usize, i64)| pairs_prev.contains(y) implies pairs@.contains(
                        y,
                    ) by {
                        let w = choose|w: int| 0 <= w < pairs_prev.len() && pairs_prev[w] == y;
                        assert(pairs@[w] == y);
                    }
                }
            }
            i = i + 1;
        }
        let ghost pairs0 = pairs@;
        let sorted = sort_pairs(pairs);
        let mut new_matches: Vec<usize> = Vec::new();
        let mut k: usize = 0;
        while k < sorted.len()
            invariant
                new_matches@.len() == k as int <= sorted@.len(),
                forall|a: int| 0 <= a < k ==> new_matches@[a] == (#[trigger] sorted@[a]).0,
            decreases sorted@.len() - k,
        {
            let idx = sorted[k].0;
            new_matches.push(idx);
            k = k + 1;
        }
        proof {
            // Each sorted pair is one of the collected pairs, so each match
            // index names a scored item with its own rank.
            assert forall|a: int| 0 <= a < sorted@.len() implies {
                &&& (#[trigger] sorted@[a]).0 < items.len()
                &&& items[sorted@[a].0 as int].score is Some
                &&& sorted@[a].1 == rank_of(items, sorted@[a].0)
            } by {
                assert(sorted@.contains(sorted@[a]));
                assert(sorted@.to_multiset().count(sorted@[a]) > 0);
                assert(pairs0.to_multiset().count(sorted@[a]) > 0);
                assert(pairs0.contains(sorted@[a]));
                let b = choose|b: int| 0 <= b < pairs0.len() && pairs0[b] == sorted@[a];
            }
            assert forall|k: int| 0 <= k < new_matches@.len() implies (#[trigger] new_matches@[k])
                < items.len() && items[new_matches@[k] as int].score is Some by {
                assert(new_matches@[k] == sorted@[k].0);
            }
            assert(matches_sound(items, new_matches@));
            assert forall|idx: usize|
                idx < items.len() && (#[trigger] items[idx as int].score)
                    is Some implies new_matches@.contains(idx) by {
                assert(pairs0.contains((idx, rank_of(items, idx))));
                assert(pairs0.to_multiset().count((idx, rank_of(items, idx))) > 0);
                assert(sorted@.to_multiset().count((idx, rank_of(items, idx))) > 0);
                assert(sorted@.contains((idx, rank_of(items, idx))));
                let a = choose|a: int|
                    0 <= a < sorted@.len() && sorted@[a] == (idx, rank_of(items, idx));
                assert(new_matches@[a] == idx);
            }
            assert forall|a: int, b: int| 0 <= a < b < new_matches@.len() implies pair_before(
                (#[trigger] new_matches@[a], rank_of(items, new_matches@[a])),
                (#[trigger] new_matches@[b], rank_of(items, new_matches@[b])),
            ) by {
                assert(new_matches@[a] == sorted@[a].0 && new_matches@[b] == sorted@[b].0);
                assert(pair_before(sorted@[a], sorted@[b]));
                assert(sorted@[a].1 == rank_of(items, sorted@[a].0));
                assert(sorted@[b].1 == rank_of(items, sorted@[b].0));
            }
            assert(matches_ranked(items, new_matches@));
        }
        self.matches = new_matches;
        self.list.update(&self.all_items, &self.matches, prev.as_ref());
        proof {
            assert(names_of(self.all_items@, self.matches@) == names_of(items, new_matches@));
        }
    }
}

impl<T: Clone> FuzzyFinder<T> {
    /// Apply one logical input event, per the session state machine:
    /// typing edits the query and requeries, navigation moves the
    /// selection, and Cancel finishes with nothing.  Confirm finishes with
    /// the selected payload (cloned); over an empty match set it is a
    /// no-op that keeps the session running, except when the item
    /// collection itself is empty, where nothing can ever match and the
    /// session finishes with nothing.  The caller repaints after every
    /// `Repaint` before reading further keys.
    pub fn step(&mut self, event: Event) -> (r: StepAction<T>)
        requires
            old(self).wf(),
        ensures
            final(self).wf(),
            match event {
                Event::Insert(c) => {
                    &&& r is Repaint
                    &&& final(self).search_term@ == old(self).search_term@.push(c)
                    &&& FuzzyFinder::requeried(*old(self), *final(self), final(self).search_term@)
                },
                Event::Backspace => {
                    &&& r is Repaint
                    &&& final(self).search_term@ == if old(self).search_term@.len() > 0 {
                        old(self).search_term@.drop_last()
                    } else {
                        old(self).search_term@
                    }
                    &&& FuzzyFinder::requeried(*old(self), *final(self), final(self).search_term@)
                },
                Event::NavigateUp => {
                    &&& r is Repaint
                    &&& final(self).search_term == old(self).search_term
                    &&& final(self).all_items@ == old(self).all_items@
                    &&& final(self).matches@ == old(self).matches@
                    &&& old(self).matches@.len() > 0 ==> {
                        &&& final(self).list.abs_selected() == if old(self).list.abs_selected()
                            > 0 {
                            old(self).list.abs_selected() - 1
                        } else {
                            0
                        }
                        &&& final(self).list.scroll_offset == if old(self).list.selected_index
                            > 0 {
                            old(self).list.scroll_offset as int
                        } else if old(self).list.scroll_offset > 0 {
                            old(self).list.scroll_offset - 1
                        } else {
                            0
                        }
                    }
                },
                Event::NavigateDown => {
                    &&& r is Repaint
                    &&& final(self).search_term == old(self).search_term
                    &&& final(self).all_items@ == old(self).all_items@
                    &&& final(self).matches@ == old(self).matches@
                    &&& old(self).matches@.len() > 0 ==> {
                        &&& final(self).list.abs_selected() == if old(self).list.abs_selected()
                            + 1 < old(self).matches@.len() {
                            old(self).list.abs_selected() + 1
                        } else {
                            old(self).list.abs_selected()
                        }
                        &&& final(self).list.scroll_offset == if old(self).list.abs_selected()
                            + 1 < old(self).matches@.len() && old(self).list.selected_index + 1
                            == old(self).list.lines_to_show {
                            old(self).list.scroll_offset + 1
                        } else {
                            old(self).list.scroll_offset as int
                        }
                    }
                },
                Event::Confirm => {
                    &&& *final(self) == *old(self)
                    &&& if old(self).matches@.len() > 0 {
                        r matches StepAction::Finish(Some(p)) && cloned(
                            old(self).all_items@[old(self).matches@[old(
                                self,
                            ).list.abs_selected()] as int].item,
                            p,
                        )
                    } else if old(self).all_items@.len() == 0 {
                        r matches StepAction::Finish(None)
                    } else {
                        r is Repaint
                    }
                },
                Event::Cancel => {
                    &&& *final(self) == *old(self)
                    &&& r matches StepAction::Finish(None)
                },
            },
    {
        match event {
            Event::Insert(c) => {
                self.append(c);
                StepAction::Repaint
            },
            Event::Backspace => {
                self.backspace();
                StepAction::Repaint
            },
            Event::NavigateUp => {
                self.up();
                StepAction::Repaint
            },
            Event::NavigateDown => {
                self.down();
                StepAction::Repaint
            },
            Event::Confirm => {
                if self.matches.len() > 0 {
                    let abs = self.list.scroll_offset + self.list.selected_index;
                    let payload = self.all_items[self.matches[abs]].item.clone();
                    StepAction::Finish(Some(payload))
                } else if self.all_items.len() == 0 {
                    StepAction::Finish(None)
                } else {
                    StepAction::Repaint
                }
            },
            Event::Cancel => StepAction::Finish(None),
        }
    }
}

} // verus!
