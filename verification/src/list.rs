//! The windowed candidate list: a fixed visible-row budget, the current
//! selection and a scroll offset over the ranked match sequence.
//!
//! The list never stores items; it owns the window arithmetic.  The visible
//! rows are derived elsewhere from `scroll_offset` and the match sequence,
//! padded with blank rows up to the capacity, so the on-screen footprint
//! never changes.

use vstd::prelude::*;

use crate::item::Item;

verus! {

/// A configuration fault reported at construction, before any terminal work
/// starts.
#[derive(Clone, Copy, Debug, PartialEq, Eq, Structural)]
pub enum ConfigError {
    /// The window was asked for fewer than one visible row.
    ZeroCapacity,
}

impl ConfigError {
    /// A human-readable description of the fault.
    pub fn message(&self) -> (r: &'static str)
        ensures
            r@ == "the candidate list needs a capacity of at least one row"@,
    {
        "the candidate list needs a capacity of at least one row"
    }
}

/// The display names of the ranked matches, in rank order: `matches` holds
/// indices into `all`.
pub open spec fn names_of<T>(all: Seq<Item<T>>, matches: Seq<usize>) -> Seq<Seq<char>> {
    matches.map_values(|k: usize| all[k as int].name@)
}

/// The window over the ranked match sequence.
pub struct List {
    /// The fixed number of on-screen rows reserved for candidates.
    pub lines_to_show: usize,
    /// The selected row within the window, in `[0, lines_to_show)`.
    pub selected_index: usize,
    /// The index into the ranked match sequence of the first visible row.
    pub scroll_offset: usize,
    /// How many matches the window currently ranges over.
    pub match_count: usize,
}

impl List {
    /// The index into the ranked match sequence of the selected item.
    pub open spec fn abs_selected(&self) -> int {
        self.scroll_offset + self.selected_index
    }

    /// The window invariant: at least one row; when there are no matches
    /// the selection and scroll sit at their zero sentinel; otherwise the
    /// selection names a valid match on a visible row, and the window never
    /// scrolls past the point where it could be filled.
    pub open spec fn wf(&self) -> bool {
        &&& self.lines_to_show >= 1
        &&& self.lines_to_show <= 127
        &&& if self.match_count == 0 {
            self.selected_index == 0 && self.scroll_offset == 0
        } else {
            &&& self.selected_index < self.lines_to_show
            &&& self.abs_selected() < self.match_count
            &&& (self.scroll_offset == 0 || self.scroll_offset + self.lines_to_show
                <= self.match_count)
        }
    }

    /// A window of `lines_to_show` rows over no matches yet.  A capacity
    /// below one is a configuration error, not a panic.
    pub fn new(lines_to_show: i8) -> (r: Result<List, ConfigError>)
        ensures
            lines_to_show >= 1 ==> (r matches Ok(l) && l == (List {
                lines_to_show: lines_to_show as usize,
                selected_index: 0,
                scroll_offset: 0,
                match_count: 0,
            }) && l.wf()),
            lines_to_show < 1 ==> r == Err::<List, ConfigError>(ConfigError::ZeroCapacity),
    {
        if lines_to_show >= 1 {
            Ok(
                List {
                    lines_to_show: lines_to_show as usize,
                    selected_index: 0,
                    scroll_offset: 0,
                    match_count: 0,
                },
            )
        } else {
            Err(ConfigError::ZeroCapacity)
        }
    }

    /// Move the selection one match up, clamped at the first match: the
    /// selection retreats within the window first, then the window scrolls.
    /// Repeatedly moving up from the first match leaves it there; with no
    /// matches this is a no-op.
    pub fn up(&mut self)
        requires
            old(self).wf(),
        ensures
            final(self).wf(),
            final(self).lines_to_show == old(self).lines_to_show,
            final(self).match_count == old(self).match_count,
            old(self).match_count == 0 ==> *final(self) == *old(self),
            old(self).match_count > 0 ==> {
                &&& final(self).abs_selected() == if old(self).abs_selected() > 0 {
                    old(self).abs_selected() - 1
                } else {
                    0
                }
                &&& final(self).scroll_offset == if old(self).selected_index > 0 {
                    old(self).scroll_offset as int
                } else if old(self).scroll_offset > 0 {
                    old(self).scroll_offset - 1
                } else {
                    0
                }
            },
    {
        if self.match_count == 0 {
            return ;
        }
        if self.selected_index > 0 {
            self.selected_index = self.selected_index - 1;
        } else if self.scroll_offset > 0 {
            self.scroll_offset = self.scroll_offset - 1;
        }
    }

    /// Move the selection one match down, clamped at the last match: the
    /// selection advances within the window first, then the window scrolls
    /// by one.  Repeatedly moving down from the last match leaves it there;
    /// with no matches this is a no-op.
    pub fn down(&mut self)
        requires
            old(self).wf(),
        ensures
            final(self).wf(),
            final(self).lines_to_show == old(self).lines_to_show,
            final(self).match_count == old(self).match_count,
            old(self).match_count == 0 ==> *final(self) == *old(self),
            old(self).match_count > 0 ==> {
                &&& final(self).abs_selected() == if old(self).abs_selected() + 1 < old(
                    self,
                ).match_count {
                    old(self).abs_selected() + 1
                } else {
                    old(self).abs_selected()
                }
                &&& final(self).scroll_offset == if old(self).abs_selected() + 1 < old(
                    self,
                ).match_count && old(self).selected_index + 1 == old(self).lines_to_show {
                    old(self).scroll_offset + 1
                } else {
                    old(self).scroll_offset as int
                }
            },
    {
        if self.match_count == 0 {
            return ;
        }
        if self.scroll_offset + self.selected_index + 1 < self.match_count {
            if self.selected_index + 1 < self.lines_to_show {
                self.selected_index = self.selected_index + 1;
            } else {
                self.scroll_offset = self.scroll_offset + 1;
            }
        }
    }

    /// Where the window scrolls to when selection tracking lands on match
    /// `i` of `mc` matches: the old scroll is kept when it already shows
    /// row `i` and is still valid, else the smallest movement that shows it.
    pub open spec fn spec_track_scroll(cap: int, old_scroll: int, i: int, mc: int) -> int {
        let max_scroll = if mc >= cap {
            mc - cap
        } else {
            0
        };
        if old_scroll <= i < old_scroll + cap && (old_scroll == 0 || old_scroll + cap <= mc) {
            old_scroll
        } else if i < max_scroll {
            i
        } else {
            max_scroll
        }
    }

    /// What selection tracking promises when the previously selected item
    /// had display name `p`: if some match still carries that name, the
    /// selection lands on its first occurrence and the window scrolls per
    /// [`List::spec_track_scroll`]; otherwise selection and scroll reset to
    /// the top.
    pub open spec fn spec_tracked(pre: List, post: List, names: Seq<Seq<char>>, p: Seq<char>) -> bool {
        let abs = post.scroll_offset + post.selected_index;
        if exists|j: int| 0 <= j < names.len() && names[j] == p {
            &&& names[abs] == p
            &&& forall|j: int| 0 <= j < abs ==> names[j] != p
            &&& post.scroll_offset == List::spec_track_scroll(
                pre.lines_to_show as int,
                pre.scroll_offset as int,
                abs,
                names.len() as int,
            )
        } else {
            post.selected_index == 0 && post.scroll_offset == 0
        }
    }

    /// Re-derive the window after the match sequence changed.
    ///
    /// `matches` holds indices into `all`, ranked best-first; `prev` is the
    /// display name of the previously selected item, if any.  When that
    /// item is still present (by display name) the selection tracks it, at
    /// its first occurrence; otherwise selection and scroll reset to the
    /// top.
    #[verifier::rlimit(50)]
    pub fn update<T>(&mut self, all: &Vec<Item<T>>, matches: &Vec<usize>, prev: Option<&String>)
        requires
            old(self).wf(),
            forall|j: int| 0 <= j < matches@.len() ==> (#[trigger] matches@[j]) < all@.len(),
        ensures
            final(self).wf(),
            final(self).lines_to_show == old(self).lines_to_show,
            final(self).match_count == matches@.len(),
            matches@.len() == 0 ==> final(self).selected_index == 0 && final(self).scroll_offset
                == 0,
            matches@.len() > 0 ==> match prev {
                Some(p) => List::spec_tracked(
                    *old(self),
                    *final(self),
                    names_of(all@, matches@),
                    p@,
                ),
                None => final(self).selected_index == 0 && final(self).scroll_offset == 0,
            },
    {
        let ghost names = names_of(all@, matches@);
        let mc = matches.len();
        self.match_count = mc;
        if mc == 0 {
            self.selected_index = 0;
            self.scroll_offset = 0;
            return ;
        }
        let found: Option<usize> = match prev {
            Some(p) => {
                let mut j: usize = 0;
                let mut found: Option<usize> = None;
                while j < matches.len()
                    invariant
                        0 <= j <= matches@.len(),
                        forall|k: int| 0 <= k < matches@.len() ==> (#[trigger] matches@[k])
                            < all@.len(),
                        names == names_of(all@, matches@),
                        match found {
                            Some(i) => i < j && names[i as int] == p@ && forall|k: int|
                                0 <= k < i ==> names[k] != p@,
                            None => forall|k: int| 0 <= k < j ==> names[k] != p@,
                        },
                    decreases matches@.len() - j,
                {
                    proof {
                        assert(names[j as int] == all@[matches@[j as int] as int].name@);
                    }
                    if matches!(found, None) && all[matches[j]].name.eq(p) {
                        found = Some(j);
                    }
                    j = j + 1;
                }
                found
            },
            None => None,
        };
        match found {
            Some(i) => {
                let cap = self.lines_to_show;
                let max_scroll = if mc >= cap {
                    mc - cap
                } else {
                    0
                };
                let keep = self.scroll_offset <= i && i - self.scroll_offset < cap && (
                self.scroll_offset == 0 || self.scroll_offset + cap <= mc);
                let new_scroll = if keep {
                    self.scroll_offset
                } else if i < max_scroll {
                    i
                } else {
                    max_scroll
                };
                self.scroll_offset = new_scroll;
                self.selected_index = i - new_scroll;
                proof {
                    assert(new_scroll == List::spec_track_scroll(
                        cap as int,
                        old(self).scroll_offset as int,
                        i as int,
                        mc as int,
                    ));
                    assert(self.abs_selected() == i as int);
                    assert(self.wf());
                    match prev {
                        Some(p) => {
                            assert(names[i as int] == p@);
                            assert(names[self.abs_selected()] == p@);
                            assert((i as int) < names.len());
                            assert(exists|j: int| 0 <= j < names.len() && names[j] == p@);
                            assert(List::spec_tracked(*old(self), *self, names, p@));
                        },
                        None => {
                        },
                    }
                }
            },
            None => {
                self.selected_index = 0;
                self.scroll_offset = 0;
                proof {
                    match prev {
                        Some(p) => {
                            assert(!exists|j: int| 0 <= j < names.len() && names[j] == p@);
                            assert(List::spec_tracked(*old(self), *self, names, p@));
                        },
                        None => {
                        },
                    }
                }
            },
        }
    }

    /// The window invariant in the form the properties ask for: the window
    /// always has exactly `lines_to_show` rows, the scroll offset is never
    /// negative, and whenever there are matches the selected item sits on a
    /// visible, non-blank row.
    pub proof fn lemma_window_invariant(&self)
        requires
            self.wf(),
        ensures
            self.scroll_offset >= 0,
            self.lines_to_show >= 1,
            self.match_count > 0 ==> self.selected_index < self.lines_to_show,
            self.match_count > 0 ==> self.scroll_offset + self.selected_index < self.match_count,
    {
    }
}

} // verus!
