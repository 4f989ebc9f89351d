//! The renderer: a pure function of the search model, the window and the
//! session offsets that produces the escape-sequence byte stream for one
//! repaint.  Every byte is pinned down in the specification, so two
//! repaints of an unchanged model are provably identical.

use vstd::prelude::*;
use vstd::string::*;

use crate::finder::FuzzyFinder;
use crate::item::Item;
use crate::term::{
    bg_dark_blue, bg_dark_grey, bg_reset, clear_line, cursor_far_left, cursor_restore,
    cursor_save, cursor_show, esc_goto, fg_blue, fg_dark_grey, fg_green, fg_reset, goto,
};

verus! {

/// Where highlighted segment `k` starts: right after the previous matched
/// position, or at the start of the text for the first segment.
pub open spec fn seg_start(indices: Seq<usize>, k: int) -> int {
    if k == 0 {
        0
    } else {
        indices[k - 1] + 1
    }
}

/// The bytes for highlighted segment `k`: the plain stretch before the
/// matched character, then the matched character on the highlight
/// background; on a selected row the plain stretch gets the selection
/// background as well.
pub open spec fn spec_seg(indices: Seq<usize>, text: Seq<char>, sel: bool, k: int) -> Seq<char> {
    let part = text.subrange(seg_start(indices, k), indices[k] as int);
    let mc = text.subrange(indices[k] as int, indices[k] + 1);
    if sel {
        "\u{1b}[48;2;50;50;50m"@ + part + "\u{1b}[49m"@ + "\u{1b}[48;2;13;88;138m"@ + mc
            + "\u{1b}[49m"@
    } else {
        part + "\u{1b}[48;2;13;88;138m"@ + mc + "\u{1b}[49m"@
    }
}

/// The first `k` highlighted segments, concatenated.
pub open spec fn spec_middle(indices: Seq<usize>, text: Seq<char>, sel: bool, k: int) -> Seq<char>
    decreases k,
{
    if k <= 0 {
        Seq::empty()
    } else {
        spec_middle(indices, text, sel, k - 1) + spec_seg(indices, text, sel, k - 1)
    }
}

/// One rendered item line: the highlighted segments, the unmatched tail,
/// and either the selection dressing (marker glyph, spacer, selection
/// background on the tail) or the plain left margin.
pub open spec fn spec_coloured_line(indices: Seq<usize>, text: Seq<char>, sel: bool) -> Seq<char> {
    let middle = spec_middle(indices, text, sel, indices.len() as int);
    let remaining = text.subrange(seg_start(indices, indices.len() as int), text.len() as int);
    if sel {
        "\u{1b}[48;2;50;50;50m"@ + "\u{1b}[38;2;168;204;140m"@ + ">"@ + "\u{1b}[39m"@
            + "\u{1b}[49m"@ + "\u{1b}[38;2;50;50;50m"@ + "  "@ + "\u{1b}[39m"@ + middle
            + "\u{1b}[48;2;50;50;50m"@ + remaining + "\u{1b}[49m"@
    } else {
        "\u{1b}[48;2;50;50;50m"@ + " "@ + "\u{1b}[49m"@ + "  "@ + middle + remaining
    }
}

/// Highlights one candidate line: the matched positions get the highlight
/// background, and a selected line additionally gets the selection
/// background, a leading marker glyph and a spacer.
pub fn get_coloured_line(fuzzy_indecies: &Vec<usize>, text: &str, is_selected: bool) -> (r: String)
    requires
        forall|a: int, b: int|
            0 <= a < b < fuzzy_indecies@.len() ==> fuzzy_indecies@[a] < fuzzy_indecies@[b],
        forall|a: int|
            0 <= a < fuzzy_indecies@.len() ==> (#[trigger] fuzzy_indecies@[a]) < text@.len(),
    ensures
        r@ == spec_coloured_line(fuzzy_indecies@, text@, is_selected),
{
    let tlen = text.unicode_len();
    let mut coloured = String::new();
    let mut start: usize = 0;
    let mut k: usize = 0;
    while k < fuzzy_indecies.len()
        invariant
            tlen == text@.len(),
            k <= fuzzy_indecies@.len(),
            forall|a: int, b: int|
                0 <= a < b < fuzzy_indecies@.len() ==> fuzzy_indecies@[a] < fuzzy_indecies@[b],
            forall|a: int|
                0 <= a < fuzzy_indecies@.len() ==> (#[trigger] fuzzy_indecies@[a]) < text@.len(),
            start == seg_start(fuzzy_indecies@, k as int),
            start <= text@.len(),
            coloured@ == spec_middle(fuzzy_indecies@, text@, is_selected, k as int),
        decreases fuzzy_indecies@.len() - k,
    {
        let j = fuzzy_indecies[k];
        proof {
            if k > 0 {
                assert(fuzzy_indecies@[k as int - 1] < fuzzy_indecies@[k as int]);
            }
        }
        let part = text.substring_char(start, j);
        let mc = text.substring_char(j, j + 1);
        if is_selected {
            coloured.append(bg_dark_grey().as_str());
            coloured.append(part);
            coloured.append(bg_reset().as_str());
            coloured.append(bg_dark_blue().as_str());
            coloured.append(mc);
            coloured.append(bg_reset().as_str());
        } else {
            coloured.append(part);
            coloured.append(bg_dark_blue().as_str());
            coloured.append(mc);
            coloured.append(bg_reset().as_str());
        }
        proof {
            assert(coloured@ =~= spec_middle(
                fuzzy_indecies@,
                text@,
                is_selected,
                k as int + 1,
            ));
        }
        start = j + 1;
        k = k + 1;
    }
    let remaining = text.substring_char(start, tlen);
    let mut out = String::new();
    if is_selected {
        out.append(bg_dark_grey().as_str());
        out.append(fg_green().as_str());
        out.append(">");
        out.append(fg_reset().as_str());
        out.append(bg_reset().as_str());
        out.append(fg_dark_grey().as_str());
        out.append("  ");
        out.append(fg_reset().as_str());
        out.append(coloured.as_str());
        out.append(bg_dark_grey().as_str());
        out.append(remaining);
        out.append(bg_reset().as_str());
    } else {
        out.append(bg_dark_grey().as_str());
        out.append(" ");
        out.append(bg_reset().as_str());
        out.append("  ");
        out.append(coloured.as_str());
        out.append(remaining);
    }
    proof {
        assert(out@ =~= spec_coloured_line(fuzzy_indecies@, text@, is_selected));
    }
    out
}

/// The bytes of visible row `r`: the line is cleared, then a matching item
/// is drawn from column one with its highlights, and a row past the last
/// match stays blank.
pub open spec fn spec_row<T>(
    items: Seq<Item<T>>,
    matches: Seq<usize>,
    scroll: int,
    selrow: int,
    r: int,
) -> Seq<char> {
    if scroll + r < matches.len() {
        let it = items[matches[scroll + r] as int];
        let pos = match it.score {
            Some(ms) => ms.matched_positions@,
            None => Seq::empty(),
        };
        "\u{1b}[2K"@ + "\u{1b}[1000D"@ + spec_coloured_line(pos, it.name@, r == selrow) + "\n"@
    } else {
        "\u{1b}[2K"@ + "\n"@
    }
}

/// The first `k` visible rows, concatenated.
pub open spec fn spec_rows<T>(
    items: Seq<Item<T>>,
    matches: Seq<usize>,
    scroll: int,
    selrow: int,
    k: int,
) -> Seq<char>
    decreases k,
{
    if k <= 0 {
        Seq::empty()
    } else {
        spec_rows(items, matches, scroll, selrow, k - 1) + spec_row(
            items,
            matches,
            scroll,
            selrow,
            k - 1,
        )
    }
}

/// `count` reserved blank rows.
pub open spec fn spec_blank_rows(count: int) -> Seq<char>
    decreases count,
{
    if count <= 0 {
        Seq::empty()
    } else {
        spec_blank_rows(count - 1) + " \n"@
    }
}

impl<T> FuzzyFinder<T> {
    /// The repaint anchor: the session's starting row, moved up by the
    /// space the viewport had to scroll.
    pub open spec fn spec_anchor_row(&self) -> u16 {
        (self.console_offset - self.positive_space_remaining) as u16
    }

    /// The row the prompt is drawn on: one past the reserved list rows,
    /// counted from the repaint anchor, saturated at the terminal
    /// coordinate limit.
    pub open spec fn spec_prompt_row(&self) -> u16 {
        let anchor = self.console_offset - self.positive_space_remaining;
        if anchor + self.list.lines_to_show + 1 > 65535 {
            65535u16
        } else {
            (anchor + self.list.lines_to_show + 1) as u16
        }
    }

    /// The column right after the typed query, saturated at the terminal
    /// coordinate limit.
    pub open spec fn spec_prompt_col(&self) -> u16 {
        if self.search_term@.len() + 2 > 65535 {
            65535u16
        } else {
            (self.search_term@.len() + 2) as u16
        }
    }

    /// The space-reservation bytes: on the first paint only, the reserved
    /// rows are written out (below the line that started the session), and
    /// the cursor is saved and restored around them.
    pub open spec fn spec_space_bytes(&self) -> Seq<char> {
        "\u{1b}[s"@ + (if self.first {
            spec_blank_rows(self.list.lines_to_show as int)
        } else {
            Seq::empty()
        }) + "\u{1b}[u"@
    }

    /// The item-area bytes: jump to the anchor row, then exactly
    /// `lines_to_show` rows, blank past the last match.
    pub open spec fn spec_items_bytes(&self) -> Seq<char> {
        esc_goto(1, self.spec_anchor_row()) + spec_rows(
            self.all_items@,
            self.matches@,
            self.list.scroll_offset as int,
            self.list.selected_index as int,
            self.list.lines_to_show as int,
        )
    }

    /// The prompt-line bytes: clear the prompt row, show the cursor, draw
    /// the prompt glyph and the query, leaving the cursor after the typed
    /// text.
    pub open spec fn spec_prompt_bytes(&self) -> Seq<char> {
        "\u{1b}[2K"@ + esc_goto(self.spec_prompt_col(), self.spec_prompt_row()) + "\u{1b}[2K"@
            + "\u{1b}[?25h"@ + esc_goto(1, self.spec_prompt_row())
            + "\u{1b}[38;2;113;190;242m"@ + "$"@ + "\u{1b}[39m"@ + " "@ + self.search_term@
    }

    /// One full repaint, as a function of the model state alone.
    pub open spec fn spec_repaint_bytes(&self) -> Seq<char> {
        self.spec_space_bytes() + self.spec_items_bytes() + self.spec_prompt_bytes()
    }

    /// The space-reservation step; the first paint reserves the rows, and
    /// afterwards the model is marked painted.
    fn render_space(&mut self) -> (r: String)
        requires
            old(self).wf(),
        ensures
            final(self).wf(),
            r@ == old(self).spec_space_bytes(),
            *final(self) == (FuzzyFinder { first: false, ..*old(self) }),
    {
        let mut out = cursor_save();
        if self.first {
            let cap = self.list.lines_to_show;
            let mut i: usize = 0;
            let ghost prefix = out@;
            while i < cap
                invariant
                    i <= cap,
                    out@ == prefix + spec_blank_rows(i as int),
                decreases cap - i,
            {
                out.append(" \n");
                i = i + 1;
            }
            self.first = false;
        }
        out.append(cursor_restore().as_str());
        proof {
            assert(out@ =~= old(self).spec_space_bytes());
        }
        out
    }

    /// The item-area bytes for the current model.
    fn render_items(&self) -> (r: String)
        requires
            self.wf(),
    ensures
            r@ == self.spec_items_bytes(),
    {
        let anchor = self.console_offset - self.positive_space_remaining;
        let mut out = goto(1, anchor);
        let cap = self.list.lines_to_show;
        let mut r: usize = 0;
        while r < cap
            invariant
                self.wf(),
                r <= cap,
                cap == self.list.lines_to_show,
                out@ == esc_goto(1, self.spec_anchor_row()) + spec_rows(
                    self.all_items@,
                    self.matches@,
                    self.list.scroll_offset as int,
                    self.list.selected_index as int,
                    r as int,
                ),
            decreases cap - r,
        {
            out.append(clear_line().as_str());
            if self.list.scroll_offset < self.matches.len() && r < self.matches.len()
                - self.list.scroll_offset {
                let abs = self.list.scroll_offset + r;
                let idx = self.matches[abs];
                out.append(cursor_far_left().as_str());
                let item = &self.all_items[idx];
                let line = get_coloured_line(
                    &item.score.as_ref().unwrap().matched_positions,
                    item.name.as_str(),
                    r == self.list.selected_index,
                );
                out.append(line.as_str());
            }
            out.append("\n");
            proof {
                assert(out@ =~= esc_goto(1, self.spec_anchor_row()) + spec_rows(
                    self.all_items@,
                    self.matches@,
                    self.list.scroll_offset as int,
                    self.list.selected_index as int,
                    r as int + 1,
                ));
            }
            r = r + 1;
        }
        out
    }

    /// The prompt-line bytes for the current model.
    fn render_prompt(&self) -> (r: String)
        requires
            self.wf(),
        ensures
            r@ == self.spec_prompt_bytes(),
    {
        let chars = self.search_term.as_str().unicode_len();
        let cx: u16 = if chars > 65533 {
            65535
        } else {
            (chars + 2) as u16
        };
        let anchor = self.console_offset - self.positive_space_remaining;
        let py32: u32 = anchor as u32 + self.list.lines_to_show as u32 + 1;
        let py: u16 = if py32 > 65535 {
            65535
        } else {
            py32 as u16
        };
        let mut out = clear_line();
        out.append(goto(cx, py).as_str());
        out.append(clear_line().as_str());
        out.append(cursor_show().as_str());
        out.append(goto(1, py).as_str());
        out.append(fg_blue().as_str());
        out.append("$");
        out.append(fg_reset().as_str());
        out.append(" ");
        out.append(self.search_term.as_str());
        proof {
            assert(out@ =~= self.spec_prompt_bytes());
        }
        out
    }

    /// One full repaint: reserve space on the first paint, redraw every
    /// visible row, redraw the prompt.  The bytes are a pure function of
    /// the model, so repainting an unchanged model repeats them exactly.
    pub fn render(&mut self) -> (r: String)
        requires
            old(self).wf(),
        ensures
            final(self).wf(),
            r@ == old(self).spec_repaint_bytes(),
            *final(self) == (FuzzyFinder { first: false, ..*old(self) }),
            !old(self).first ==> *final(self) == *old(self),
    {
        let mut out = self.render_space();
        let items = self.render_items();
        let prompt = self.render_prompt();
        out.append(items.as_str());
        out.append(prompt.as_str());
        proof {
            assert(out@ =~= old(self).spec_repaint_bytes());
        }
        out
    }
}

/// Repainting is idempotent: once the first paint has reserved its rows,
/// a repaint leaves the model unchanged, so any two consecutive repaints
/// with no intervening model change produce identical bytes.
pub proof fn lemma_repaint_idempotent<T>(f: FuzzyFinder<T>)
    ensures
        (FuzzyFinder { first: false, ..f }).spec_repaint_bytes() == (FuzzyFinder {
            first: false,
            ..(FuzzyFinder { first: false, ..f })
        }).spec_repaint_bytes(),
{
}

} // verus!
