//! Parsing a shell script into its model: the script's header comment and
//! the functions it defines, each with the comment block above it.
//!
//! A line starting with `#` accumulates into the current comment block; a
//! hashbang line opens the script's header comment; a line that defines a
//! function (`name() ... {` at the end) takes the accumulated block as its
//! documentation.  Reading the file is the caller's side; the parser works
//! on the lines.

use vstd::prelude::*;
use vstd::string::*;

use crate::executables::Executable;
use crate::item::Item;
use crate::strutil::{clone_value, str_eq};
use crate::term::{fg_green, fg_reset};

verus! {

/// What the terminal shows a string as wide as, in columns.  The width
/// tables live in the padding crate's dependency; the name only fixes that
/// equal strings get equal widths.
pub uninterp spec fn display_width(s: Seq<char>) -> int;

/// `n` spaces.
pub open spec fn spaces(n: int) -> Seq<char>
    decreases n,
{
    if n <= 0 {
        Seq::empty()
    } else {
        spaces(n - 1).push(' ')
    }
}

/// A string padded on the left with spaces up to `w` columns; one already
/// that wide stays as it is.
pub open spec fn spec_pad(s: Seq<char>, w: int) -> Seq<char> {
    if display_width(s) >= w {
        s
    } else {
        spaces(w - display_width(s)) + s
    }
}

/// Relies on pad's `PadStr::pad_to_width_with_alignment` with right
/// alignment: a string at least `width` columns wide is returned as it is,
/// a narrower one gets spaces on the left up to `width`.
#[verifier::external_body]
fn pad_left_to_width(s: &str, width: usize) -> (r: String)
    ensures
        r@ == if display_width(s@) >= width as int {
            s@
        } else {
            spaces(width - display_width(s@)) + s@
        },
{
    pad::PadStr::pad_to_width_with_alignment(s, width, pad::Alignment::Right)
}

/// The Unicode `White_Space` characters, as `str::trim_start` skips them.
pub open spec fn is_wspace(c: char) -> bool {
    c == ' ' || c == '\t' || c == '\n' || c == '\r' || c == '\u{b}' || c == '\u{c}' || c
        == '\u{85}' || c == '\u{a0}' || c == '\u{1680}' || c == '\u{2000}' || c == '\u{2001}' || c
        == '\u{2002}' || c == '\u{2003}' || c == '\u{2004}' || c == '\u{2005}' || c == '\u{2006}'
        || c == '\u{2007}' || c == '\u{2008}' || c == '\u{2009}' || c == '\u{200a}' || c
        == '\u{2028}' || c == '\u{2029}' || c == '\u{202f}' || c == '\u{205f}' || c == '\u{3000}'
}

/// Executable test for the `White_Space` characters above.
pub fn wspace(c: char) -> (r: bool)
    ensures
        r == is_wspace(c),
{
    c == ' ' || c == '\t' || c == '\n' || c == '\r' || c == '\u{b}' || c == '\u{c}' || c
        == '\u{85}' || c == '\u{a0}' || c == '\u{1680}' || c == '\u{2000}' || c == '\u{2001}' || c
        == '\u{2002}' || c == '\u{2003}' || c == '\u{2004}' || c == '\u{2005}' || c == '\u{2006}'
        || c == '\u{2007}' || c == '\u{2008}' || c == '\u{2009}' || c == '\u{200a}' || c
        == '\u{2028}' || c == '\u{2029}' || c == '\u{202f}' || c == '\u{205f}' || c == '\u{3000}'
}

/// The first position at or after `i` that is not a `#`.
pub open spec fn skip_hashes(s: Seq<char>, i: int) -> int
    decreases s.len() - i,
{
    if 0 <= i < s.len() && s[i] == '#' {
        skip_hashes(s, i + 1)
    } else {
        i
    }
}

/// The first position at or after `i` that is not whitespace.
pub open spec fn skip_wspace(s: Seq<char>, i: int) -> int
    decreases s.len() - i,
{
    if 0 <= i < s.len() && is_wspace(s[i]) {
        skip_wspace(s, i + 1)
    } else {
        i
    }
}

/// The position after the last leading-from-the-right whitespace run that
/// ends at `j`.
pub open spec fn rskip_wspace(s: Seq<char>, j: int) -> int
    decreases j,
{
    if 0 < j <= s.len() && is_wspace(s[j - 1]) {
        rskip_wspace(s, j - 1)
    } else {
        j
    }
}

/// A comment line with its leading `#` run and the whitespace after it
/// removed.
pub open spec fn spec_clean_comment(s: Seq<char>) -> Seq<char> {
    s.subrange(skip_wspace(s, skip_hashes(s, 0)), s.len() as int)
}

/// The text with leading and trailing whitespace removed.
pub open spec fn spec_trim(s: Seq<char>) -> Seq<char> {
    let a = skip_wspace(s, 0);
    let b = rskip_wspace(s, s.len() as int);
    if a <= b {
        s.subrange(a, b)
    } else {
        Seq::empty()
    }
}

/// Whether the line defines a shell function: it ends in `{`, contains
/// `()` before that, and its first non-whitespace character is not `_`
/// (names starting with an underscore are treated as private).
pub open spec fn spec_is_header(s: Seq<char>) -> bool {
    let t = skip_wspace(s, 0);
    if t < s.len() && s[t] == '_' {
        false
    } else {
        s.len() >= 1 && s[s.len() - 1] == '{' && exists|i: int|
            0 <= i && i + 2 < s.len() && (#[trigger] s[i]) == '(' && s[i + 1] == ')'
    }
}

/// The position of the first `()` in the line, or the line's length when
/// there is none.
pub open spec fn first_parens(s: Seq<char>, i: int) -> int
    decreases s.len() - i,
{
    if i >= 0 && i + 1 < s.len() {
        if s[i] == '(' && s[i + 1] == ')' {
            i
        } else {
            first_parens(s, i + 1)
        }
    } else {
        s.len() as int
    }
}

/// Whether the line contains `#!/` (a hashbang).
pub open spec fn spec_has_hashbang(s: Seq<char>) -> bool {
    exists|i: int|
        0 <= i && i + 3 <= s.len() && (#[trigger] s[i]) == '#' && s[i + 1] == '!' && s[i + 2] == '/'
}

/// Everything we need to know about a function in a script.
#[derive(Debug, Clone, PartialEq)]
pub struct Function {
    /// The function's name, as it is called from the shell.
    pub name: String,
    /// The comment block found directly above the definition.
    pub comment: Vec<String>,
}

/// A parsed script: where it lives, its header comment and its functions.
#[derive(Debug, Clone, PartialEq)]
pub struct Script {
    /// The path as discovered.
    pub path: String,
    /// The absolute path.
    pub absolute_path: String,
    /// The script's header comment, from the lines after the hashbang.
    pub comment: Vec<String>,
    /// The functions defined in the script, in source order.
    pub functions: Vec<Function>,
}

/// The parser's accumulator: the pending comment block, the header
/// comment collected so far, the functions found so far, and whether we
/// are inside the header block under the hashbang.
pub struct ParseState {
    pub comments: Seq<Seq<char>>,
    pub header: Seq<Seq<char>>,
    pub functions: Seq<(Seq<char>, Seq<Seq<char>>)>,
    pub in_header: bool,
}

/// The parser before any line.
pub open spec fn parse_init() -> ParseState {
    ParseState { comments: Seq::empty(), header: Seq::empty(), functions: Seq::empty(), in_header: false }
}

/// One line of the parse.
pub open spec fn parse_step(st: ParseState, line: Seq<char>) -> ParseState {
    if line.len() > 0 && line[0] == '#' {
        if spec_has_hashbang(line) {
            ParseState { in_header: true, ..st }
        } else if st.in_header {
            let c = spec_clean_comment(line);
            if st.header.len() == 0 && c.len() == 0 {
                st
            } else {
                ParseState { header: st.header.push(c), ..st }
            }
        } else {
            ParseState { comments: st.comments.push(spec_clean_comment(line)), ..st }
        }
    } else {
        let st2 = if spec_is_header(line) {
            ParseState {
                functions: st.functions.push(
                    (spec_trim(line.subrange(0, first_parens(line, 0))), st.comments),
                ),
                ..st
            }
        } else {
            st
        };
        ParseState { comments: Seq::empty(), in_header: false, ..st2 }
    }
}

/// The parse of the first `k` lines.
pub open spec fn parse_lines(lines: Seq<Seq<char>>, k: int) -> ParseState
    decreases k,
{
    if k <= 0 {
        parse_init()
    } else {
        parse_step(parse_lines(lines, k - 1), lines[k - 1])
    }
}

/// Strips the leading `#` run of a comment line, then the whitespace
/// after it.
pub fn clean_comment_line(line: &str) -> (r: String)
    ensures
        r@ == spec_clean_comment(line@),
{
    let len = line.unicode_len();
    let mut i: usize = 0;
    while i < len && line.get_char(i) == '#'
        invariant
            len == line@.len(),
            0 <= i <= len,
            skip_hashes(line@, 0) == skip_hashes(line@, i as int),
        decreases len - i,
    {
        i = i + 1;
    }
    let mut j: usize = i;
    while j < len && wspace(line.get_char(j))
        invariant
            len == line@.len(),
            i <= j <= len,
            skip_wspace(line@, i as int) == skip_wspace(line@, j as int),
        decreases len - j,
    {
        j = j + 1;
    }
    line.substring_char(j, len).to_owned()
}

/// Whether the line defines a shell function; see [`spec_is_header`].
pub fn is_function_header_line(line: &str) -> (r: bool)
    ensures
        r == spec_is_header(line@),
{
    let len = line.unicode_len();
    let mut t: usize = 0;
    while t < len && wspace(line.get_char(t))
        invariant
            len == line@.len(),
            0 <= t <= len,
            skip_wspace(line@, 0) == skip_wspace(line@, t as int),
        decreases len - t,
    {
        t = t + 1;
    }
    proof {
        assert(skip_wspace(line@, t as int) == t as int);
    }
    if t < len && line.get_char(t) == '_' {
        return false;
    }
    if len == 0 || line.get_char(len - 1) != '{' {
        return false;
    }
    if len < 3 {
        return false;
    }
    let mut i: usize = 0;
    while i < len - 2
        invariant
            len == line@.len(),
            3 <= len,
            0 <= i <= len - 2,
            !(skip_wspace(line@, 0) < line@.len() && line@[skip_wspace(line@, 0)] == '_'),
            line@[len - 1] == '{',
            forall|k: int| 0 <= k < i ==> !((#[trigger] line@[k]) == '(' && line@[k + 1] == ')'),
        decreases len - i,
    {
        if line.get_char(i) == '(' && line.get_char(i + 1) == ')' {
            proof {
                assert((line@[i as int]) == '(' && line@[i as int + 1] == ')');
                assert(spec_is_header(line@));
            }
            return true;
        }
        i = i + 1;
    }
    false
}

/// Builds a [`Function`] from its header line and the comment block found
/// above it: the name is the trimmed text before the first `()`, and the
/// comments are taken as they stand.
pub fn get_function(line: String, comments_found_so_far: &Vec<String>) -> (f: Function)
    ensures
        f.name@ == spec_trim(line@.subrange(0, first_parens(line@, 0))),
        f.comment.deep_view() == comments_found_so_far.deep_view(),
{
    let len = line.unicode_len();
    let mut p: usize = 0;
    let mut fp: usize = len;
    if len >= 2 {
        let mut found = false;
        while p < len - 1
            invariant
                len == line@.len(),
                2 <= len,
                0 <= p <= len - 1,
                fp <= len,
                !found ==> fp == len && first_parens(line@, 0) == first_parens(line@, p as int),
                found ==> (fp as int) == first_parens(line@, 0),
            decreases len - 1 - p,
        {
            if !found && line.as_str().get_char(p) == '(' && line.as_str().get_char(p + 1)
                == ')' {
                proof {
                    assert(first_parens(line@, p as int) == p as int);
                }
                fp = p;
                found = true;
            }
            p = p + 1;
        }
        proof {
            if !found {
                assert(p == len - 1);
                assert(first_parens(line@, p as int) == len as int);
            }
        }
    }
    proof {
        if len < 2 {
            assert(first_parens(line@, 0) == len as int);
        }
        assert(fp as int == first_parens(line@, 0));
    }
    let prefix = line.as_str().substring_char(0, fp);
    let name = trim_str(prefix);
    let mut comment: Vec<String> = Vec::new();
    let mut i: usize = 0;
    while i < comments_found_so_far.len()
        invariant
            i <= comments_found_so_far@.len(),
            comment@.len() == i as int,
            forall|j: int| 0 <= j < i ==> (#[trigger] comment@[j])@
                == comments_found_so_far@[j]@,
        decreases comments_found_so_far@.len() - i,
    {
        comment.push(comments_found_so_far[i].clone());
        i = i + 1;
    }
    proof {
        assert(comment.deep_view() =~= comments_found_so_far.deep_view());
    }
    Function { name, comment }
}

/// The text with leading and trailing whitespace removed.
pub fn trim_str(s: &str) -> (r: String)
    ensures
        r@ == spec_trim(s@),
{
    let len = s.unicode_len();
    let mut a: usize = 0;
    while a < len && wspace(s.get_char(a))
        invariant
            len == s@.len(),
            0 <= a <= len,
            skip_wspace(s@, 0) == skip_wspace(s@, a as int),
        decreases len - a,
    {
        a = a + 1;
    }
    let mut b: usize = len;
    while b > 0 && wspace(s.get_char(b - 1))
        invariant
            len == s@.len(),
            0 <= b <= len,
            rskip_wspace(s@, len as int) == rskip_wspace(s@, b as int),
        decreases b,
    {
        b = b - 1;
    }
    if a <= b {
        s.substring_char(a, b).to_owned()
    } else {
        String::new()
    }
}

/// Whether the line contains `#!/`.
fn has_hashbang(line: &str) -> (r: bool)
    ensures
        r == spec_has_hashbang(line@),
{
    let len = line.unicode_len();
    if len < 3 {
        return false;
    }
    let mut i: usize = 0;
    while i <= len - 3
        invariant
            len == line@.len(),
            3 <= len,
            0 <= i <= len - 2,
            forall|k: int|
                0 <= k < i ==> !((#[trigger] line@[k]) == '#' && line@[k + 1] == '!' && line@[k
                    + 2] == '/'),
        decreases len - i,
    {
        if line.get_char(i) == '#' && line.get_char(i + 1) == '!' && line.get_char(i + 2) == '/' {
            proof {
                assert((line@[i as int]) == '#' && line@[i as int + 1] == '!' && line@[i as int
                    + 2] == '/');
            }
            return true;
        }
        i = i + 1;
    }
    false
}

impl Script {
    /// Parse the lines of `executable` into a script model: the header
    /// comment found under the hashbang and every function with the
    /// comment block above it.
    pub fn new(executable: &Executable, lines: &Vec<String>) -> (s: Script)
        ensures
            s.path == executable.path,
            s.absolute_path == executable.absolute_path,
            ({
                let st = parse_lines(lines.deep_view(), lines.deep_view().len() as int);
                &&& s.comment.deep_view() == st.header
                &&& s.functions@.len() == st.functions.len()
                &&& forall|i: int|
                    0 <= i < st.functions.len() ==> (#[trigger] s.functions@[i]).name@
                        == st.functions[i].0 && s.functions@[i].comment.deep_view()
                        == st.functions[i].1
            }),
    {
        let ghost linesv = lines.deep_view();
        let mut comments: Vec<String> = Vec::new();
        let mut included_comments: Vec<String> = Vec::new();
        let mut included_functions: Vec<Function> = Vec::new();
        let mut in_header_comments: bool = false;
        let mut k: usize = 0;
        while k < lines.len()
            invariant
                k <= lines@.len(),
                linesv == lines.deep_view(),
                linesv.len() == lines@.len(),
                ({
                    let st = parse_lines(linesv, k as int);
                    &&& comments.deep_view() == st.comments
                    &&& included_comments.deep_view() == st.header
                    &&& in_header_comments == st.in_header
                    &&& included_functions@.len() == st.functions.len()
                    &&& forall|i: int|
                        0 <= i < st.functions.len() ==> (#[trigger] included_functions@[i]).name@
                            == st.functions[i].0 && included_functions@[i].comment.deep_view()
                            == st.functions[i].1
                }),
            decreases lines@.len() - k,
        {
            let ghost st_pre = parse_lines(linesv, k as int);
            proof {
                assert(linesv[k as int] == lines@[k as int]@);
            }
            let line = &lines[k];
            let nonempty_hash = line.as_str().unicode_len() > 0 && line.as_str().get_char(0)
                == '#';
            if nonempty_hash {
                if has_hashbang(line.as_str()) {
                    in_header_comments = true;
                } else if in_header_comments {
                    let comment = clean_comment_line(line.as_str());
                    if included_comments.len() == 0 && comment.as_str().unicode_len() == 0 {
                        // A spacing line between the hashbang and the real
                        // header: ignored.
                    } else {
                        let ghost hdr_pre = included_comments.deep_view();
                        included_comments.push(comment);
                        proof {
                            assert(included_comments.deep_view() =~= hdr_pre.push(
                                spec_clean_comment(linesv[k as int]),
                            ));
                        }
                    }
                } else {
                    let ghost cm_pre = comments.deep_view();
                    comments.push(clean_comment_line(line.as_str()));
                    proof {
                        assert(comments.deep_view() =~= cm_pre.push(
                            spec_clean_comment(linesv[k as int]),
                        ));
                    }
                }
            } else {
                if is_function_header_line(line.as_str()) {
                    let function = get_function(line.clone(), &comments);
                    included_functions.push(function);
                }
                comments.clear();
                proof {
                    assert(comments.deep_view() =~= Seq::<Seq<char>>::empty());
                }
                in_header_comments = false;
            }
            proof {
                assert(parse_lines(linesv, k as int + 1) == parse_step(
                    st_pre,
                    linesv[k as int],
                ));
            }
            k = k + 1;
        }
        Script {
            comment: included_comments,
            functions: included_functions,
            path: executable.path.clone(),
            absolute_path: executable.absolute_path.clone(),
        }
    }

    /// The first function with the given name, if any.
    pub fn get(&self, function_name: &str) -> (r: Option<&Function>)
        ensures
            match r {
                Some(f) => exists|i: int|
                    0 <= i < self.functions@.len() && f == &self.functions@[i] && f.name@
                        == function_name@ && forall|j: int|
                        0 <= j < i ==> self.functions@[j].name@ != function_name@,
                None => forall|j: int|
                    0 <= j < self.functions@.len() ==> (#[trigger] self.functions@[j]).name@
                        != function_name@,
            },
    {
        let mut i: usize = 0;
        while i < self.functions.len()
            invariant
                i <= self.functions@.len(),
                forall|j: int|
                    0 <= j < i ==> (#[trigger] self.functions@[j]).name@ != function_name@,
            decreases self.functions@.len() - i,
        {
            if str_eq(self.functions[i].name.as_str(), function_name) {
                return Some(&self.functions[i]);
            }
            i = i + 1;
        }
        None
    }

    /// The position right after the last `/` of `s`, or zero when there is
    /// none.
    pub open spec fn after_last_slash(s: Seq<char>, j: int) -> int
        decreases j,
    {
        if 0 < j <= s.len() {
            if s[j - 1] == '/' {
                j
            } else {
                Script::after_last_slash(s, j - 1)
            }
        } else {
            0
        }
    }

    /// The script's file name: the path after its last `/`.  The path must
    /// actually name a file, so the part after the last `/` is non-empty.
    pub fn file_name(&self) -> (r: String)
        requires
            Script::after_last_slash(self.path@, self.path@.len() as int) < self.path@.len(),
        ensures
            r@ == self.path@.subrange(
                Script::after_last_slash(self.path@, self.path@.len() as int),
                self.path@.len() as int,
            ),
    {
        let len = self.path.as_str().unicode_len();
        let cut = Script::find_after_last_slash(self.path.as_str());
        self.path.as_str().substring_char(cut, len).to_owned()
    }

    /// The directory part of the script's path: everything before the last
    /// `/`, or nothing when there is none.
    pub fn path(&self) -> (r: String)
        ensures
            r@ == ({
                let c = Script::after_last_slash(self.path@, self.path@.len() as int);
                if c > 0 {
                    self.path@.subrange(0, c - 1)
                } else {
                    Seq::<char>::empty()
                }
            }),
    {
        let cut = Script::find_after_last_slash(self.path.as_str());
        if cut > 0 {
            self.path.as_str().substring_char(0, cut - 1).to_owned()
        } else {
            String::new()
        }
    }

    /// The directory part of the script's absolute path.
    pub fn working_dir_absolute(&self) -> (r: String)
        ensures
            r@ == ({
                let c = Script::after_last_slash(
                    self.absolute_path@,
                    self.absolute_path@.len() as int,
                );
                if c > 0 {
                    self.absolute_path@.subrange(0, c - 1)
                } else {
                    Seq::<char>::empty()
                }
            }),
    {
        let cut = Script::find_after_last_slash(self.absolute_path.as_str());
        if cut > 0 {
            self.absolute_path.as_str().substring_char(0, cut - 1).to_owned()
        } else {
            String::new()
        }
    }

    /// Scan for the position right after the last `/`.
    fn find_after_last_slash(s: &str) -> (r: usize)
        ensures
            r as int == Script::after_last_slash(s@, s@.len() as int),
            r <= s@.len(),
    {
        let len = s.unicode_len();
        let mut j: usize = len;
        while j > 0 && s.get_char(j - 1) != '/'
            invariant
                len == s@.len(),
                0 <= j <= len,
                Script::after_last_slash(s@, len as int) == Script::after_last_slash(
                    s@,
                    j as int,
                ),
            decreases j,
        {
            j = j - 1;
        }
        j
    }
}

/// The widest function name, in characters, among the first `k` functions.
pub open spec fn spec_max_name_len(fns: Seq<Function>, k: int) -> int
    decreases k,
{
    if k <= 0 {
        0
    } else {
        let m = spec_max_name_len(fns, k - 1);
        let l = fns[k - 1].name@.len() as int;
        if l > m {
            l
        } else {
            m
        }
    }
}

/// The listing lines for one function: the name right-padded to the
/// common width in the highlight colour, then its comment lines, the
/// first on the same line and the rest aligned under it.
pub open spec fn spec_fn_lines(f: Function, padding: int) -> Seq<Seq<char>> {
    let coloured = "\u{1b}[38;2;168;204;140m"@ + spec_pad(f.name@, padding) + "\u{1b}[39m"@;
    if f.comment@.len() == 0 {
        seq![coloured]
    } else {
        Seq::new(
            f.comment@.len(),
            |i: int|
                if i == 0 {
                    coloured + " "@ + f.comment@[0]@
                } else {
                    spec_pad(Seq::empty(), padding) + " "@ + f.comment@[i]@
                },
        )
    }
}

/// The common width names are padded to: two more than the longest name,
/// saturated at the machine limit.
pub open spec fn spec_padding(fns: Seq<Function>) -> int {
    let m = spec_max_name_len(fns, fns.len() as int);
    if m > usize::MAX - 2 {
        usize::MAX as int
    } else {
        m + 2
    }
}

/// The listing lines of the first `k` functions, concatenated.
pub open spec fn spec_all_fn_lines(fns: Seq<Function>, padding: int, k: int) -> Seq<Seq<char>>
    decreases k,
{
    if k <= 0 {
        Seq::empty()
    } else {
        spec_all_fn_lines(fns, padding, k - 1) + spec_fn_lines(fns[k - 1], padding)
    }
}

impl Script {
    /// The listing of the script: its header comment lines indented by two
    /// spaces, then each function's name padded to a common width in the
    /// highlight colour with its comment lines beside and under it.  A
    /// script with no functions lists nothing; the caller shows its help
    /// text instead.
    pub fn pretty_print(&self) -> (r: Vec<String>)
        ensures
            self.functions@.len() == 0 ==> r@.len() == 0,
            self.functions@.len() > 0 ==> r.deep_view() == Seq::new(
                self.comment@.len(),
                |i: int| "  "@ + self.comment@[i]@,
            ) + spec_all_fn_lines(
                self.functions@,
                spec_padding(self.functions@),
                self.functions@.len() as int,
            ),
    {
        let mut out: Vec<String> = Vec::new();
        if self.functions.len() == 0 {
            return out;
        }
        let mut ci: usize = 0;
        while ci < self.comment.len()
            invariant
                ci <= self.comment@.len(),
                out.deep_view() =~~= Seq::new(ci as nat, |i: int| "  "@ + self.comment@[i]@),
            decreases self.comment@.len() - ci,
        {
            let mut line = String::new();
            line.append("  ");
            line.append(self.comment[ci].as_str());
            proof {
                assert(line@ =~= "  "@ + self.comment@[ci as int]@);
            }
            let ghost prev = out@;
            let ghost prev_deep = out.deep_view();
            out.push(line);
            proof {
                let target = Seq::new(ci as nat + 1, |i: int| "  "@ + self.comment@[i]@);
                assert(prev_deep.len() == prev.len());
                assert(prev.len() == ci as int);
                assert(out@ == prev.push(line));
                assert forall|i: int| 0 <= i < out@.len() implies out.deep_view()[i]
                    == target[i] by {
                    assert(out.deep_view()[i] == out@[i]@);
                    if i < ci {
                        assert(out@[i] == prev[i]);
                        assert(prev_deep[i] == prev[i]@);
                    }
                }
                assert(out.deep_view() =~~= target);
            }
            ci = ci + 1;
        }
        let ghost header = out.deep_view();
        let mut maxlen: usize = 0;
        let mut k: usize = 0;
        while k < self.functions.len()
            invariant
                k <= self.functions@.len(),
                maxlen as int == spec_max_name_len(self.functions@, k as int),
            decreases self.functions@.len() - k,
        {
            let l = self.functions[k].name.as_str().unicode_len();
            if l > maxlen {
                maxlen = l;
            }
            k = k + 1;
        }
        let padding: usize = if maxlen > usize::MAX - 2 {
            usize::MAX
        } else {
            maxlen + 2
        };
        proof {
            assert(padding as int == spec_padding(self.functions@));
        }
        let mut fi: usize = 0;
        while fi < self.functions.len()
            invariant
                fi <= self.functions@.len(),
                out.deep_view() =~~= header + spec_all_fn_lines(
                    self.functions@,
                    padding as int,
                    fi as int,
                ),
            decreases self.functions@.len() - fi,
        {
            let f = &self.functions[fi];
            let padded = pad_left_to_width(f.name.as_str(), padding);
            let mut coloured = fg_green();
            coloured.append(padded.as_str());
            coloured.append(fg_reset().as_str());
            let ghost base = out.deep_view();
            proof {
                assert(coloured@ =~= "\u{1b}[38;2;168;204;140m"@ + (if display_width(
                    self.functions@[fi as int].name@,
                ) >= padding as int {
                    self.functions@[fi as int].name@
                } else {
                    spaces(padding - display_width(self.functions@[fi as int].name@))
                        + self.functions@[fi as int].name@
                }) + "\u{1b}[39m"@);
            }
            if f.comment.len() == 0 {
                out.push(coloured);
                proof {
                    assert(out.deep_view() =~~= base + spec_fn_lines(
                        self.functions@[fi as int],
                        padding as int,
                    ));
                }
            } else {
                let ghost coloured_view = coloured@;
                let mut first = coloured;
                first.append(" ");
                first.append(f.comment[0].as_str());
                proof {
                    assert(first@ =~= coloured_view + " "@ + self.functions@[fi as int].comment@[0]@);
                }
                out.push(first);
                proof {
                    assert(out.deep_view() =~~= base + spec_fn_lines(
                        self.functions@[fi as int],
                        padding as int,
                    ).subrange(0, 1));
                }
                let mut cj: usize = 1;
                while cj < f.comment.len()
                    invariant
                        1 <= cj <= f.comment@.len(),
                        f == &self.functions@[fi as int],
                        fi < self.functions@.len(),
                        f.comment@.len() > 0,
                        out.deep_view() =~~= base + spec_fn_lines(
                            self.functions@[fi as int],
                            padding as int,
                        ).subrange(0, cj as int),
                    decreases f.comment@.len() - cj,
                {
                    let mut lk = String::new();
                    let pe = pad_left_to_width("", padding);
                    lk.append(pe.as_str());
                    lk.append(" ");
                    lk.append(f.comment[cj].as_str());
                    proof {
                        reveal_strlit("");
                        assert(""@ =~= Seq::<char>::empty());
                        assert(lk@ =~= spec_pad(Seq::empty(), padding as int) + " "@
                            + self.functions@[fi as int].comment@[cj as int]@);
                    }
                    let ghost prev = out@;
                    let ghost prev_deep = out.deep_view();
                    out.push(lk);
                    proof {
                        let target = base + spec_fn_lines(
                            self.functions@[fi as int],
                            padding as int,
                        ).subrange(0, cj as int + 1);
                        assert(prev_deep.len() == prev.len());
                        assert(prev_deep =~~= base + spec_fn_lines(
                            self.functions@[fi as int],
                            padding as int,
                        ).subrange(0, cj as int));
                        assert(out@ == prev.push(lk));
                        assert forall|i: int| 0 <= i < out@.len() implies out.deep_view()[i]
                            == target[i] by {
                            assert(out.deep_view()[i] == out@[i]@);
                            if i < prev.len() {
                                assert(out@[i] == prev[i]);
                                assert(prev_deep[i] == prev[i]@);
                            }
                        }
                        assert(out.deep_view() =~~= target);
                    }
                    cj = cj + 1;
                }
                proof {
                    assert(spec_fn_lines(self.functions@[fi as int], padding as int).subrange(
                        0,
                        self.functions@[fi as int].comment@.len() as int,
                    ) =~~= spec_fn_lines(self.functions@[fi as int], padding as int));
                }
            }
            fi = fi + 1;
        }
        out
    }
}

/// The display label of function `j` of a script: directory, file name and
/// function name.
pub open spec fn spec_item_name(s: Script, j: int) -> Seq<char> {
    let c = Script::after_last_slash(s.path@, s.path@.len() as int);
    let dir = if c > 0 {
        s.path@.subrange(0, c - 1)
    } else {
        Seq::<char>::empty()
    };
    let fname = s.path@.subrange(c, s.path@.len() as int);
    dir + "/"@ + fname + " - "@ + s.functions@[j].name@
}

/// The labels of every function of the first `k` scripts, in order.
pub open spec fn spec_item_names(scripts: Seq<Script>, k: int) -> Seq<Seq<char>>
    decreases k,
{
    if k <= 0 {
        Seq::empty()
    } else {
        spec_item_names(scripts, k - 1) + Seq::new(
            scripts[k - 1].functions@.len(),
            |j: int| spec_item_name(scripts[k - 1], j),
        )
    }
}

/// Convert parsed scripts to the items the fuzzy finder searches over: one
/// item per function, labelled with the script's location and the
/// function's name, carrying the (script, function) pair as payload.
/// Every script's path must name a file.
pub fn scripts_to_item(scripts: &Vec<Script>) -> (r: Vec<Item<(Script, Function)>>)
    requires
        forall|i: int|
            0 <= i < scripts@.len() ==> Script::after_last_slash(
                (#[trigger] scripts@[i]).path@,
                scripts@[i].path@.len() as int,
            ) < scripts@[i].path@.len(),
    ensures
        r@.len() == spec_item_names(scripts@, scripts@.len() as int).len(),
        forall|k: int|
            0 <= k < r@.len() ==> (#[trigger] r@[k]).name@ == spec_item_names(
                scripts@,
                scripts@.len() as int,
            )[k] && r@[k].score is None,
{
    let mut out: Vec<Item<(Script, Function)>> = Vec::new();
    let mut i: usize = 0;
    while i < scripts.len()
        invariant
            i <= scripts@.len(),
            forall|ii: int|
                0 <= ii < scripts@.len() ==> Script::after_last_slash(
                    (#[trigger] scripts@[ii]).path@,
                    scripts@[ii].path@.len() as int,
                ) < scripts@[ii].path@.len(),
            out@.len() == spec_item_names(scripts@, i as int).len(),
            forall|k: int|
                0 <= k < out@.len() ==> (#[trigger] out@[k]).name@ == spec_item_names(
                    scripts@,
                    i as int,
                )[k] && out@[k].score is None,
        decreases scripts@.len() - i,
    {
        let script = &scripts[i];
        let dir = script.path();
        let fname = script.file_name();
        let mut base = dir;
        base.append("/");
        base.append(fname.as_str());
        base.append(" - ");
        let ghost start = out@.len() as int;
        let mut j: usize = 0;
        while j < script.functions.len()
            invariant
                i < scripts@.len(),
                j <= script.functions@.len(),
                script == &scripts@[i as int],
                forall|jj: int|
                    0 <= jj < script.functions@.len() ==> base@ + (
                    #[trigger] script.functions@[jj]).name@ == spec_item_name(
                        scripts@[i as int],
                        jj,
                    ),
                out@.len() == spec_item_names(scripts@, i as int).len() + j as int,
                forall|k: int|
                    0 <= k < out@.len() ==> (#[trigger] out@[k]).name@ == (spec_item_names(
                        scripts@,
                        i as int,
                    ) + Seq::new(
                        scripts@[i as int].functions@.len(),
                        |jj: int| spec_item_name(scripts@[i as int], jj),
                    ))[k] && out@[k].score is None,
            decreases script.functions@.len() - j,
        {
            let mut nm = base.clone();
            nm.append(script.functions[j].name.as_str());
            proof {
                assert(nm@ =~= spec_item_name(scripts@[i as int], j as int));
            }
            let payload = (clone_value(script), clone_value(&script.functions[j]));
            let item = Item::new(nm, payload);
            out.push(item);
            j = j + 1;
        }
        proof {
            assert(spec_item_names(scripts@, i as int + 1) =~= spec_item_names(scripts@, i as int)
                + Seq::new(
                scripts@[i as int].functions@.len(),
                |jj: int| spec_item_name(scripts@[i as int], jj),
            ));
        }
        i = i + 1;
    }
    out
}

} // verus!
