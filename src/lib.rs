use vstd::prelude::*;

pub mod input;
pub mod render;
pub mod runmode;
pub mod search;
pub mod session;
pub mod shared;
pub mod text;
pub mod viewport;

pub use runmode::RunMode;
use search::{compute_matches, is_match_list, next_index, previous_index, select_next, select_previous, MatchPos};
use text::{chars_of, lines_of, split_lines, views};
use viewport::{center_on, centered_offset, clamp_exec, clamp_offset, max_offset, window};

verus! {

/// Whether rendered lines carry their index.
#[derive(Copy, Clone, Debug, PartialEq, Eq, Structural)]
pub enum LineNumbers {
    Disabled,
    Enabled,
}

/// An active search: the pattern, how it compares letters, every match in
/// the current content, and the selected match.
#[derive(Clone, Debug)]
pub struct SearchState {
    pub pattern: Vec<char>,
    pub case_sensitive: bool,
    pub matches: Vec<MatchPos>,
    pub current: Option<usize>,
}

/// The state of a pager: its text, split into lines, the line-numbering
/// mode, the viewport height, the scroll offset, the search, and the run
/// mode, fixed when the pager is made.
pub struct Pager {
    text: Vec<char>,
    lines: Vec<Vec<char>>,
    line_numbers: LineNumbers,
    upper_mark: usize,
    rows: usize,
    search: Option<SearchState>,
    run_mode: RunMode,
}

/// `s` is consistent with the lines it was computed against.
pub open spec fn search_fits(s: SearchState, lines: Seq<Seq<char>>) -> bool {
    &&& is_match_list(s.matches@, lines, s.pattern@, s.case_sensitive)
    &&& s.current matches Some(i) ==> i < s.matches@.len()
}

/// `after` is `before` carried over to `lines`: the same pattern and
/// comparison, the match list recomputed, and the selection kept where it
/// still exists.
pub open spec fn search_refreshed(before: Option<SearchState>, after: Option<SearchState>, lines: Seq<Seq<char>>) -> bool {
    match before {
        None => after is None,
        Some(o) => match after {
            None => false,
            Some(n) => {
                &&& n.pattern@ == o.pattern@
                &&& n.case_sensitive == o.case_sensitive
                &&& is_match_list(n.matches@, lines, n.pattern@, n.case_sensitive)
                &&& n.current == (match o.current {
                    Some(i) => if i < n.matches@.len() { Some(i) } else { None },
                    None => None,
                })
            },
        },
    }
}

/// The search `before` recomputed against `lines`.
fn refresh_search(before: &Option<SearchState>, lines: &Vec<Vec<char>>) -> (r: Option<SearchState>)
    ensures
        search_refreshed(*before, r, views(lines@)),
{
    match before {
        None => None,
        Some(o) => {
            let pattern = o.pattern.clone();
            let matches = compute_matches(lines, &pattern, o.case_sensitive);
            let current = match o.current {
                Some(i) => if i < matches.len() { Some(i) } else { None },
                None => None,
            };
            Some(SearchState { pattern, case_sensitive: o.case_sensitive, matches, current })
        },
    }
}

/// `cur` is the match selected when a search is committed with the view at
/// `off`: the first match on line `off` or below, else the first match, and
/// none where there is no match.
pub open spec fn first_selection(m: Seq<MatchPos>, off: nat, cur: Option<usize>) -> bool {
    match cur {
        None => m.len() == 0,
        Some(k) => {
            &&& k < m.len()
            &&& (forall|j: int| 0 <= j < k ==> (#[trigger] m[j]).line < off)
            &&& (m[k as int].line >= off || (k == 0 && forall|j: int| 0 <= j < m.len() ==> (#[trigger] m[j]).line < off))
        },
    }
}

/// The index that `first_selection` describes.
fn first_from(m: &Vec<MatchPos>, off: usize) -> (r: Option<usize>)
    ensures
        first_selection(m@, off as nat, r),
{
    if m.len() == 0 {
        return None;
    }
    let mut k: usize = 0;
    while k < m.len()
        invariant
            k <= m@.len(),
            forall|j: int| 0 <= j < k ==> (#[trigger] m@[j]).line < off,
        decreases m@.len() - k,
    {
        if m[k].line >= off {
            return Some(k);
        }
        k = k + 1;
    }
    Some(0)
}

/// `b` is `a` after committing a search for `pat`: every match is listed,
/// the first at or below the top of the view is selected, and the view is
/// centred on it.
pub open spec fn after_commit(a: Pager, b: Pager, pat: Seq<char>, case_sensitive: bool) -> bool {
    &&& b.search_state() matches Some(s) && {
        &&& s.pattern@ == pat
        &&& s.case_sensitive == case_sensitive
        &&& is_match_list(s.matches@, a.line_seq(), pat, case_sensitive)
        &&& first_selection(s.matches@, a.offset(), s.current)
        &&& b.offset() == match s.current {
            Some(k) => centered_offset(s.matches@[k as int].line as nat, a.total(), a.height()),
            None => a.offset(),
        }
    }
    &&& b.content() == a.content()
    &&& b.numbering() == a.numbering()
    &&& b.mode() == a.mode()
    &&& b.height() == a.height()
}

/// `b` is `a` after moving to the next match (`forward`) or the previous
/// one, cyclically, with the view centred on it; without a search nothing
/// changes.
pub open spec fn after_navigation(a: Pager, b: Pager, forward: bool) -> bool {
    &&& match a.search_state() {
        None => b.search_state() is None && b.offset() == a.offset(),
        Some(s) => {
            let k = if forward {
                next_index(s.matches@.len(), s.current)
            } else {
                previous_index(s.matches@.len(), s.current)
            };
            &&& b.search_state() == Some(SearchState { current: k, ..s })
            &&& b.offset() == match k {
                Some(i) => centered_offset(s.matches@[i as int].line as nat, a.total(), a.height()),
                None => a.offset(),
            }
        },
    }
    &&& b.content() == a.content()
    &&& b.numbering() == a.numbering()
    &&& b.mode() == a.mode()
    &&& b.height() == a.height()
}

/// The pager's parts, taken out of it.
type Parts = (Vec<char>, Vec<Vec<char>>, LineNumbers, usize, usize, Option<SearchState>, RunMode);

impl Pager {
    #[verifier::type_invariant]
    spec fn inv(self) -> bool {
        &&& views(self.lines@) == lines_of(self.text@)
        &&& self.upper_mark <= max_offset(self.lines@.len(), self.rows as nat)
        &&& self.search matches Some(s) ==> search_fits(s, views(self.lines@))
        &&& self.run_mode != RunMode::Uninitialized
    }

    /// The whole text.
    pub closed spec fn content(&self) -> Seq<char> {
        self.text@
    }

    /// The lines of the text.
    pub open spec fn line_seq(&self) -> Seq<Seq<char>> {
        lines_of(self.content())
    }

    /// The number of lines.
    pub open spec fn total(&self) -> nat {
        self.line_seq().len()
    }

    /// The index of the first visible line.
    pub closed spec fn offset(&self) -> nat {
        self.upper_mark as nat
    }

    /// The viewport height in rows.
    pub closed spec fn height(&self) -> nat {
        self.rows as nat
    }

    /// The line-numbering mode.
    pub closed spec fn numbering(&self) -> LineNumbers {
        self.line_numbers
    }

    /// The run mode.
    pub closed spec fn mode(&self) -> RunMode {
        self.run_mode
    }

    /// The active search, if any.
    pub closed spec fn search_state(&self) -> Option<SearchState> {
        self.search
    }

    /// A pager in run mode `mode` over `lines` with numbering `ln`, at the
    /// top, with no search and a viewport of no rows until one is set.
    pub(crate) fn build(lines: String, ln: LineNumbers, mode: RunMode) -> (p: Pager)
        requires
            mode != RunMode::Uninitialized,
        ensures
            p.content() == lines@,
            p.numbering() == ln,
            p.offset() == 0,
            p.height() == 0,
            p.search_state() is None,
            p.mode() == mode,
    {
        let text = chars_of(lines.as_str());
        let split = split_lines(&text);
        Pager { text, lines: split, line_numbers: ln, upper_mark: 0, rows: 0, search: None, run_mode: mode }
    }

    /// A static pager over `lines` with numbering `ln`, at the top, with no
    /// search and a viewport of no rows until one is set.
    pub fn new_static(lines: String, ln: LineNumbers) -> (p: Pager)
        ensures
            p.content() == lines@,
            p.numbering() == ln,
            p.offset() == 0,
            p.height() == 0,
            p.search_state() is None,
            p.mode() == RunMode::Static,
    {
        Pager::build(lines, ln, RunMode::Static)
    }

    /// An empty pager with line numbers disabled.
    pub fn default_static() -> (p: Pager)
        ensures
            p.content() == Seq::<char>::empty(),
            p.numbering() == LineNumbers::Disabled,
            p.offset() == 0,
            p.height() == 0,
            p.search_state() is None,
            p.mode() == RunMode::Static,
    {
        let p = Pager::new_static(String::new(), LineNumbers::Disabled);
        p
    }

    /// Puts `chars` in place of the text, re-clamps the offset and recomputes
    /// the search.
    fn install(&mut self, chars: Vec<char>)
        ensures
            final(self).content() == chars@,
            final(self).numbering() == old(self).numbering(),
            final(self).mode() == old(self).mode(),
            final(self).height() == old(self).height(),
            final(self).offset() == clamp_offset(old(self).offset() as int, lines_of(chars@).len(), old(self).height()),
            search_refreshed(old(self).search_state(), final(self).search_state(), lines_of(chars@)),
    {
        proof {
            use_type_invariant(&*self);
        }
        let lines = split_lines(&chars);
        let search = refresh_search(&self.search, &lines);
        let upper = clamp_exec(self.upper_mark, lines.len(), self.rows);
        *self = Pager {
            text: chars,
            lines,
            line_numbers: self.line_numbers,
            upper_mark: upper,
            rows: self.rows,
            search,
            run_mode: self.run_mode,
        };
    }

    /// Takes the pager apart, leaving an empty one in its place.
    fn take_parts(&mut self) -> (r: Parts)
        ensures
            r.0 == old(self).text,
            r.1 == old(self).lines,
            r.2 == old(self).line_numbers,
            r.3 == old(self).upper_mark,
            r.4 == old(self).rows,
            r.5 == old(self).search,
            r.6 == old(self).run_mode,
            r.6 != RunMode::Uninitialized,
            views(r.1@) == lines_of(r.0@),
            r.3 <= max_offset(r.1@.len(), r.4 as nat),
            r.5 matches Some(s) ==> search_fits(s, views(r.1@)),
    {
        proof {
            use_type_invariant(&*self);
        }
        let mut taken = Pager::default_static();
        core::mem::swap(self, &mut taken);
        proof {
            use_type_invariant(&taken);
        }
        let Pager { text, lines, line_numbers, upper_mark, rows, search, run_mode } = taken;
        (text, lines, line_numbers, upper_mark, rows, search, run_mode)
    }

    /// Moves the view so that line `n` is at the top, as far as the bounds
    /// allow.
    pub fn scroll_to(&mut self, n: usize)
        ensures
            final(self).offset() == clamp_offset(n as int, old(self).total(), old(self).height()),
            final(self).offset() <= max_offset(final(self).total(), final(self).height()),
            final(self).content() == old(self).content(),
            final(self).numbering() == old(self).numbering(),
            final(self).mode() == old(self).mode(),
            final(self).height() == old(self).height(),
            final(self).search_state() == old(self).search_state(),
    {
        let (text, lines, line_numbers, _upper, rows, search, run_mode) = self.take_parts();
        let upper_mark = clamp_exec(n, lines.len(), rows);
        *self = Pager { text, lines, line_numbers, upper_mark, rows, search, run_mode };
    }

    /// Moves the view by `delta` lines, stopping at the bounds.
    pub fn scroll_by(&mut self, delta: isize)
        ensures
            final(self).offset() == clamp_offset(old(self).offset() + delta, old(self).total(), old(self).height()),
            final(self).offset() <= max_offset(final(self).total(), final(self).height()),
            final(self).content() == old(self).content(),
            final(self).numbering() == old(self).numbering(),
            final(self).mode() == old(self).mode(),
            final(self).height() == old(self).height(),
            final(self).search_state() == old(self).search_state(),
    {
        let (text, lines, line_numbers, upper, rows, search, run_mode) = self.take_parts();
        let target: usize = if delta < 0 {
            let d: usize = (-(delta + 1)) as usize + 1;
            if d > upper { 0 } else { upper - d }
        } else {
            let d: usize = delta as usize;
            if d > usize::MAX - upper { usize::MAX } else { upper + d }
        };
        let upper_mark = clamp_exec(target, lines.len(), rows);
        *self = Pager { text, lines, line_numbers, upper_mark, rows, search, run_mode };
    }

    /// Sets the viewport height and re-clamps the offset.
    pub fn set_rows(&mut self, rows: usize)
        ensures
            final(self).height() == rows,
            final(self).offset() == clamp_offset(old(self).offset() as int, old(self).total(), rows as nat),
            final(self).content() == old(self).content(),
            final(self).numbering() == old(self).numbering(),
            final(self).mode() == old(self).mode(),
            final(self).search_state() == old(self).search_state(),
    {
        let (text, lines, line_numbers, upper, _rows, search, run_mode) = self.take_parts();
        let upper_mark = clamp_exec(upper, lines.len(), rows);
        *self = Pager { text, lines, line_numbers, upper_mark, rows, search, run_mode };
    }

    /// Sets the line-numbering mode.
    pub fn set_line_numbers(&mut self, ln: LineNumbers)
        ensures
            final(self).numbering() == ln,
            final(self).mode() == old(self).mode(),
            final(self).offset() == old(self).offset(),
            final(self).content() == old(self).content(),
            final(self).height() == old(self).height(),
            final(self).search_state() == old(self).search_state(),
    {
        let (text, lines, _ln, upper_mark, rows, search, run_mode) = self.take_parts();
        *self = Pager { text, lines, line_numbers: ln, upper_mark, rows, search, run_mode };
    }

    /// Starts a search for `pattern`: computes every match, selects the first
    /// one at or below the top of the view (else the first), and centres the
    /// view on it.
    pub fn commit_search(&mut self, pattern: Vec<char>, case_sensitive: bool)
        ensures
            after_commit(*old(self), *final(self), pattern@, case_sensitive),
    {
        let (text, lines, line_numbers, upper, rows, _search, run_mode) = self.take_parts();
        let matches = compute_matches(&lines, &pattern, case_sensitive);
        let current = first_from(&matches, upper);
        let upper_mark = match current {
            Some(k) => center_on(matches[k].line, lines.len(), rows),
            None => upper,
        };
        let search = Some(SearchState { pattern, case_sensitive, matches, current });
        *self = Pager { text, lines, line_numbers, upper_mark, rows, search, run_mode };
    }

    /// Ends the search.
    pub fn clear_search(&mut self)
        ensures
            final(self).search_state() is None,
            final(self).offset() == old(self).offset(),
            final(self).content() == old(self).content(),
            final(self).numbering() == old(self).numbering(),
            final(self).mode() == old(self).mode(),
            final(self).height() == old(self).height(),
    {
        let (text, lines, line_numbers, upper_mark, rows, _search, run_mode) = self.take_parts();
        *self = Pager { text, lines, line_numbers, upper_mark, rows, search: None, run_mode };
    }

    /// Selects the next match, cyclically, and centres the view on it.
    /// Without a search nothing changes.
    pub fn next_match(&mut self)
        ensures
            after_navigation(*old(self), *final(self), true),
    {
        let (text, lines, line_numbers, upper, rows, search, run_mode) = self.take_parts();
        let (upper_mark, search) = match search {
            None => (upper, None),
            Some(s) => {
                let k = select_next(&s.matches, s.current);
                let upper_mark = match k {
                    Some(i) => center_on(s.matches[i].line, lines.len(), rows),
                    None => upper,
                };
                (upper_mark, Some(SearchState { current: k, ..s }))
            },
        };
        *self = Pager { text, lines, line_numbers, upper_mark, rows, search, run_mode };
    }

    /// Selects the previous match, cyclically, and centres the view on it.
    /// Without a search nothing changes.
    pub fn previous_match(&mut self)
        ensures
            after_navigation(*old(self), *final(self), false),
    {
        let (text, lines, line_numbers, upper, rows, search, run_mode) = self.take_parts();
        let (upper_mark, search) = match search {
            None => (upper, None),
            Some(s) => {
                let k = select_previous(&s.matches, s.current);
                let upper_mark = match k {
                    Some(i) => center_on(s.matches[i].line, lines.len(), rows),
                    None => upper,
                };
                (upper_mark, Some(SearchState { current: k, ..s }))
            },
        };
        *self = Pager { text, lines, line_numbers, upper_mark, rows, search, run_mode };
    }

    /// The index of the first visible line.
    pub fn upper_mark(&self) -> (r: usize)
        ensures
            r == self.offset(),
            self.offset() <= max_offset(self.total(), self.height()),
    {
        proof {
            use_type_invariant(self);
        }
        self.upper_mark
    }

    /// The run mode, set when the pager was made; never `Uninitialized`.
    pub fn run_mode(&self) -> (r: RunMode)
        ensures
            r == self.mode(),
            r != RunMode::Uninitialized,
    {
        proof {
            use_type_invariant(self);
        }
        self.run_mode
    }

    /// The viewport height.
    pub fn rows(&self) -> (r: usize)
        ensures
            r == self.height(),
    {
        self.rows
    }

    /// The line-numbering mode.
    pub fn line_numbers(&self) -> (r: LineNumbers)
        ensures
            r == self.numbering(),
    {
        self.line_numbers
    }

    /// The number of lines.
    pub fn line_count(&self) -> (r: usize)
        ensures
            r == self.total(),
    {
        proof {
            use_type_invariant(self);
        }
        self.lines.len()
    }

    /// The whole text.
    pub fn text(&self) -> (r: &Vec<char>)
        ensures
            r@ == self.content(),
    {
        &self.text
    }

    /// Line `i`.
    pub fn line(&self, i: usize) -> (r: &Vec<char>)
        requires
            i < self.total(),
        ensures
            r@ == self.line_seq()[i as int],
    {
        proof {
            use_type_invariant(self);
            assert(views(self.lines@)[i as int] == self.lines@[i as int]@);
        }
        &self.lines[i]
    }

    /// The active search.
    pub fn search(&self) -> (r: &Option<SearchState>)
        ensures
            *r == self.search_state(),
    {
        &self.search
    }

    /// The lines on screen: from the offset to one past the last shown.
    pub fn visible_range(&self) -> (r: (usize, usize))
        ensures
            r.0 == window(self.offset(), self.total(), self.height()).0,
            r.1 == window(self.offset(), self.total(), self.height()).1,
    {
        proof {
            use_type_invariant(self);
        }
        let total = self.lines.len();
        let end = if self.rows < total - self.upper_mark { self.upper_mark + self.rows } else { total };
        (if self.upper_mark < end { self.upper_mark } else { end }, end)
    }

    /// Replaces the text.
    pub fn set_content(&mut self, text: String)
        ensures
            final(self).content() == text@,
            final(self).numbering() == old(self).numbering(),
            final(self).mode() == old(self).mode(),
            final(self).height() == old(self).height(),
            final(self).offset() == clamp_offset(old(self).offset() as int, final(self).total(), final(self).height()),
            search_refreshed(old(self).search_state(), final(self).search_state(), final(self).line_seq()),
    {
        let chars = chars_of(text.as_str());
        self.install(chars);
    }

    /// Appends `text` to the text.
    pub fn append_content(&mut self, text: &str)
        ensures
            final(self).content() == old(self).content() + text@,
            final(self).numbering() == old(self).numbering(),
            final(self).mode() == old(self).mode(),
            final(self).height() == old(self).height(),
            final(self).offset() == clamp_offset(old(self).offset() as int, final(self).total(), final(self).height()),
            search_refreshed(old(self).search_state(), final(self).search_state(), final(self).line_seq()),
    {
        let more = chars_of(text);
        let mut chars = self.text.clone();
        let mut i: usize = 0;
        while i < more.len()
            invariant
                i <= more@.len(),
                chars@ == self.text@ + more@.take(i as int),
            decreases more@.len() - i,
        {
            chars.push(more[i]);
            i = i + 1;
            assert(chars@ =~= self.text@ + more@.take(i as int));
        }
        assert(more@.take(more@.len() as int) =~= more@);
        self.install(chars);
    }
}

} // verus!
