use vstd::prelude::*;

verus! {

/// Where a match starts: a line index and a column (in characters).
#[derive(Copy, Clone, Debug, PartialEq, Eq, Structural)]
pub struct MatchPos {
    pub line: usize,
    pub col: usize,
}

/// The code of `c` with ASCII capitals taken to lower case.
pub open spec fn folded_code(c: char) -> u32 {
    let k = c as u32;
    if 65 <= k && k <= 90 {
        (k + 32) as u32
    } else {
        k
    }
}

/// Two characters are the same for a search: equal, or, where case is
/// ignored, equal once ASCII letters are folded to lower case. Only `A`-`Z`
/// are folded; other letters compare as they are.
pub open spec fn same_char(a: char, b: char, case_sensitive: bool) -> bool {
    if case_sensitive {
        a == b
    } else {
        folded_code(a) == folded_code(b)
    }
}

/// `pat` (non-empty) occurs in `line` starting at column `col`.
pub open spec fn matches_at(line: Seq<char>, pat: Seq<char>, col: int, case_sensitive: bool) -> bool {
    &&& pat.len() > 0
    &&& 0 <= col
    &&& col + pat.len() <= line.len()
    &&& forall|j: int| 0 <= j < pat.len() ==> same_char(#[trigger] line[col + j], pat[j], case_sensitive)
}

/// A match of `pat` starts at line `l`, column `c` of `lines`.
pub open spec fn is_match(lines: Seq<Seq<char>>, pat: Seq<char>, case_sensitive: bool, l: int, c: int) -> bool {
    0 <= l < lines.len() && matches_at(lines[l], pat, c, case_sensitive)
}

/// Position `a` comes before position `b` in reading order.
pub open spec fn pos_lt(a: MatchPos, b: MatchPos) -> bool {
    a.line < b.line || (a.line == b.line && a.col < b.col)
}

/// `m` lists every match of `pat` in `lines`, each once, in reading order.
pub open spec fn is_match_list(m: Seq<MatchPos>, lines: Seq<Seq<char>>, pat: Seq<char>, case_sensitive: bool) -> bool {
    &&& forall|i: int, j: int| 0 <= i < j < m.len() ==> pos_lt(#[trigger] m[i], #[trigger] m[j])
    &&& forall|k: int| 0 <= k < m.len() ==> is_match(lines, pat, case_sensitive, #[trigger] m[k].line as int, m[k].col as int)
    &&& forall|l: int, c: int| #[trigger] is_match(lines, pat, case_sensitive, l, c) ==>
        exists|k: int| 0 <= k < m.len() && m[k].line == l && #[trigger] m[k].col == c
}

/// Whether `a` and `b` are the same character for a search.
pub fn same_char_exec(a: char, b: char, case_sensitive: bool) -> (r: bool)
    ensures
        r == same_char(a, b, case_sensitive),
{
    if case_sensitive {
        a == b
    } else {
        let x = a as u32;
        let y = b as u32;
        let fx: u32 = if 65 <= x && x <= 90 { x + 32 } else { x };
        let fy: u32 = if 65 <= y && y <= 90 { y + 32 } else { y };
        fx == fy
    }
}

/// Whether the non-empty `pat` occurs in `line` at column `col`.
pub fn matches_at_exec(line: &Vec<char>, pat: &Vec<char>, col: usize, case_sensitive: bool) -> (r: bool)
    ensures
        r == matches_at(line@, pat@, col as int, case_sensitive),
{
    if pat.len() == 0 || col > line.len() || line.len() - col < pat.len() {
        return false;
    }
    let mut j: usize = 0;
    while j < pat.len()
        invariant
            j <= pat@.len(),
            col + pat@.len() <= line.len(),
            forall|t: int| 0 <= t < j ==> same_char(#[trigger] line@[col + t], pat@[t], case_sensitive),
        decreases pat@.len() - j,
    {
        if !same_char_exec(line[col + j], pat[j], case_sensitive) {
            return false;
        }
        j = j + 1;
    }
    true
}

/// Every match of `pat` in `lines`, in reading order; none for an empty
/// pattern. Patterns are literal. Where case is ignored, only ASCII letters
/// are folded.
pub fn compute_matches(lines: &Vec<Vec<char>>, pat: &Vec<char>, case_sensitive: bool) -> (r: Vec<MatchPos>)
    ensures
        is_match_list(r@, lines@.map_values(|l: Vec<char>| l@), pat@, case_sensitive),
{
    let ghost ls = lines@.map_values(|l: Vec<char>| l@);
    let mut r: Vec<MatchPos> = Vec::new();
    let mut l: usize = 0;
    while l < lines.len()
        invariant
            l <= lines@.len(),
            ls == lines@.map_values(|l: Vec<char>| l@),
            forall|i: int, j: int| 0 <= i < j < r@.len() ==> pos_lt(#[trigger] r@[i], #[trigger] r@[j]),
            forall|k: int| 0 <= k < r@.len() ==> is_match(ls, pat@, case_sensitive, #[trigger] r@[k].line as int, r@[k].col as int),
            forall|k: int| 0 <= k < r@.len() ==> (#[trigger] r@[k]).line < l,
            forall|a: int, c: int| #[trigger] is_match(ls, pat@, case_sensitive, a, c) && a < l ==>
                exists|k: int| 0 <= k < r@.len() && r@[k].line == a && #[trigger] r@[k].col == c,
        decreases lines@.len() - l,
    {
        let line = &lines[l];
        let mut c: usize = 0;
        while c < line.len()
            invariant
                l < lines@.len(),
                c <= line@.len(),
                *line == lines@[l as int],
                ls == lines@.map_values(|l: Vec<char>| l@),
                forall|i: int, j: int| 0 <= i < j < r@.len() ==> pos_lt(#[trigger] r@[i], #[trigger] r@[j]),
                forall|k: int| 0 <= k < r@.len() ==> is_match(ls, pat@, case_sensitive, #[trigger] r@[k].line as int, r@[k].col as int),
                forall|k: int| 0 <= k < r@.len() ==> pos_lt(#[trigger] r@[k], MatchPos { line: l, col: c }),
                forall|a: int, b: int| #[trigger] is_match(ls, pat@, case_sensitive, a, b) && (a < l || (a == l && b < c)) ==>
                    exists|k: int| 0 <= k < r@.len() && r@[k].line == a && #[trigger] r@[k].col == b,
            decreases line@.len() - c,
        {
            let hit = matches_at_exec(line, pat, c, case_sensitive);
            let ghost old_r = r@;
            if hit {
                r.push(MatchPos { line: l, col: c });
                assert forall|a: int, b: int| #[trigger] is_match(ls, pat@, case_sensitive, a, b) && (a < l || (a == l && b < c + 1)) implies
                    exists|k: int| 0 <= k < r@.len() && r@[k].line == a && #[trigger] r@[k].col == b by {
                    if a == l && b == c {
                        assert(r@[old_r.len() as int] == MatchPos { line: l, col: c });
                        assert(r@[old_r.len() as int].col == b);
                    } else {
                        let k = choose|k: int| 0 <= k < old_r.len() && old_r[k].line == a && #[trigger] old_r[k].col == b;
                        assert(r@[k] == old_r[k]);
                    }
                }
            } else {
                assert forall|a: int, b: int| #[trigger] is_match(ls, pat@, case_sensitive, a, b) && (a < l || (a == l && b < c + 1)) implies
                    exists|k: int| 0 <= k < r@.len() && r@[k].line == a && #[trigger] r@[k].col == b by {
                    if a == l && b == c {
                        assert(ls[a] == line@);
                    }
                }
            }
            c = c + 1;
        }
        assert forall|a: int, b: int| #[trigger] is_match(ls, pat@, case_sensitive, a, b) && a < l + 1 implies
            exists|k: int| 0 <= k < r@.len() && r@[k].line == a && #[trigger] r@[k].col == b by {
            if a == l {
                assert(ls[a] == line@);
                assert(b < c);
            }
        }
        l = l + 1;
    }
    r
}

/// The match after `current`, cyclically; the first where none is selected
/// (or the selection is out of range); none where there are no matches.
pub open spec fn next_index(n: nat, current: Option<usize>) -> Option<usize> {
    if n == 0 {
        None
    } else {
        match current {
            Some(i) => if i + 1 < n { Some((i + 1) as usize) } else { Some(0usize) },
            None => Some(0usize),
        }
    }
}

/// The match before `current`, cyclically; the last where none is selected
/// (or the selection is out of range); none where there are no matches.
pub open spec fn previous_index(n: nat, current: Option<usize>) -> Option<usize> {
    if n == 0 {
        None
    } else {
        match current {
            Some(i) => if 0 < i && i < n { Some((i - 1) as usize) } else { Some((n - 1) as usize) },
            None => Some((n - 1) as usize),
        }
    }
}

/// The index of the match that follows `current`, wrapping from the last to
/// the first.
pub fn select_next(matches: &Vec<MatchPos>, current: Option<usize>) -> (r: Option<usize>)
    ensures
        r == next_index(matches@.len(), current),
        r matches Some(i) ==> i < matches@.len(),
{
    let n = matches.len();
    if n == 0 {
        return None;
    }
    match current {
        Some(i) => if i < n - 1 { Some(i + 1) } else { Some(0) },
        None => Some(0),
    }
}

/// The index of the match that precedes `current`, wrapping from the first to
/// the last.
pub fn select_previous(matches: &Vec<MatchPos>, current: Option<usize>) -> (r: Option<usize>)
    ensures
        r == previous_index(matches@.len(), current),
        r matches Some(i) ==> i < matches@.len(),
{
    let n = matches.len();
    if n == 0 {
        return None;
    }
    match current {
        Some(i) => if 0 < i && i < n { Some(i - 1) } else { Some(n - 1) },
        None => Some(n - 1),
    }
}

/// Moving to the next match and then to the previous one, or the other way
/// round, comes back to the selected match; with no matches both give none.
pub proof fn lemma_next_previous_round_trip(n: nat, i: usize)
    requires
        n <= usize::MAX,
    ensures
        i < n ==> previous_index(n, next_index(n, Some(i))) == Some(i),
        i < n ==> next_index(n, previous_index(n, Some(i))) == Some(i),
        n == 0 ==> next_index(n, Some(i)) is None && previous_index(n, Some(i)) is None,
        n == 0 ==> next_index(n, None) is None && previous_index(n, None) is None,
{
}

} // verus!
