use vstd::prelude::*;

verus! {

/// The largest scroll offset for `total` lines in a viewport of `rows` rows.
pub open spec fn max_offset(total: nat, rows: nat) -> nat {
    if total > rows {
        (total - rows) as nat
    } else {
        0
    }
}

/// `x` brought into `[0, max_offset(total, rows)]`.
pub open spec fn clamp_offset(x: int, total: nat, rows: nat) -> nat {
    if x < 0 {
        0
    } else if x > max_offset(total, rows) {
        max_offset(total, rows)
    } else {
        x as nat
    }
}

/// The offset that puts `line` in the middle of the viewport, as far as the
/// bounds allow.
pub open spec fn centered_offset(line: nat, total: nat, rows: nat) -> nat {
    clamp_offset(line - rows / 2, total, rows)
}

/// The largest scroll offset for `total` lines in `rows` rows.
pub fn max_offset_exec(total: usize, rows: usize) -> (r: usize)
    ensures
        r == max_offset(total as nat, rows as nat),
{
    if total > rows {
        total - rows
    } else {
        0
    }
}

/// `x` brought into the valid range of scroll offsets.
pub fn clamp_exec(x: usize, total: usize, rows: usize) -> (r: usize)
    ensures
        r == clamp_offset(x as int, total as nat, rows as nat),
{
    let m = max_offset_exec(total, rows);
    if x > m {
        m
    } else {
        x
    }
}

/// The offset that brings `line` into view, centred where the bounds allow.
pub fn center_on(line: usize, total: usize, rows: usize) -> (r: usize)
    ensures
        r == centered_offset(line as nat, total as nat, rows as nat),
        line < total && rows > 0 ==> r <= line < r + rows,
{
    let half = rows / 2;
    if line < half {
        0
    } else {
        clamp_exec(line - half, total, rows)
    }
}

/// The first and one past the last line shown from offset `offset`.
pub open spec fn window(offset: nat, total: nat, rows: nat) -> (nat, nat) {
    let end = if offset + rows < total { offset + rows } else { total };
    (if offset < end { offset } else { end }, end)
}

} // verus!
