use vstd::prelude::*;

use crate::{LineNumbers, Pager};

verus! {

/// The decimal digit for `d` (below ten).
pub open spec fn digit(d: nat) -> char {
    ((d + 48) as u8) as char
}

/// The decimal representation of `n`, without leading zeros.
pub open spec fn decimal(n: nat) -> Seq<char>
    decreases n,
{
    if n < 10 {
        seq![digit(n)]
    } else {
        decimal(n / 10).push(digit(n % 10))
    }
}

/// Appends the decimal representation of `n` to `out`.
pub fn push_decimal(n: usize, out: &mut Vec<char>)
    ensures
        final(out)@ == old(out)@ + decimal(n as nat),
    decreases n,
{
    let d: u8 = (n % 10) as u8;
    if n >= 10 {
        push_decimal(n / 10, out);
    }
    out.push((d + 48) as char);
    proof {
        assert(n as nat % 10 == d as nat);
    }
}

/// Line `i` as drawn in mode `ln`: prefixed with its index and a space where
/// numbering is enabled.
pub open spec fn rendered(line: Seq<char>, i: nat, ln: LineNumbers) -> Seq<char> {
    match ln {
        LineNumbers::Disabled => line,
        LineNumbers::Enabled => decimal(i) + seq![' '] + line,
    }
}

impl Pager {
    /// Line `i` as it is drawn.
    pub fn render_line(&self, i: usize) -> (r: Vec<char>)
        requires
            i < self.total(),
        ensures
            r@ == rendered(self.line_seq()[i as int], i as nat, self.numbering()),
    {
        let line = self.line(i);
        match self.line_numbers() {
            LineNumbers::Disabled => line.clone(),
            LineNumbers::Enabled => {
                let mut out: Vec<char> = Vec::new();
                push_decimal(i, &mut out);
                out.push(' ');
                let mut k: usize = 0;
                while k < line.len()
                    invariant
                        k <= line@.len(),
                        out@ == decimal(i as nat) + seq![' '] + line@.take(k as int),
                    decreases line@.len() - k,
                {
                    out.push(line[k]);
                    k = k + 1;
                    assert(out@ =~= decimal(i as nat) + seq![' '] + line@.take(k as int));
                }
                assert(line@.take(line@.len() as int) =~= line@);
                out
            },
        }
    }
}

} // verus!
