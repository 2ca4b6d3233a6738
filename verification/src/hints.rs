//! Key hints: the short `name [bind]` labels a mode shows along the bottom
//! of the screen, and the height the wrapped row of labels needs.

use vstd::prelude::*;
use vstd::string::StrSliceExecFns;

verus! {

/// Which hint bar a mode shows.
#[derive(Clone, Copy, PartialEq, Eq, Structural, Debug)]
pub enum BarType {
    Normal,
    Edit,
    Move,
    Find,
    DueDate,
}

/// One key hint: an action name and the key it is bound to.
#[derive(Clone, Debug)]
pub struct Hint {
    pub name: String,
    pub bind: String,
}

/// Width in characters of a rendered hint: the action name, a space, and
/// the key in brackets.
pub open spec fn spec_hint_len(h: Hint) -> int {
    h.name@.len() + h.bind@.len() + 3int
}

impl Hint {
    pub fn new(name: String, bind: String) -> (r: Self)
        ensures
            r.name == name,
            r.bind == bind,
    {
        Hint { name, bind }
    }

    /// Characters the hint occupies when shown as `name [bind]`.
    pub fn len(&self) -> (r: usize)
        requires
            spec_hint_len(*self) <= usize::MAX,
        ensures
            r == spec_hint_len(*self),
    {
        self.name.as_str().unicode_len() + self.bind.as_str().unicode_len() + 3
    }
}

/// The hint labels one mode shows.
#[derive(Clone, Debug)]
pub struct HintBar {
    pub hints: Vec<Hint>,
}

/// The row the layout is on after placing the hints from `i` on, starting
/// from column `x` on row `y`: a hint that does not fit moves to the next
/// row, and the layout stops growing at `height` rows.
pub open spec fn spec_rows_used(
    hints: Seq<Hint>,
    i: int,
    x: int,
    y: int,
    width: int,
    height: int,
) -> int
    decreases hints.len() - i,
{
    if i < 0 || i >= hints.len() || y == height {
        y
    } else {
        let hl = if spec_hint_len(hints[i]) <= u16::MAX {
            spec_hint_len(hints[i])
        } else {
            u16::MAX as int
        };
        if x + hl + 1 > width {
            spec_rows_used(hints, i + 1, 0, if y + 1 <= u16::MAX { y + 1 } else { y }, width, height)
        } else {
            spec_rows_used(hints, i + 1, x + hl + 1, y, width, height)
        }
    }
}

impl HintBar {
    pub fn new(hints: Vec<Hint>) -> (r: Self)
        ensures
            r.hints == hints,
    {
        HintBar { hints }
    }

    /// How many rows the bar needs in a frame `width` columns wide, capped
    /// at `height` rows.
    pub fn height_required(&self, width: u16, height: u16) -> (r: u16)
        ensures
            r == spec_rows_used(self.hints@, 0, 0, 1, width as int, height as int),
    {
        let mut x: u16 = 0;
        let mut y: u16 = 1;
        let mut i: usize = 0;
        let n = self.hints.len();
        while i < n && y != height
            invariant
                i <= n,
                n == self.hints@.len(),
                spec_rows_used(self.hints@, 0, 0, 1, width as int, height as int)
                    == spec_rows_used(self.hints@, i as int, x as int, y as int, width as int, height as int),
            decreases n - i,
        {
            let l = self.hints[i].len_capped();
            if x as u32 + l as u32 + 1 > width as u32 {
                x = 0;
                y = if y < u16::MAX {
                    y + 1
                } else {
                    y
                };
            } else {
                x = (x as u32 + l as u32 + 1) as u16;
            }
            i = i + 1;
        }
        y
    }
}

impl Hint {
    /// The hint's width, capped so it fits a `u16` cell count.
    pub fn len_capped(&self) -> (r: u16)
        ensures
            r as int == if spec_hint_len(*self) <= u16::MAX {
                spec_hint_len(*self)
            } else {
                u16::MAX as int
            },
    {
        let nl = self.name.as_str().unicode_len();
        let bl = self.bind.as_str().unicode_len();
        if nl >= u16::MAX as usize {
            return u16::MAX;
        }
        if bl >= u16::MAX as usize {
            return u16::MAX;
        }
        let total = nl as u64 + bl as u64 + 3;
        if total > u16::MAX as u64 {
            u16::MAX
        } else {
            total as u16
        }
    }
}

} // verus!
