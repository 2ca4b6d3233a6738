//! The bounded selection cursor: an optional selected index kept inside an
//! exclusive upper boundary, with either wrapping or clamped stepping. One
//! generic state backs the task list, the fuzzy result list and the other
//! list-like widgets.

use vstd::prelude::*;

verus! {

/// Wrap policy for a `BoundedState`: `Enable` steps wrap around the ends of
/// the range, `Disable` clamps at the ends.
#[derive(Clone, Copy, PartialEq, Eq, Structural, Debug)]
pub enum StateWrap {
    Enable,
    Disable,
}

/// Returned by `select` when the requested index lies outside the boundary.
#[derive(Clone, Copy, PartialEq, Eq, Structural, Debug)]
pub struct OutOfBounds;

/// A selection within the bounded range `0..upper`.
///
/// The selection, when present, always lies strictly below the boundary;
/// selecting into an empty boundary yields no selection, never index `0`.
#[derive(Clone, Copy, Debug)]
pub struct BoundedState {
    selected: Option<usize>,
    upper: usize,
    wrap: bool,
}

impl BoundedState {
    /// The current selection.
    pub closed spec fn selection(&self) -> Option<usize> {
        self.selected
    }

    /// The exclusive upper boundary: the backing collection's length.
    pub closed spec fn boundary(&self) -> usize {
        self.upper
    }

    /// Whether stepping wraps around the ends of the range.
    pub closed spec fn wraps(&self) -> bool {
        self.wrap
    }

    /// The selection is either absent or strictly below the boundary.
    pub open spec fn wf(&self) -> bool {
        match self.selection() {
            Some(i) => i < self.boundary(),
            None => true,
        }
    }

    /// Where one forward step from the current state lands.
    pub open spec fn step_forward(&self) -> Option<usize> {
        if self.boundary() == 0 {
            None
        } else {
            match self.selection() {
                None => Some(0usize),
                Some(i) => if i + 1 < self.boundary() {
                    Some((i + 1) as usize)
                } else if self.wraps() {
                    Some(0usize)
                } else {
                    Some(i)
                },
            }
        }
    }

    /// Where one backward step from the current state lands.
    pub open spec fn step_backward(&self) -> Option<usize> {
        if self.boundary() == 0 {
            None
        } else {
            match self.selection() {
                None => Some(0usize),
                Some(i) => if i == 0 {
                    if self.wraps() {
                        Some((self.boundary() - 1) as usize)
                    } else {
                        Some(0usize)
                    }
                } else {
                    Some((i - 1) as usize)
                },
            }
        }
    }

    /// The selection after the boundary changes to `new_len`: cleared when
    /// the range becomes empty, clamped to the last index when it shrank
    /// past the selection, kept otherwise.
    pub open spec fn clamped_to(&self, new_len: usize) -> Option<usize> {
        if new_len == 0 {
            None
        } else {
            match self.selection() {
                None => None,
                Some(i) => if i < new_len {
                    Some(i)
                } else {
                    Some((new_len - 1) as usize)
                },
            }
        }
    }

    pub fn new(upper: usize, wrap: StateWrap) -> (r: Self)
        ensures
            r.wf(),
            r.selection() is None,
            r.boundary() == upper,
            r.wraps() == (wrap == StateWrap::Enable),
    {
        BoundedState { selected: None, upper, wrap: matches!(wrap, StateWrap::Enable) }
    }

    /// The current selection, as a value.
    pub fn selected(&self) -> (r: Option<usize>)
        ensures
            r == self.selection(),
    {
        self.selected
    }

    pub fn has_selection(&self) -> (r: bool)
        ensures
            r == (self.selection() is Some),
    {
        self.selected.is_some()
    }

    /// Selects `i`, or reports `OutOfBounds` and leaves the state unchanged
    /// when `i` does not lie below the boundary.
    pub fn select(&mut self, i: usize) -> (r: Result<(), OutOfBounds>)
        requires
            old(self).wf(),
        ensures
            final(self).wf(),
            final(self).boundary() == old(self).boundary(),
            final(self).wraps() == old(self).wraps(),
            i < old(self).boundary() ==> r is Ok && final(self).selection() == Some(i),
            i >= old(self).boundary() ==> r is Err && final(self).selection() == old(self).selection(),
    {
        if i < self.upper {
            self.selected = Some(i);
            Ok(())
        } else {
            Err(OutOfBounds)
        }
    }

    pub fn deselect(&mut self)
        ensures
            final(self).wf(),
            final(self).boundary() == old(self).boundary(),
            final(self).wraps() == old(self).wraps(),
            final(self).selection() is None,
    {
        self.selected = None;
    }

    /// Selects index 0 when the boundary is not empty; an empty boundary
    /// leaves the state untouched.
    pub fn first(&mut self)
        requires
            old(self).wf(),
        ensures
            final(self).wf(),
            final(self).boundary() == old(self).boundary(),
            final(self).wraps() == old(self).wraps(),
            old(self).boundary() > 0 ==> final(self).selection() == Some(0usize),
            old(self).boundary() == 0 ==> final(self).selection() == old(self).selection(),
    {
        if self.upper > 0 {
            self.selected = Some(0);
        }
    }

    /// Moves the selection one step forward, wrapping past the end or
    /// clamping there, per the wrap policy.
    pub fn next(&mut self)
        requires
            old(self).wf(),
        ensures
            final(self).wf(),
            final(self).boundary() == old(self).boundary(),
            final(self).wraps() == old(self).wraps(),
            final(self).selection() == old(self).step_forward(),
    {
        if self.upper == 0 {
            return;
        }
        match self.selected {
            None => {
                self.selected = Some(0);
            },
            Some(i) => {
                if i + 1 < self.upper {
                    self.selected = Some(i + 1);
                } else if self.wrap {
                    self.selected = Some(0);
                }
            },
        }
    }

    /// Moves the selection one step backward, wrapping before the start or
    /// clamping there, per the wrap policy.
    pub fn prev(&mut self)
        requires
            old(self).wf(),
        ensures
            final(self).wf(),
            final(self).boundary() == old(self).boundary(),
            final(self).wraps() == old(self).wraps(),
            final(self).selection() == old(self).step_backward(),
    {
        if self.upper == 0 {
            return;
        }
        match self.selected {
            None => {
                self.selected = Some(0);
            },
            Some(i) => {
                if i == 0 {
                    if self.wrap {
                        self.selected = Some(self.upper - 1);
                    }
                } else {
                    self.selected = Some(i - 1);
                }
            },
        }
    }

    /// Re-bounds the cursor after the backing collection changed length:
    /// the selection is cleared when the range became empty and clamped
    /// when it shrank past the selection.
    pub fn update_boundary(&mut self, new_len: usize)
        ensures
            final(self).wf(),
            final(self).boundary() == new_len,
            final(self).wraps() == old(self).wraps(),
            final(self).selection() == old(self).clamped_to(new_len),
    {
        self.upper = new_len;
        if new_len == 0 {
            self.selected = None;
        } else if let Some(i) = self.selected {
            if i >= new_len {
                self.selected = Some(new_len - 1);
            }
        }
    }

    /// Grows the boundary to `i + 1` and selects `i`: used right after an
    /// element is appended at index `i`.
    pub fn update_upper_and_select(&mut self, i: usize)
        requires
            i < usize::MAX,
        ensures
            final(self).wf(),
            final(self).boundary() == i + 1,
            final(self).wraps() == old(self).wraps(),
            final(self).selection() == Some(i),
    {
        self.upper = i + 1;
        self.selected = Some(i);
    }
}

} // verus!
