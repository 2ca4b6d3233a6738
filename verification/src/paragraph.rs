//! Scroll state of the description paragraph: a scroll position clamped
//! against the text height, stepped by line or by page.

use vstd::prelude::*;

verus! {

/// A two-dimensional scroll offset.
#[derive(Clone, Copy, PartialEq, Eq, Structural, Debug)]
pub struct ScrollPos {
    pub x: u16,
    pub y: u16,
}

impl ScrollPos {
    pub fn new(x: u16, y: u16) -> (r: Self)
        ensures
            r.x == x,
            r.y == y,
    {
        ScrollPos { x, y }
    }
}

/// Ways the description view can be scrolled.
#[derive(Clone, Copy, PartialEq, Eq, Structural, Debug)]
pub enum ScrollSelection {
    Up,
    Down,
    Top,
    End,
    PageUp,
    PageDown,
    Unchanged,
}

/// Scroll state of a stateful paragraph: current offset, total line count
/// of the wrapped text, and height of the viewport.
#[derive(Clone, Copy, PartialEq, Eq, Structural, Debug)]
pub struct ParagraphState {
    scroll: ScrollPos,
    lines: u16,
    height: u16,
}

impl Default for ParagraphState {
    /// The state before any text was measured: no scroll, no lines, no
    /// viewport.
    fn default() -> (r: Self)
        ensures
            r.spec_scroll() == (ScrollPos { x: 0u16, y: 0u16 }),
            r.spec_lines() == 0,
            r.spec_height() == 0,
    {
        ParagraphState { scroll: ScrollPos { x: 0, y: 0 }, lines: 0, height: 0 }
    }
}

impl ParagraphState {
    pub closed spec fn spec_scroll(&self) -> ScrollPos {
        self.scroll
    }

    pub closed spec fn spec_lines(&self) -> u16 {
        self.lines
    }

    pub closed spec fn spec_height(&self) -> u16 {
        self.height
    }

    pub fn new(pos: ScrollPos, lines: u16, height: u16) -> (r: Self)
        ensures
            r.spec_scroll() == pos,
            r.spec_lines() == lines,
            r.spec_height() == height,
    {
        Self { scroll: pos, lines, height }
    }

    pub fn lines(self) -> (r: u16)
        ensures
            r == self.spec_lines(),
    {
        self.lines
    }

    pub fn height(self) -> (r: u16)
        ensures
            r == self.spec_height(),
    {
        self.height
    }

    pub fn scroll(self) -> (r: ScrollPos)
        ensures
            r == self.spec_scroll(),
    {
        self.scroll
    }

    pub fn set_scroll(&mut self, pos: ScrollPos)
        ensures
            final(self).spec_scroll() == pos,
            final(self).spec_lines() == old(self).spec_lines(),
            final(self).spec_height() == old(self).spec_height(),
    {
        self.scroll = pos;
    }

    /// The largest useful vertical offset: the wrapped line count less the
    /// space the viewport shows (its height inside the borders).
    pub open spec fn spec_max_scroll(&self) -> u16 {
        sat_sub_u16(self.spec_lines(), sat_sub_u16(self.spec_height(), 2))
    }

    /// The vertical offset one `nav` step away from the current state,
    /// before clamping.
    pub open spec fn spec_nav_target(&self, nav: ScrollSelection) -> u16 {
        let page = sat_sub_u16(self.spec_height(), 2);
        match nav {
            ScrollSelection::Up => sat_sub_u16(self.spec_scroll().y, 1),
            ScrollSelection::Down => sat_add_u16(self.spec_scroll().y, 1),
            ScrollSelection::Top => 0u16,
            ScrollSelection::End => self.spec_max_scroll(),
            ScrollSelection::PageUp => sat_sub_u16(self.spec_scroll().y, page),
            ScrollSelection::PageDown => sat_add_u16(self.spec_scroll().y, page),
            ScrollSelection::Unchanged => self.spec_scroll().y,
        }
    }
}

pub open spec fn sat_sub_u16(a: u16, b: u16) -> u16 {
    if a >= b {
        (a - b) as u16
    } else {
        0u16
    }
}

pub open spec fn sat_add_u16(a: u16, b: u16) -> u16 {
    if a + b <= u16::MAX {
        (a + b) as u16
    } else {
        u16::MAX
    }
}

} // verus!
