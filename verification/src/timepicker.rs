//! The time picker: an hour and a minute field, one of which has focus;
//! stepping wraps the hour at 24 and the minute at 60, independently.

use vstd::prelude::*;

use crate::datetime::{local_now, DateTime};

verus! {

/// Which field of the picker takes the next step.
#[derive(Clone, Copy, PartialEq, Eq, Structural, Debug)]
pub enum PickerFocus {
    Hour,
    Minute,
}

/// The focus flag, toggled between the two fields.
#[derive(Clone, Copy, PartialEq, Eq, Structural, Debug)]
pub struct PickerFocusState(pub PickerFocus);

impl PickerFocusState {
    pub fn toggle(&mut self)
        ensures
            old(self).0 == PickerFocus::Hour ==> final(self).0 == PickerFocus::Minute,
            old(self).0 == PickerFocus::Minute ==> final(self).0 == PickerFocus::Hour,
    {
        if self.0 == PickerFocus::Hour {
            self.0 = PickerFocus::Minute;
        } else {
            self.0 = PickerFocus::Hour;
        }
    }
}

/// Selected hour and minute, with the focused field taking the steps.
#[derive(Clone, Copy, PartialEq, Eq, Structural, Debug)]
pub struct TimePickerState {
    pub hour_state: usize,
    pub minute_state: usize,
    pub focus_state: PickerFocusState,
}

impl TimePickerState {
    /// The hour is below 24 and the minute below 60.
    pub open spec fn wf(&self) -> bool {
        self.hour_state < 24 && self.minute_state < 60
    }

    /// The state holding the given hour and minute, hour field focused.
    pub open spec fn spec_with_hm(h: u32, m: u32) -> TimePickerState {
        TimePickerState {
            hour_state: h as usize,
            minute_state: m as usize,
            focus_state: PickerFocusState(PickerFocus::Hour),
        }
    }

    /// The state after the focus toggles.
    pub open spec fn spec_toggle_focus(self) -> TimePickerState {
        TimePickerState {
            focus_state: PickerFocusState(
                if self.focus_state.0 == PickerFocus::Hour {
                    PickerFocus::Minute
                } else {
                    PickerFocus::Hour
                },
            ),
            ..self
        }
    }

    /// The state after the focused field steps up by one, wrapping at 24
    /// hours or 60 minutes.
    pub open spec fn spec_next(self) -> TimePickerState {
        if self.focus_state.0 == PickerFocus::Hour {
            TimePickerState { hour_state: ((self.hour_state + 1) % 24) as usize, ..self }
        } else {
            TimePickerState { minute_state: ((self.minute_state + 1) % 60) as usize, ..self }
        }
    }

    /// The state after the focused field steps down by one, wrapping
    /// below zero to 23 hours or 59 minutes.
    pub open spec fn spec_prev(self) -> TimePickerState {
        if self.focus_state.0 == PickerFocus::Hour {
            TimePickerState {
                hour_state: if self.hour_state == 0 {
                    23usize
                } else {
                    (self.hour_state - 1) as usize
                },
                ..self
            }
        } else {
            TimePickerState {
                minute_state: if self.minute_state == 0 {
                    59usize
                } else {
                    (self.minute_state - 1) as usize
                },
                ..self
            }
        }
    }

    /// Starts from the current wall-clock time, hour field focused.
    pub fn with_current_time() -> (r: Self)
        ensures
            r.wf(),
            r.focus_state.0 == PickerFocus::Hour,
    {
        let now: DateTime = local_now();
        Self {
            hour_state: now.hour as usize,
            minute_state: now.minute as usize,
            focus_state: PickerFocusState(PickerFocus::Hour),
        }
    }

    /// Starts from the given hour and minute, hour field focused.
    pub fn with_hm(h: u32, m: u32) -> (r: Self)
        requires
            h < 24,
            m < 60,
        ensures
            r == Self::spec_with_hm(h, m),
            r.wf(),
            r.hour_state == h,
            r.minute_state == m,
            r.focus_state.0 == PickerFocus::Hour,
    {
        Self {
            hour_state: h as usize,
            minute_state: m as usize,
            focus_state: PickerFocusState(PickerFocus::Hour),
        }
    }

    pub fn toggle_focus(&mut self)
        ensures
            *final(self) == old(self).spec_toggle_focus(),
            final(self).hour_state == old(self).hour_state,
            final(self).minute_state == old(self).minute_state,
            old(self).focus_state.0 == PickerFocus::Hour ==> final(self).focus_state.0
                == PickerFocus::Minute,
            old(self).focus_state.0 == PickerFocus::Minute ==> final(self).focus_state.0
                == PickerFocus::Hour,
    {
        self.focus_state.toggle();
    }

    /// Steps the focused field up by one, wrapping at 24 hours or 60
    /// minutes.
    pub fn next(&mut self)
        requires
            old(self).wf(),
        ensures
            *final(self) == old(self).spec_next(),
            final(self).wf(),
            final(self).focus_state == old(self).focus_state,
            old(self).focus_state.0 == PickerFocus::Hour ==> final(self).minute_state == old(self).minute_state && final(self).hour_state == ((old(self).hour_state + 1) % 24),
            old(self).focus_state.0 == PickerFocus::Minute ==> final(self).hour_state == old(self).hour_state && final(self).minute_state == ((old(self).minute_state + 1) % 60),
    {
        match self.focus_state.0 {
            PickerFocus::Hour => {
                if self.hour_state + 1 > 23 {
                    self.hour_state = 0;
                } else {
                    self.hour_state = self.hour_state + 1;
                }
            },
            PickerFocus::Minute => {
                if self.minute_state + 1 > 59 {
                    self.minute_state = 0;
                } else {
                    self.minute_state = self.minute_state + 1;
                }
            },
        }
    }

    /// Steps the focused field down by one, wrapping below zero to 23
    /// hours or 59 minutes.
    pub fn prev(&mut self)
        requires
            old(self).wf(),
        ensures
            *final(self) == old(self).spec_prev(),
            final(self).wf(),
            final(self).focus_state == old(self).focus_state,
            old(self).focus_state.0 == PickerFocus::Hour ==> final(self).minute_state == old(self).minute_state && final(self).hour_state == if old(self).hour_state == 0 {
                23int
            } else {
                old(self).hour_state - 1
            },
            old(self).focus_state.0 == PickerFocus::Minute ==> final(self).hour_state == old(self).hour_state && final(self).minute_state == if old(self).minute_state == 0 {
                59int
            } else {
                old(self).minute_state - 1
            },
    {
        match self.focus_state.0 {
            PickerFocus::Hour => {
                if self.hour_state == 0 {
                    self.hour_state = 23;
                } else {
                    self.hour_state = self.hour_state - 1;
                }
            },
            PickerFocus::Minute => {
                if self.minute_state == 0 {
                    self.minute_state = 59;
                } else {
                    self.minute_state = self.minute_state - 1;
                }
            },
        }
    }

    pub fn hour_minute(&self) -> (r: (u32, u32))
        requires
            self.wf(),
        ensures
            r.0 == self.hour_state,
            r.1 == self.minute_state,
    {
        (self.hour_state as u32, self.minute_state as u32)
    }
}

} // verus!
