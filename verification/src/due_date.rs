//! The due-date picker: a calendar grid and a time picker, one of which
//! has focus. The picked moment is handed back to the editor as a plain
//! date-and-time value.

use vstd::prelude::*;

use crate::calendar::{spec_month_index, Calendar, CalendarState, MONTH_COUNT};
use crate::channel::{send_msg, SendFailed};
use crate::datetime::{local_now, DateTime};
use crate::notify::FlashMsg;
use crate::timepicker::TimePickerState;

verus! {

/// Which of the two widgets takes the next key.
#[derive(Clone, Copy, PartialEq, Eq, Structural, Debug)]
pub enum DueDateWidgetHasFocus {
    Cal,
    Time,
}

/// The due-date picking surface.
pub struct DueDateComponent {
    pub calendar: Calendar,
    pub calendar_state: CalendarState,
    pub time_picker_state: TimePickerState,
    pub focused_widget: DueDateWidgetHasFocus,
    pub flash_tx: kanal::Sender<FlashMsg>,
}

impl DueDateComponent {
    /// The grid selection always points at a real day of a month in the
    /// window, and the time picker holds a real time.
    pub open spec fn wf(&self) -> bool {
        &&& self.calendar.wf()
        &&& self.calendar_state.wf()
        &&& self.calendar_state.selected_month < self.calendar.months@.len()
        &&& self.calendar_state.num_days == self.calendar.months@[
            self.calendar_state.selected_month as int
        ].days
        &&& self.time_picker_state.wf()
    }

    /// The moment the two widgets currently point at.
    pub open spec fn spec_picked(&self) -> DateTime {
        DateTime {
            year: self.calendar.months@[self.calendar_state.selected_month as int].year,
            month: self.calendar.months@[self.calendar_state.selected_month as int].num,
            day: self.calendar_state.selected_day as u32,
            hour: self.time_picker_state.hour_state as u32,
            minute: self.time_picker_state.minute_state as u32,
        }
    }

    /// How `set_date_time(dt)` relates the state before to the state
    /// after: the time picker follows a real moment whose month is in the
    /// window; the grid follows when the day also fits that month, and
    /// otherwise stays.
    pub open spec fn spec_set_date_time_rel(
        pre: DueDateComponent,
        post: DueDateComponent,
        dt: DateTime,
    ) -> bool {
        &&& post.calendar == pre.calendar
        &&& post.flash_tx == pre.flash_tx
        &&& post.focused_widget == pre.focused_widget
        &&& !dt.wf() ==> post.calendar_state == pre.calendar_state && post.time_picker_state
            == pre.time_picker_state
        &&& dt.wf() ==> match spec_month_index(pre.calendar.months@, dt.month as int, 0) {
            Some(i) => {
                &&& post.time_picker_state == TimePickerState::spec_with_hm(dt.hour, dt.minute)
                &&& dt.day <= pre.calendar.months@[i].days ==> post.calendar_state
                    == (CalendarState {
                    selected_month: i as usize,
                    num_months: MONTH_COUNT,
                    selected_day: dt.day as usize,
                    num_days: pre.calendar.months@[i].days as usize,
                })
                &&& dt.day > pre.calendar.months@[i].days ==> post.calendar_state
                    == pre.calendar_state
            },
            None => post.calendar_state == pre.calendar_state && post.time_picker_state
                == pre.time_picker_state,
        }
    }

    /// How one key relates the state before to the state after, and to
    /// the produced intent. Stepping keys act on the focused widget and
    /// always succeed with no intent; Back and Submit reset the pickers
    /// to today and hand the controller an intent.
    pub open spec fn spec_handle_rel(
        pre: DueDateComponent,
        post: DueDateComponent,
        action: crate::app::KeyAction,
        r: Result<crate::app::AppMessage, SendFailed>,
    ) -> bool {
        &&& post.calendar == pre.calendar
        &&& post.flash_tx == pre.flash_tx
        &&& match action {
            crate::app::KeyAction::Back => {
                &&& post.focused_widget == pre.focused_widget
                &&& post.calendar_state.selected_month == pre.calendar_state.selected_month
                &&& post.calendar_state.num_days == pre.calendar_state.num_days
                &&& (r matches Ok(m) ==> m matches crate::app::AppMessage::InputState(s) && s
                    == crate::app::AppState::AddTodo)
            },
            crate::app::KeyAction::Submit => {
                &&& post.focused_widget == pre.focused_widget
                &&& post.calendar_state.selected_month == pre.calendar_state.selected_month
                &&& post.calendar_state.num_days == pre.calendar_state.num_days
                &&& (r matches Ok(m) ==> m matches crate::app::AppMessage::SetDueDate(dt) && dt
                    == pre.spec_picked() && dt.wf())
            },
            crate::app::KeyAction::AltMoveDown => {
                &&& post == (DueDateComponent {
                    focused_widget: if pre.focused_widget == DueDateWidgetHasFocus::Cal {
                        DueDateWidgetHasFocus::Time
                    } else {
                        DueDateWidgetHasFocus::Cal
                    },
                    ..pre
                })
                &&& r == Ok::<crate::app::AppMessage, SendFailed>(crate::app::AppMessage::NoAction)
            },
            crate::app::KeyAction::MoveUp => {
                &&& if pre.focused_widget == DueDateWidgetHasFocus::Cal {
                    post == (DueDateComponent { calendar_state: pre.calendar_state.spec_up(), ..pre })
                } else {
                    post == (DueDateComponent {
                        time_picker_state: pre.time_picker_state.spec_prev(),
                        ..pre
                    })
                }
                &&& r == Ok::<crate::app::AppMessage, SendFailed>(crate::app::AppMessage::NoAction)
            },
            crate::app::KeyAction::MoveDown => {
                &&& if pre.focused_widget == DueDateWidgetHasFocus::Cal {
                    post == (DueDateComponent {
                        calendar_state: pre.calendar_state.spec_down(),
                        ..pre
                    })
                } else {
                    post == (DueDateComponent {
                        time_picker_state: pre.time_picker_state.spec_next(),
                        ..pre
                    })
                }
                &&& r == Ok::<crate::app::AppMessage, SendFailed>(crate::app::AppMessage::NoAction)
            },
            crate::app::KeyAction::MoveLeft => {
                &&& if pre.focused_widget == DueDateWidgetHasFocus::Cal {
                    post == (DueDateComponent {
                        calendar_state: pre.calendar_state.spec_left(),
                        ..pre
                    })
                } else {
                    post == (DueDateComponent {
                        time_picker_state: pre.time_picker_state.spec_toggle_focus(),
                        ..pre
                    })
                }
                &&& r == Ok::<crate::app::AppMessage, SendFailed>(crate::app::AppMessage::NoAction)
            },
            crate::app::KeyAction::MoveRight => {
                &&& if pre.focused_widget == DueDateWidgetHasFocus::Cal {
                    post == (DueDateComponent {
                        calendar_state: pre.calendar_state.spec_right(),
                        ..pre
                    })
                } else {
                    post == (DueDateComponent {
                        time_picker_state: pre.time_picker_state.spec_toggle_focus(),
                        ..pre
                    })
                }
                &&& r == Ok::<crate::app::AppMessage, SendFailed>(crate::app::AppMessage::NoAction)
            },
            crate::app::KeyAction::AltMoveLeft => {
                &&& if pre.focused_widget == DueDateWidgetHasFocus::Cal {
                    post == (DueDateComponent {
                        calendar_state: pre.spec_paged(pre.calendar_state.spec_prev_month()),
                        ..pre
                    })
                } else {
                    post == pre
                }
                &&& r == Ok::<crate::app::AppMessage, SendFailed>(crate::app::AppMessage::NoAction)
            },
            crate::app::KeyAction::AltMoveRight => {
                &&& if pre.focused_widget == DueDateWidgetHasFocus::Cal {
                    post == (DueDateComponent {
                        calendar_state: pre.spec_paged(pre.calendar_state.spec_next_month()),
                        ..pre
                    })
                } else {
                    post == pre
                }
                &&& r == Ok::<crate::app::AppMessage, SendFailed>(crate::app::AppMessage::NoAction)
            },
            _ => post == pre && r == Ok::<crate::app::AppMessage, SendFailed>(
                crate::app::AppMessage::NoAction,
            ),
        }
    }

    /// A month page-turn lands on `paged`, re-bounded to that month's
    /// length.
    pub open spec fn spec_paged(&self, paged: CalendarState) -> CalendarState {
        paged.spec_set_num_days(self.calendar.months@[paged.selected_month as int].days as usize)
    }

    /// Opens the picker on today's date and the current time.
    pub fn new(flash_tx: kanal::Sender<FlashMsg>) -> (r: Self)
        ensures
            r.wf(),
            r.focused_widget == DueDateWidgetHasFocus::Cal,
    {
        let now = local_now();
        let calendar = Calendar::from_start(now.year, now.month);
        let num_days = calendar.months[0].num_days();
        let calendar_state = CalendarState::new(now.day as usize, num_days);
        DueDateComponent {
            calendar,
            calendar_state,
            time_picker_state: TimePickerState::with_current_time(),
            focused_widget: DueDateWidgetHasFocus::Cal,
            flash_tx,
        }
    }

    /// The moment the two widgets point at.
    pub fn get_date_time(&self) -> (r: DateTime)
        requires
            self.wf(),
        ensures
            r.wf(),
            r == self.spec_picked(),
    {
        let month_index = self.calendar_state.selected_month();
        let month = &self.calendar.months[month_index];
        let (y, mo) = month.ym();
        let d = self.calendar_state.selected_day();
        let (h, mi) = self.time_picker_state.hour_minute();
        DateTime { year: y, month: mo, day: d, hour: h, minute: mi }
    }

    /// Moves the pickers onto `dt`: the time always follows; the grid
    /// follows when `dt` is a real moment whose month is in the window
    /// and whose day fits that month, and an unfit day is reported as a
    /// flash message instead.
    pub fn set_date_time(&mut self, dt: DateTime) -> (r: Result<(), SendFailed>)
        requires
            old(self).wf(),
        ensures
            final(self).wf(),
            Self::spec_set_date_time_rel(*old(self), *final(self), dt),
    {
        if !dt.check() {
            return Ok(());
        }
        if let Some((i, m)) = self.calendar.get_month_and_index_by_num(dt.month as usize) {
            let num_days = m.num_days();
            self.time_picker_state = TimePickerState::with_hm(dt.hour, dt.minute);
            match CalendarState::with_date(i, dt.day as usize, num_days) {
                Ok(state) => {
                    self.calendar_state = state;
                },
                Err(e) => {
                    if !send_msg(&self.flash_tx, FlashMsg::err(e)) {
                        return Err(SendFailed);
                    }
                },
            }
        }
        Ok(())
    }

    /// One key while the picker owns input: grid or time stepping per the
    /// focused widget, focus swapping, month paging, cancelling back to
    /// the editor, or submitting the picked moment. The editor intent
    /// names AddTodo; the controller routes it on to whichever editor
    /// surface the picker was opened from.
    pub fn handle_input(&mut self, action: crate::app::KeyAction) -> (r: Result<
        crate::app::AppMessage,
        SendFailed,
    >)
        requires
            old(self).wf(),
        ensures
            final(self).wf(),
            Self::spec_handle_rel(*old(self), *final(self), action, r),
    {
        match action {
            crate::app::KeyAction::Back => {
                self.reset_date_time()?;
                return Ok(crate::app::AppMessage::InputState(crate::app::AppState::AddTodo));
            },
            crate::app::KeyAction::Submit => {
                let date_time = self.get_date_time();
                self.reset_date_time()?;
                return Ok(crate::app::AppMessage::SetDueDate(date_time));
            },
            crate::app::KeyAction::AltMoveDown => {
                self.focused_widget = if matches!(self.focused_widget, DueDateWidgetHasFocus::Cal)
                 {
                    DueDateWidgetHasFocus::Time
                } else {
                    DueDateWidgetHasFocus::Cal
                };
                return Ok(crate::app::AppMessage::NoAction);
            },
            _ => {},
        }
        match self.focused_widget {
            DueDateWidgetHasFocus::Cal => {
                match action {
                    crate::app::KeyAction::MoveUp => {
                        self.calendar_state.up();
                    },
                    crate::app::KeyAction::MoveDown => {
                        self.calendar_state.down();
                    },
                    crate::app::KeyAction::MoveLeft => {
                        self.calendar_state.left();
                    },
                    crate::app::KeyAction::MoveRight => {
                        self.calendar_state.right();
                    },
                    crate::app::KeyAction::AltMoveLeft => {
                        self.calendar_state.prev_month();
                        let i = self.calendar_state.selected_month();
                        let nd = self.calendar.months[i].num_days();
                        self.calendar_state.set_num_days(nd);
                    },
                    crate::app::KeyAction::AltMoveRight => {
                        self.calendar_state.next_month();
                        let i = self.calendar_state.selected_month();
                        let nd = self.calendar.months[i].num_days();
                        self.calendar_state.set_num_days(nd);
                    },
                    _ => {},
                }
            },
            DueDateWidgetHasFocus::Time => {
                match action {
                    crate::app::KeyAction::MoveUp => {
                        self.time_picker_state.prev();
                    },
                    crate::app::KeyAction::MoveDown => {
                        self.time_picker_state.next();
                    },
                    crate::app::KeyAction::MoveLeft | crate::app::KeyAction::MoveRight => {
                        self.time_picker_state.toggle_focus();
                    },
                    _ => {},
                }
            },
        }
        Ok(crate::app::AppMessage::NoAction)
    }

    /// Puts the pickers back on today and the current time; when today's
    /// day number does not fit the shown month, the grid stays and the
    /// failure is flashed.
    pub fn reset_date_time(&mut self) -> (r: Result<(), SendFailed>)
        requires
            old(self).wf(),
        ensures
            final(self).wf(),
            final(self).calendar == old(self).calendar,
            final(self).flash_tx == old(self).flash_tx,
            final(self).focused_widget == old(self).focused_widget,
            final(self).calendar_state.selected_month == old(self).calendar_state.selected_month,
            final(self).calendar_state.num_days == old(self).calendar_state.num_days,
    {
        let now = local_now();
        let today = self.calendar.months[0].default_day(now);
        if let Err(e) = self.calendar_state.set_date(today) {
            if !send_msg(&self.flash_tx, FlashMsg::err(e)) {
                return Err(SendFailed);
            }
        }
        self.time_picker_state = TimePickerState::with_current_time();
        Ok(())
    }
}

} // verus!
