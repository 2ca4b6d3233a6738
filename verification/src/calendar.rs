//! The calendar: a window of consecutive months starting at the current
//! one, and the day-grid selection state. Month lengths follow the proved
//! Gregorian rule; the weekday a month opens on comes from chrono behind a
//! trusted wrapper.

use vstd::prelude::*;

use crate::datetime::{days_in_month, first_weekday_offset, spec_days_in_month, weekday_offset};

verus! {

/// How many consecutive months the calendar window holds.
pub const MONTH_COUNT: usize = 6;

/// One month of the window: its display name, 1-based number, year,
/// length in days, and how many leading day cells stay empty in the grid.
#[derive(Clone, Copy, Debug)]
pub struct Month {
    pub name: &'static str,
    pub num: u32,
    pub year: i32,
    pub days: u8,
    pub padding: u8,
}

/// The English name of month `m`, for `m` in `1..=12`.
pub fn month_name(m: u32) -> (r: &'static str)
    requires
        1 <= m <= 12,
{
    if m == 1 {
        "January"
    } else if m == 2 {
        "February"
    } else if m == 3 {
        "March"
    } else if m == 4 {
        "April"
    } else if m == 5 {
        "May"
    } else if m == 6 {
        "June"
    } else if m == 7 {
        "July"
    } else if m == 8 {
        "August"
    } else if m == 9 {
        "September"
    } else if m == 10 {
        "October"
    } else if m == 11 {
        "November"
    } else {
        "December"
    }
}

impl Month {
    /// The number is a real month, the length is its Gregorian day count,
    /// and the padding is the weekday offset of its first day.
    pub open spec fn wf(&self) -> bool {
        &&& 1 <= self.num <= 12
        &&& self.days == spec_days_in_month(self.year as int, self.num as int)
        &&& self.padding < 7
        &&& self.padding == weekday_offset(self.year as int, self.num as int)
    }

    /// Builds month `m` of year `y` with its proved length and its
    /// weekday padding.
    pub fn new(y: i32, m: u32) -> (r: Self)
        requires
            1 <= m <= 12,
        ensures
            r.wf(),
            r.year == y,
            r.num == m,
    {
        let days = days_in_month(y, m);
        let padding = first_weekday_offset(y, m);
        Month { name: month_name(m), num: m, year: y, days, padding }
    }

    /// The month's year and number.
    pub fn ym(&self) -> (r: (i32, u32))
        ensures
            r.0 == self.year,
            r.1 == self.num,
    {
        (self.year, self.num)
    }

    pub fn num_days(&self) -> (r: usize)
        ensures
            r == self.days,
    {
        self.days as usize
    }

    /// The day to preselect: today when this is the current month, else
    /// nothing (0). `now` is the current moment, handed in by the caller.
    pub fn default_day(&self, now: crate::datetime::DateTime) -> (r: usize)
        requires
            now.wf(),
        ensures
            r == if self.num == now.month {
                now.day as int
            } else {
                0int
            },
            r <= 31,
    {
        if self.num == now.month {
            now.day as usize
        } else {
            0
        }
    }
}

/// The year and month right after (`y`, `m`).
pub open spec fn spec_next_ym(y: int, m: int) -> (int, int) {
    if m == 12 {
        (y + 1, 1int)
    } else {
        (y, m + 1)
    }
}

/// The window index of the first month numbered `num`, searching from
/// position `i` on.
pub open spec fn spec_month_index(months: Seq<Month>, num: int, i: int) -> Option<int>
    decreases months.len() - i,
{
    if i < 0 || i >= months.len() {
        None
    } else if months[i].num == num {
        Some(i)
    } else {
        spec_month_index(months, num, i + 1)
    }
}

/// The window of consecutive months the due-date picker scrolls through.
#[derive(Clone, Debug)]
pub struct Calendar {
    pub months: Vec<Month>,
}

impl Calendar {
    /// A full window of well-formed, consecutive months.
    pub open spec fn wf(&self) -> bool {
        &&& self.months@.len() == MONTH_COUNT
        &&& forall|i: int| 0 <= i < self.months@.len() ==> (#[trigger] self.months@[i]).wf()
        &&& forall|i: int|
            0 <= i < self.months@.len() - 1 ==> ((#[trigger] self.months@[i + 1].year) as int,
            self.months@[i + 1].num as int) == spec_next_ym(
                self.months@[i].year as int,
                self.months@[i].num as int,
            )
    }

    /// Builds the window starting at month `m` of year `y`.
    pub fn from_start(y: i32, m: u32) -> (r: Self)
        requires
            1 <= m <= 12,
            y < i32::MAX,
        ensures
            r.wf(),
            r.months@[0].year == y,
            r.months@[0].num == m,
    {
        let mut months: Vec<Month> = Vec::new();
        let mut year: i32 = y;
        let mut num: u32 = m;
        let mut i: usize = 0;
        while i < MONTH_COUNT
            invariant
                i <= MONTH_COUNT,
                i == months@.len(),
                1 <= num <= 12,
                1 <= m <= 12,
                y < i32::MAX,
                (year - y) * 12 + num - m == i as int,
                i > 0 ==> months@[0].year == y && months@[0].num == m,
                i > 0 ==> (year as int, num as int) == spec_next_ym(
                    months@[i - 1].year as int,
                    months@[i - 1].num as int,
                ),
                forall|j: int| 0 <= j < i ==> (#[trigger] months@[j]).wf(),
                forall|j: int|
                    0 <= j < i - 1 ==> ((#[trigger] months@[j + 1].year) as int,
                    months@[j + 1].num as int) == spec_next_ym(
                        months@[j].year as int,
                        months@[j].num as int,
                    ),
            decreases MONTH_COUNT - i,
        {
            let ghost prev = months@;
            let next = Month::new(year, num);
            months.push(next);
            proof {
                assert(months@ == prev.push(next));
                assert(months@[i as int] == next);
                assert(forall|j: int| 0 <= j < i ==> months@[j] == prev[j]);
                assert((year - y) * 12 <= 17 && (year - y) * 12 >= -11);
                assert(year == y || year == y + 1);
                assert(num == 12 ==> year == y);
            }
            if num == 12 {
                year = year + 1;
                num = 1;
            } else {
                num = num + 1;
            }
            i = i + 1;
        }
        Calendar { months }
    }

    /// The month at index `i` of the window, when there is one.
    pub fn get_month_by_index(&self, i: usize) -> (r: Option<&Month>)
        ensures
            r is Some <==> i < self.months@.len(),
            r matches Some(m) ==> *m == self.months@[i as int],
    {
        if i < self.months.len() {
            Some(&self.months[i])
        } else {
            None
        }
    }

    /// The first month of the window whose 1-based number is `month_num`,
    /// with its index.
    pub fn get_month_and_index_by_num(&self, month_num: usize) -> (r: Option<(usize, &Month)>)
        ensures
            r matches Some((i, m)) ==> spec_month_index(self.months@, month_num as int, 0)
                == Some(i as int) && i < self.months@.len() && *m == self.months@[i as int]
                && m.num == month_num,
            r is None ==> spec_month_index(self.months@, month_num as int, 0) is None,
    {
        let n = self.months.len();
        let mut i: usize = 0;
        while i < n
            invariant
                i <= n,
                n == self.months@.len(),
                spec_month_index(self.months@, month_num as int, 0) == spec_month_index(
                    self.months@,
                    month_num as int,
                    i as int,
                ),
                forall|j: int| 0 <= j < i ==> (#[trigger] self.months@[j]).num != month_num,
            decreases n - i,
        {
            if self.months[i].num as usize == month_num {
                return Some((i, &self.months[i]));
            }
            i = i + 1;
        }
        None
    }

    /// The month the window starts at.
    pub fn current_month(&self) -> (r: Option<&Month>)
        ensures
            r is Some <==> self.months@.len() > 0,
            r matches Some(m) ==> *m == self.months@[0],
    {
        if self.months.len() == 0 {
            return None;
        }
        Some(&self.months[0])
    }
}

/// The day-grid selection: a month index within the window, and a 1-based
/// day within that month's length, stepped left/right by one day and
/// up/down by one week.
#[derive(Clone, Copy, PartialEq, Eq, Structural, Debug)]
pub struct CalendarState {
    pub selected_month: usize,
    pub num_months: usize,
    pub selected_day: usize,
    pub num_days: usize,
}

impl CalendarState {
    /// The selections lie inside their bounds and the day is 1-based.
    pub open spec fn wf(&self) -> bool {
        &&& self.selected_month < self.num_months
        &&& self.num_months == MONTH_COUNT
        &&& 1 <= self.selected_day <= self.num_days
        &&& self.num_days <= 31
    }

    /// The state after one step right: one day later, clamped at the end
    /// of the month.
    pub open spec fn spec_right(self) -> CalendarState {
        if self.selected_day < self.num_days {
            CalendarState { selected_day: (self.selected_day + 1) as usize, ..self }
        } else {
            self
        }
    }

    /// The state after one step left: one day earlier, clamped at day 1.
    pub open spec fn spec_left(self) -> CalendarState {
        if self.selected_day > 1 {
            CalendarState { selected_day: (self.selected_day - 1) as usize, ..self }
        } else {
            CalendarState { selected_day: 1usize, ..self }
        }
    }

    /// The state after one step down: one week later, clamped at the end
    /// of the month.
    pub open spec fn spec_down(self) -> CalendarState {
        if self.selected_day + 7 <= self.num_days {
            CalendarState { selected_day: (self.selected_day + 7) as usize, ..self }
        } else {
            CalendarState { selected_day: self.num_days, ..self }
        }
    }

    /// The state after one step up: one week earlier, clamped at day 1.
    pub open spec fn spec_up(self) -> CalendarState {
        if self.selected_day > 7 {
            CalendarState { selected_day: (self.selected_day - 7) as usize, ..self }
        } else {
            CalendarState { selected_day: 1usize, ..self }
        }
    }

    /// The state after paging to the next month, clamped at the window's
    /// end.
    pub open spec fn spec_next_month(self) -> CalendarState {
        if self.selected_month + 1 < self.num_months {
            CalendarState { selected_month: (self.selected_month + 1) as usize, ..self }
        } else {
            CalendarState { selected_month: (self.num_months - 1) as usize, ..self }
        }
    }

    /// The state after paging to the previous month, clamped at the
    /// window's start.
    pub open spec fn spec_prev_month(self) -> CalendarState {
        if self.selected_month > 0 {
            CalendarState { selected_month: (self.selected_month - 1) as usize, ..self }
        } else {
            self
        }
    }

    /// The state after the day range becomes `nd` days long, the selected
    /// day clamped into it.
    pub open spec fn spec_set_num_days(self, nd: usize) -> CalendarState {
        CalendarState {
            num_days: nd,
            selected_day: if self.selected_day <= nd {
                self.selected_day
            } else {
                nd
            },
            ..self
        }
    }

    /// Starts at day `day` of the first month of the window.
    pub fn new(day: usize, num_days: usize) -> (r: Self)
        requires
            1 <= day <= num_days,
            num_days <= 31,
        ensures
            r.wf(),
            r.selected_month == 0,
            r.selected_day == day,
            r.num_days == num_days,
    {
        Self { selected_month: 0, num_months: MONTH_COUNT, selected_day: day, num_days }
    }

    /// Starts at day `day` of the month at window index `month`; a month
    /// outside the window or a day outside the month is refused.
    pub fn with_date(month: usize, day: usize, num_days: usize) -> (r: Result<
        Self,
        &'static str,
    >)
        requires
            num_days <= 31,
        ensures
            (month < MONTH_COUNT && 1 <= day <= num_days) <==> r is Ok,
            r matches Ok(s) ==> s.wf() && s.selected_month == month && s.selected_day == day
                && s.num_days == num_days,
    {
        if month >= MONTH_COUNT || day > num_days || day == 0 {
            return Err("Invalid date");
        }
        Ok(Self { selected_month: month, num_months: MONTH_COUNT, selected_day: day, num_days })
    }

    /// Moves the selection to `day`; a day outside the month is refused.
    pub fn set_date(&mut self, day: usize) -> (r: Result<(), &'static str>)
        requires
            old(self).wf(),
        ensures
            final(self).wf(),
            (1 <= day <= old(self).num_days) <==> r is Ok,
            r is Ok ==> *final(self) == (CalendarState { selected_day: day, ..*old(self) }),
            r is Err ==> *final(self) == *old(self),
    {
        if day > self.num_days || day == 0 {
            return Err("Failed to set date: out of bounds");
        }
        self.selected_day = day;
        Ok(())
    }

    pub fn selected_day(&self) -> (r: u32)
        requires
            self.wf(),
        ensures
            r == self.selected_day,
    {
        self.selected_day as u32
    }

    /// Re-bounds the day to a month `nd` days long, clamping the selected
    /// day into it.
    pub fn set_num_days(&mut self, nd: usize)
        requires
            old(self).wf(),
            1 <= nd <= 31,
        ensures
            *final(self) == old(self).spec_set_num_days(nd),
            final(self).wf(),
            final(self).num_days == nd,
            final(self).selected_day == if old(self).selected_day <= nd {
                old(self).selected_day as int
            } else {
                nd as int
            },
            final(self).selected_month == old(self).selected_month,
            final(self).num_months == old(self).num_months,
    {
        if self.selected_day > nd {
            self.selected_day = nd;
        }
        self.num_days = nd;
    }

    pub fn selected_month(&self) -> (r: usize)
        ensures
            r == self.selected_month,
    {
        self.selected_month
    }

    /// Steps to the next month of the window, clamping at its end.
    pub fn next_month(&mut self)
        requires
            old(self).wf(),
        ensures
            *final(self) == old(self).spec_next_month(),
            final(self).wf(),
            final(self).selected_month == if old(self).selected_month + 1 < old(self).num_months {
                old(self).selected_month + 1
            } else {
                old(self).num_months - 1
            },
            final(self).selected_day == old(self).selected_day,
            final(self).num_days == old(self).num_days,
            final(self).num_months == old(self).num_months,
    {
        let cap = self.num_months - 1;
        if self.selected_month + 1 < self.num_months {
            self.selected_month = self.selected_month + 1;
        } else {
            self.selected_month = cap;
        }
    }

    /// Steps to the previous month of the window, clamping at its start.
    pub fn prev_month(&mut self)
        requires
            old(self).wf(),
        ensures
            *final(self) == old(self).spec_prev_month(),
            final(self).wf(),
            final(self).selected_month == if old(self).selected_month > 0 {
                old(self).selected_month - 1
            } else {
                0int
            },
            final(self).selected_day == old(self).selected_day,
            final(self).num_days == old(self).num_days,
            final(self).num_months == old(self).num_months,
    {
        if self.selected_month > 0 {
            self.selected_month = self.selected_month - 1;
        }
    }

    /// One day later, clamped at the end of the month.
    pub fn right(&mut self)
        requires
            old(self).wf(),
        ensures
            *final(self) == old(self).spec_right(),
            final(self).wf(),
            final(self).selected_day == if old(self).selected_day < old(self).num_days {
                old(self).selected_day + 1
            } else {
                old(self).selected_day as int
            },
            final(self).selected_month == old(self).selected_month,
            final(self).num_days == old(self).num_days,
            final(self).num_months == old(self).num_months,
    {
        if self.selected_day < self.num_days {
            self.selected_day = self.selected_day + 1;
        }
    }

    /// One day earlier, clamped at the first day.
    pub fn left(&mut self)
        requires
            old(self).wf(),
        ensures
            *final(self) == old(self).spec_left(),
            final(self).wf(),
            final(self).selected_day == if old(self).selected_day > 1 {
                old(self).selected_day - 1
            } else {
                1int
            },
            final(self).selected_month == old(self).selected_month,
            final(self).num_days == old(self).num_days,
            final(self).num_months == old(self).num_months,
    {
        if self.selected_day > 1 {
            self.selected_day = self.selected_day - 1;
        }
    }

    /// One week later, clamped at the end of the month.
    pub fn down(&mut self)
        requires
            old(self).wf(),
        ensures
            *final(self) == old(self).spec_down(),
            final(self).wf(),
            final(self).selected_day == if old(self).selected_day + 7 <= old(self).num_days {
                old(self).selected_day + 7
            } else {
                old(self).num_days as int
            },
            final(self).selected_month == old(self).selected_month,
            final(self).num_days == old(self).num_days,
            final(self).num_months == old(self).num_months,
    {
        if self.selected_day + 7 <= self.num_days {
            self.selected_day = self.selected_day + 7;
        } else {
            self.selected_day = self.num_days;
        }
    }

    /// One week earlier, clamped at the first day.
    pub fn up(&mut self)
        requires
            old(self).wf(),
        ensures
            *final(self) == old(self).spec_up(),
            final(self).wf(),
            final(self).selected_day == if old(self).selected_day > 7 {
                old(self).selected_day - 7
            } else {
                1int
            },
            final(self).selected_month == old(self).selected_month,
            final(self).num_days == old(self).num_days,
            final(self).num_months == old(self).num_months,
    {
        if self.selected_day > 7 {
            self.selected_day = self.selected_day - 7;
        } else {
            self.selected_day = 1;
        }
    }
}

} // verus!
