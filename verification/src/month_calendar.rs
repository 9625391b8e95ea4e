//! A month calendar shows a full calendar page inline and lets the user
//! pick a date or a range of dates. Dates travel to and from the native
//! control as plain year, month and day fields.

use vstd::prelude::*;

verus! {

use vstd::string::StringExecFns;
use crate::base::ControlCreation;
use crate::base::ControlHandle;
use crate::base::ControlMessage;
use crate::base::Font;
use crate::base::NwgError;
use crate::base::QueryMessage;
use crate::base::WindowOp;
use crate::base::WindowRequest;
use crate::base::low16;
use crate::base::WS_CHILD;
use crate::base::WS_TABSTOP;
use crate::base::WS_VISIBLE;

// Style bits of the month calendar class.
pub const MCS_MULTISELECT: u32 = 0x0002;
pub const MCS_WEEKNUMBERS: u32 = 0x0004;
pub const MCS_NOTODAYCIRCLE: u32 = 0x0008;
pub const MCS_NOTODAY: u32 = 0x0010;

// Messages understood by the month calendar class.
pub const MCM_FIRST: u32 = 0x1000;
pub const MCM_GETCURSEL: u32 = MCM_FIRST + 1;
pub const MCM_SETCURSEL: u32 = MCM_FIRST + 2;
pub const MCM_GETMAXSELCOUNT: u32 = MCM_FIRST + 3;
pub const MCM_SETMAXSELCOUNT: u32 = MCM_FIRST + 4;
pub const MCM_GETSELRANGE: u32 = MCM_FIRST + 5;
pub const MCM_SETSELRANGE: u32 = MCM_FIRST + 6;
pub const MCM_GETMINREQRECT: u32 = MCM_FIRST + 9;
pub const MCM_SETTODAY: u32 = MCM_FIRST + 12;
pub const MCM_GETTODAY: u32 = MCM_FIRST + 13;
pub const MCM_SETFIRSTDAYOFWEEK: u32 = MCM_FIRST + 15;
pub const MCM_GETFIRSTDAYOFWEEK: u32 = MCM_FIRST + 16;
pub const MCM_GETRANGE: u32 = MCM_FIRST + 17;
pub const MCM_SETRANGE: u32 = MCM_FIRST + 18;

// Bits saying which end of a date range is present.
pub const GDTR_MIN: usize = 0x0001;
pub const GDTR_MAX: usize = 0x0002;

/// A calendar date, as the native control exchanges it: the year as it is
/// written, the month from one to twelve, the day from one.
#[derive(Clone, Copy, PartialEq, Eq, Structural, Debug)]
pub struct MonthCalendarDate {
    pub year: u16,
    pub month: u16,
    pub day: u16,
}

impl Default for MonthCalendarDate {
    /// The all-zero date the native control uses as a null value.
    fn default() -> (r: Self)
        ensures
            r.year == 0,
            r.month == 0,
            r.day == 0,
    {
        MonthCalendarDate { year: 0, month: 0, day: 0 }
    }
}

impl MonthCalendarDate {
    pub fn new(year: u16, month: u16, day: u16) -> (r: Self)
        ensures
            r.year == year,
            r.month == month,
            r.day == day,
    {
        MonthCalendarDate { year, month, day }
    }
}

/// One message send whose second parameter points at a date structure
/// built from `date`.
#[derive(Clone, Copy, PartialEq, Eq, Debug)]
pub struct DateMessage {
    pub hwnd: usize,
    pub msg: u32,
    pub wparam: usize,
    pub date: MonthCalendarDate,
}

/// One message send whose second parameter points at a pair of date
/// structures built from `first` and `second`.
#[derive(Clone, Copy, PartialEq, Eq, Debug)]
pub struct DateSpanMessage {
    pub hwnd: usize,
    pub msg: u32,
    pub wparam: usize,
    pub first: MonthCalendarDate,
    pub second: MonthCalendarDate,
}

/// One message send whose second parameter points at a pair of date
/// structures of which only the named ends are filled; the first parameter
/// word says which ends those are.
#[derive(Clone, Copy, PartialEq, Eq, Debug)]
pub struct DateRangeMessage {
    pub hwnd: usize,
    pub msg: u32,
    pub wparam: usize,
    pub min: Option<MonthCalendarDate>,
    pub max: Option<MonthCalendarDate>,
}

/// Wrapper around one native month calendar window.
#[derive(Clone, Copy, PartialEq, Eq, Structural, Debug)]
pub struct MonthCalendar {
    pub handle: ControlHandle,
}

impl Default for MonthCalendar {
    /// A fresh wrapper is unbound.
    fn default() -> (r: Self)
        ensures
            r.handle == ControlHandle::NoHandle,
    {
        MonthCalendar { handle: ControlHandle::NoHandle }
    }
}

impl MonthCalendar {
    /// A builder with the control's default configuration.
    pub fn builder() -> (r: MonthCalendarBuilder)
        ensures
            r.size == (250i32, 200i32),
            r.position == (0i32, 0i32),
            r.focus == false,
            r.flags is None,
            r.ex_flags == 0,
            r.font is None,
            r.parent is None,
            r.date is None,
            r.min_date is None,
            r.max_date is None,
            r.max_selection_count is None,
    {
        MonthCalendarBuilder {
            size: (250, 200),
            position: (0, 0),
            focus: false,
            flags: None,
            ex_flags: 0,
            font: None,
            parent: None,
            date: None,
            min_date: None,
            max_date: None,
            max_selection_count: None,
        }
    }

    /// The query that reads the selected date (the first selected date when
    /// a range is allowed); the reply structure carries it.
    pub fn selection(&self) -> (m: QueryMessage)
        requires
            self.handle.is_bound(),
        ensures
            m.hwnd == self.handle.hwnd_spec(),
            m.msg == MCM_GETCURSEL,
            m.wparam == 0,
    {
        QueryMessage { hwnd: self.handle.checked_hwnd(), msg: MCM_GETCURSEL, wparam: 0 }
    }

    /// The message that selects a date.
    pub fn set_selection(&self, date: MonthCalendarDate) -> (m: DateMessage)
        requires
            self.handle.is_bound(),
        ensures
            m.hwnd == self.handle.hwnd_spec(),
            m.msg == MCM_SETCURSEL,
            m.wparam == 0,
            m.date == date,
    {
        DateMessage { hwnd: self.handle.checked_hwnd(), msg: MCM_SETCURSEL, wparam: 0, date }
    }

    /// The query that reads the selected range; the reply structure carries
    /// its two ends.
    pub fn selection_range(&self) -> (m: QueryMessage)
        requires
            self.handle.is_bound(),
        ensures
            m.hwnd == self.handle.hwnd_spec(),
            m.msg == MCM_GETSELRANGE,
            m.wparam == 0,
    {
        QueryMessage { hwnd: self.handle.checked_hwnd(), msg: MCM_GETSELRANGE, wparam: 0 }
    }

    /// The message that selects a range of dates.
    pub fn set_selection_range(&self, start: MonthCalendarDate, end: MonthCalendarDate) -> (m:
        DateSpanMessage)
        requires
            self.handle.is_bound(),
        ensures
            m.hwnd == self.handle.hwnd_spec(),
            m.msg == MCM_SETSELRANGE,
            m.wparam == 0,
            m.first == start,
            m.second == end,
    {
        DateSpanMessage {
            hwnd: self.handle.checked_hwnd(),
            msg: MCM_SETSELRANGE,
            wparam: 0,
            first: start,
            second: end,
        }
    }

    /// The query that reads the selectable range; hand its reply word and
    /// the first date of the reply structure to
    /// [`MonthCalendar::min_date_from_reply`].
    pub fn min_date(&self) -> (m: QueryMessage)
        requires
            self.handle.is_bound(),
        ensures
            m.hwnd == self.handle.hwnd_spec(),
            m.msg == MCM_GETRANGE,
            m.wparam == 0,
    {
        QueryMessage { hwnd: self.handle.checked_hwnd(), msg: MCM_GETRANGE, wparam: 0 }
    }

    /// Reads the lower bound out of the range reply: present exactly when
    /// the reply word carries the low bit.
    pub fn min_date_from_reply(result: usize, min: MonthCalendarDate) -> (r: Option<
        MonthCalendarDate,
    >)
        ensures
            r == if result % 2 == 1 {
                Some(min)
            } else {
                None::<MonthCalendarDate>
            },
    {
        if result % 2 == 1 {
            Some(min)
        } else {
            None
        }
    }

    /// The same query as [`MonthCalendar::min_date`]; hand its reply word
    /// and the second date of the reply structure to
    /// [`MonthCalendar::max_date_from_reply`].
    pub fn max_date(&self) -> (m: QueryMessage)
        requires
            self.handle.is_bound(),
        ensures
            m.hwnd == self.handle.hwnd_spec(),
            m.msg == MCM_GETRANGE,
            m.wparam == 0,
    {
        QueryMessage { hwnd: self.handle.checked_hwnd(), msg: MCM_GETRANGE, wparam: 0 }
    }

    /// Reads the upper bound out of the range reply: present exactly when
    /// the reply word carries the second bit.
    pub fn max_date_from_reply(result: usize, max: MonthCalendarDate) -> (r: Option<
        MonthCalendarDate,
    >)
        ensures
            r == if (result / 2) % 2 == 1 {
                Some(max)
            } else {
                None::<MonthCalendarDate>
            },
    {
        if (result / 2) % 2 == 1 {
            Some(max)
        } else {
            None
        }
    }

    /// The message that bounds the selectable dates: each given end is
    /// filled in and named in the first parameter word, a missing end
    /// removes that bound.
    pub fn set_date_range(&self, min: Option<MonthCalendarDate>, max: Option<MonthCalendarDate>)
        -> (m: DateRangeMessage)
        requires
            self.handle.is_bound(),
        ensures
            m.hwnd == self.handle.hwnd_spec(),
            m.msg == MCM_SETRANGE,
            m.wparam == (if min is Some {
                1int
            } else {
                0int
            }) + (if max is Some {
                2int
            } else {
                0int
            }),
            m.min == min,
            m.max == max,
    {
        let mut flags: usize = 0;
        if min.is_some() {
            flags = flags + 1;
        }
        if max.is_some() {
            flags = flags + 2;
        }
        DateRangeMessage {
            hwnd: self.handle.checked_hwnd(),
            msg: MCM_SETRANGE,
            wparam: flags,
            min,
            max,
        }
    }

    /// The query that reads the date the control shows as today; the reply
    /// structure carries it.
    pub fn today(&self) -> (m: QueryMessage)
        requires
            self.handle.is_bound(),
        ensures
            m.hwnd == self.handle.hwnd_spec(),
            m.msg == MCM_GETTODAY,
            m.wparam == 0,
    {
        QueryMessage { hwnd: self.handle.checked_hwnd(), msg: MCM_GETTODAY, wparam: 0 }
    }

    /// The message that sets the date the control shows as today.
    pub fn set_today(&self, date: MonthCalendarDate) -> (m: DateMessage)
        requires
            self.handle.is_bound(),
        ensures
            m.hwnd == self.handle.hwnd_spec(),
            m.msg == MCM_SETTODAY,
            m.wparam == 0,
            m.date == date,
    {
        DateMessage { hwnd: self.handle.checked_hwnd(), msg: MCM_SETTODAY, wparam: 0, date }
    }

    /// The message that asks how many days one selection may span;
    /// interpret the reply with [`crate::base::reply_as_u32`].
    pub fn max_selection_count(&self) -> (m: ControlMessage)
        requires
            self.handle.is_bound(),
        ensures
            m.hwnd == self.handle.hwnd_spec(),
            m.msg == MCM_GETMAXSELCOUNT,
            m.wparam == 0,
            m.lparam == 0,
    {
        ControlMessage {
            hwnd: self.handle.checked_hwnd(),
            msg: MCM_GETMAXSELCOUNT,
            wparam: 0,
            lparam: 0,
        }
    }

    /// The message that limits how many days one selection may span.
    pub fn set_max_selection_count(&self, count: u32) -> (m: ControlMessage)
        requires
            self.handle.is_bound(),
        ensures
            m.hwnd == self.handle.hwnd_spec(),
            m.msg == MCM_SETMAXSELCOUNT,
            m.wparam == count,
            m.lparam == 0,
    {
        ControlMessage {
            hwnd: self.handle.checked_hwnd(),
            msg: MCM_SETMAXSELCOUNT,
            wparam: count as usize,
            lparam: 0,
        }
    }

    /// The message that asks which weekday opens the week; hand its reply
    /// to [`MonthCalendar::first_day_of_week_from_reply`].
    pub fn first_day_of_week(&self) -> (m: ControlMessage)
        requires
            self.handle.is_bound(),
        ensures
            m.hwnd == self.handle.hwnd_spec(),
            m.msg == MCM_GETFIRSTDAYOFWEEK,
            m.wparam == 0,
            m.lparam == 0,
    {
        ControlMessage {
            hwnd: self.handle.checked_hwnd(),
            msg: MCM_GETFIRSTDAYOFWEEK,
            wparam: 0,
            lparam: 0,
        }
    }

    /// Reads the weekday out of the reply's low word; the word above it
    /// only flags whether the value strays from the locale.
    pub fn first_day_of_week_from_reply(reply: isize) -> (r: u32)
        requires
            0 <= reply,
        ensures
            r == low16(reply as int),
    {
        let word: usize = reply as usize;
        (word % 0x10000) as u32
    }

    /// The message that sets which weekday opens the week.
    pub fn set_first_day_of_week(&self, day: u32) -> (m: ControlMessage)
        requires
            self.handle.is_bound(),
        ensures
            m.hwnd == self.handle.hwnd_spec(),
            m.msg == MCM_SETFIRSTDAYOFWEEK,
            m.wparam == 0,
            m.lparam == day as i64,
    {
        ControlMessage {
            hwnd: self.handle.checked_hwnd(),
            msg: MCM_SETFIRSTDAYOFWEEK,
            wparam: 0,
            lparam: day as i64,
        }
    }

    /// The query that asks what extent one month page needs; the reply
    /// rectangle carries it. Turn the rectangle into an extent with
    /// [`rect_extent`].
    pub fn minimum_size(&self) -> (m: QueryMessage)
        requires
            self.handle.is_bound(),
        ensures
            m.hwnd == self.handle.hwnd_spec(),
            m.msg == MCM_GETMINREQRECT,
            m.wparam == 0,
    {
        QueryMessage { hwnd: self.handle.checked_hwnd(), msg: MCM_GETMINREQRECT, wparam: 0 }
    }

    /// Asks the platform layer for the control's font handle; interpret the
    /// reply with [`crate::base::decode_font`].
    pub fn font(&self) -> (r: WindowRequest)
        requires
            self.handle.is_bound(),
        ensures
            r.hwnd == self.handle.hwnd_spec(),
            r.op == WindowOp::GetFont,
    {
        WindowRequest { hwnd: self.handle.checked_hwnd(), op: WindowOp::GetFont }
    }

    /// Sets the control's font, or clears it.
    pub fn set_font(&self, font: Option<&Font>) -> (r: WindowRequest)
        requires
            self.handle.is_bound(),
        ensures
            r.hwnd == self.handle.hwnd_spec(),
            r.op == WindowOp::SetFont(
                match font {
                    Some(f) => Some(f.handle),
                    None => None,
                },
            ),
    {
        let h = match font {
            Some(f) => Some(f.handle),
            None => None,
        };
        WindowRequest { hwnd: self.handle.checked_hwnd(), op: WindowOp::SetFont(h) }
    }

    /// Asks the platform layer which window holds the keyboard focus;
    /// decide with [`MonthCalendar::has_focus`].
    pub fn focus(&self) -> (r: WindowRequest)
        requires
            self.handle.is_bound(),
        ensures
            r.hwnd == self.handle.hwnd_spec(),
            r.op == WindowOp::GetFocus,
    {
        WindowRequest { hwnd: self.handle.checked_hwnd(), op: WindowOp::GetFocus }
    }

    /// Whether the focused window the platform reported is this control.
    pub fn has_focus(&self, focus_window: usize) -> (r: bool)
        requires
            self.handle.is_bound(),
        ensures
            r == (focus_window == self.handle.hwnd_spec()),
    {
        focus_window == self.handle.checked_hwnd()
    }

    /// Gives the control the keyboard focus.
    pub fn set_focus(&self) -> (r: WindowRequest)
        requires
            self.handle.is_bound(),
        ensures
            r.hwnd == self.handle.hwnd_spec(),
            r.op == WindowOp::SetFocus,
    {
        WindowRequest { hwnd: self.handle.checked_hwnd(), op: WindowOp::SetFocus }
    }

    /// Asks whether the window is enabled; the reply is nonzero when it is.
    pub fn enabled(&self) -> (r: WindowRequest)
        requires
            self.handle.is_bound(),
        ensures
            r.hwnd == self.handle.hwnd_spec(),
            r.op == WindowOp::GetEnabled,
    {
        WindowRequest { hwnd: self.handle.checked_hwnd(), op: WindowOp::GetEnabled }
    }

    /// Enables or disables the window.
    pub fn set_enabled(&self, v: bool) -> (r: WindowRequest)
        requires
            self.handle.is_bound(),
        ensures
            r.hwnd == self.handle.hwnd_spec(),
            r.op == WindowOp::SetEnabled(v),
    {
        WindowRequest { hwnd: self.handle.checked_hwnd(), op: WindowOp::SetEnabled(v) }
    }

    /// Asks whether the window is visible; the reply is nonzero when it is.
    pub fn visible(&self) -> (r: WindowRequest)
        requires
            self.handle.is_bound(),
        ensures
            r.hwnd == self.handle.hwnd_spec(),
            r.op == WindowOp::GetVisible,
    {
        WindowRequest { hwnd: self.handle.checked_hwnd(), op: WindowOp::GetVisible }
    }

    /// Shows or hides the window.
    pub fn set_visible(&self, v: bool) -> (r: WindowRequest)
        requires
            self.handle.is_bound(),
        ensures
            r.hwnd == self.handle.hwnd_spec(),
            r.op == WindowOp::SetVisible(v),
    {
        WindowRequest { hwnd: self.handle.checked_hwnd(), op: WindowOp::SetVisible(v) }
    }

    /// Asks for the window's size.
    pub fn size(&self) -> (r: WindowRequest)
        requires
            self.handle.is_bound(),
        ensures
            r.hwnd == self.handle.hwnd_spec(),
            r.op == WindowOp::GetSize,
    {
        WindowRequest { hwnd: self.handle.checked_hwnd(), op: WindowOp::GetSize }
    }

    /// Resizes the window.
    pub fn set_size(&self, x: u32, y: u32) -> (r: WindowRequest)
        requires
            self.handle.is_bound(),
        ensures
            r.hwnd == self.handle.hwnd_spec(),
            r.op == WindowOp::SetSize(x, y),
    {
        WindowRequest { hwnd: self.handle.checked_hwnd(), op: WindowOp::SetSize(x, y) }
    }

    /// Asks for the window's position in its parent.
    pub fn position(&self) -> (r: WindowRequest)
        requires
            self.handle.is_bound(),
        ensures
            r.hwnd == self.handle.hwnd_spec(),
            r.op == WindowOp::GetPosition,
    {
        WindowRequest { hwnd: self.handle.checked_hwnd(), op: WindowOp::GetPosition }
    }

    /// Moves the window inside its parent.
    pub fn set_position(&self, x: i32, y: i32) -> (r: WindowRequest)
        requires
            self.handle.is_bound(),
        ensures
            r.hwnd == self.handle.hwnd_spec(),
            r.op == WindowOp::SetPosition(x, y),
    {
        WindowRequest { hwnd: self.handle.checked_hwnd(), op: WindowOp::SetPosition(x, y) }
    }

    /// The window class this wrapper creates.
    pub fn class_name(&self) -> (r: &'static str)
        ensures
            r@ == "SysMonthCal32"@,
    {
        "SysMonthCal32"
    }

    /// The style used when the builder is given none.
    pub fn flags(&self) -> (r: u32)
        ensures
            r == (WS_VISIBLE | WS_TABSTOP),
    {
        WS_VISIBLE | WS_TABSTOP
    }

    /// The style bits every month calendar carries.
    pub fn forced_flags(&self) -> (r: u32)
        ensures
            r == WS_CHILD,
    {
        WS_CHILD
    }
}

/// Turns the rectangle a query filled into an extent.
pub fn rect_extent(left: i32, top: i32, right: i32, bottom: i32) -> (r: (u32, u32))
    requires
        left <= right,
        top <= bottom,
    ensures
        r.0 == right - left,
        r.1 == bottom - top,
{
    (((right as i64) - (left as i64)) as u32, ((bottom as i64) - (top as i64)) as u32)
}

/// Everything the platform layer must do to stand up one month calendar:
/// create the window from `base`, bind the handle, set `font` (or the
/// process-wide default when it is `None`), then apply the optional first
/// selection, date bounds and selection limit, and give the control the
/// focus when `focus` is set.
#[derive(Debug)]
pub struct MonthCalendarCreation {
    pub base: ControlCreation,
    pub font: Option<Font>,
    pub date: Option<MonthCalendarDate>,
    pub min_date: Option<MonthCalendarDate>,
    pub max_date: Option<MonthCalendarDate>,
    pub max_selection_count: Option<u32>,
    pub focus: bool,
}

/// Accumulates the configuration of one month calendar.
pub struct MonthCalendarBuilder {
    pub size: (i32, i32),
    pub position: (i32, i32),
    pub flags: Option<u32>,
    pub ex_flags: u32,
    pub font: Option<Font>,
    pub focus: bool,
    pub parent: Option<ControlHandle>,
    pub date: Option<MonthCalendarDate>,
    pub min_date: Option<MonthCalendarDate>,
    pub max_date: Option<MonthCalendarDate>,
    pub max_selection_count: Option<u32>,
}

impl MonthCalendarBuilder {
    pub fn size(self, size: (i32, i32)) -> (r: MonthCalendarBuilder)
        ensures
            r == (MonthCalendarBuilder { size, ..self }),
    {
        MonthCalendarBuilder { size, ..self }
    }

    pub fn position(self, pos: (i32, i32)) -> (r: MonthCalendarBuilder)
        ensures
            r == (MonthCalendarBuilder { position: pos, ..self }),
    {
        MonthCalendarBuilder { position: pos, ..self }
    }

    pub fn flags(self, flags: u32) -> (r: MonthCalendarBuilder)
        ensures
            r == (MonthCalendarBuilder { flags: Some(flags), ..self }),
    {
        MonthCalendarBuilder { flags: Some(flags), ..self }
    }

    pub fn ex_flags(self, flags: u32) -> (r: MonthCalendarBuilder)
        ensures
            r == (MonthCalendarBuilder { ex_flags: flags, ..self }),
    {
        MonthCalendarBuilder { ex_flags: flags, ..self }
    }

    pub fn font(self, font: Option<&Font>) -> (r: MonthCalendarBuilder)
        ensures
            r.font == match font {
                Some(f) => Some(*f),
                None => None::<Font>,
            },
            r.size == self.size,
            r.position == self.position,
            r.flags == self.flags,
            r.ex_flags == self.ex_flags,
            r.focus == self.focus,
            r.parent == self.parent,
            r.date == self.date,
            r.min_date == self.min_date,
            r.max_date == self.max_date,
            r.max_selection_count == self.max_selection_count,
    {
        let f = match font {
            Some(f) => Some(*f),
            None => None,
        };
        MonthCalendarBuilder { font: f, ..self }
    }

    pub fn parent(self, p: ControlHandle) -> (r: MonthCalendarBuilder)
        ensures
            r == (MonthCalendarBuilder { parent: Some(p), ..self }),
    {
        MonthCalendarBuilder { parent: Some(p), ..self }
    }

    pub fn date(self, date: MonthCalendarDate) -> (r: MonthCalendarBuilder)
        ensures
            r == (MonthCalendarBuilder { date: Some(date), ..self }),
    {
        MonthCalendarBuilder { date: Some(date), ..self }
    }

    pub fn min_date(self, date: MonthCalendarDate) -> (r: MonthCalendarBuilder)
        ensures
            r == (MonthCalendarBuilder { min_date: Some(date), ..self }),
    {
        MonthCalendarBuilder { min_date: Some(date), ..self }
    }

    pub fn max_date(self, date: MonthCalendarDate) -> (r: MonthCalendarBuilder)
        ensures
            r == (MonthCalendarBuilder { max_date: Some(date), ..self }),
    {
        MonthCalendarBuilder { max_date: Some(date), ..self }
    }

    pub fn max_selection_count(self, count: u32) -> (r: MonthCalendarBuilder)
        ensures
            r == (MonthCalendarBuilder { max_selection_count: Some(count), ..self }),
    {
        MonthCalendarBuilder { max_selection_count: Some(count), ..self }
    }

    pub fn focus(self, focus: bool) -> (r: MonthCalendarBuilder)
        ensures
            r == (MonthCalendarBuilder { focus, ..self }),
    {
        MonthCalendarBuilder { focus, ..self }
    }

    /// Validates the configuration and assembles the creation request.
    /// Demands a parent: without one the builder errs and leaves `out`
    /// untouched. On success `out` is reset to the unbound state; the
    /// platform layer performs the request and binds the handle.
    pub fn build(self, out: &mut MonthCalendar) -> (res: Result<MonthCalendarCreation, NwgError>)
        ensures
            self.parent is None ==> (res matches Err(e) && e matches
                NwgError::ControlCreationError(m) && m@ == "MonthCalendar"@ && *final(out) == *old(
                out,
            )),
            self.parent matches Some(p) ==> (res matches Ok(c) && final(out).handle
                == ControlHandle::NoHandle && c.base.class_name@ == "SysMonthCal32"@
                && c.base.flags == (match self.flags {
                Some(f) => f,
                None => WS_VISIBLE | WS_TABSTOP,
            } | WS_CHILD) && c.base.ex_flags == self.ex_flags && c.base.size == self.size
                && c.base.position == self.position && c.base.text@ == ""@ && c.base.parent == p
                && c.font == self.font && c.date == self.date && c.min_date == self.min_date
                && c.max_date == self.max_date && c.max_selection_count == self.max_selection_count
                && c.focus == self.focus),
    {
        let parent = match self.parent {
            Some(p) => p,
            None => {
                return Err(NwgError::no_parent("MonthCalendar"));
            },
        };

        *out = MonthCalendar { handle: ControlHandle::NoHandle };

        let flags = match self.flags {
            Some(f) => f,
            None => WS_VISIBLE | WS_TABSTOP,
        };

        Ok(
            MonthCalendarCreation {
                base: ControlCreation {
                    class_name: "SysMonthCal32",
                    flags: flags | WS_CHILD,
                    ex_flags: self.ex_flags,
                    size: self.size,
                    position: self.position,
                    text: String::from_str(""),
                    parent,
                },
                font: self.font,
                date: self.date,
                min_date: self.min_date,
                max_date: self.max_date,
                max_selection_count: self.max_selection_count,
                focus: self.focus,
            },
        )
    }
}

} // verus!
