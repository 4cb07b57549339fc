//! The clock face: three rows of text, of which each is drawn again only when
//! what it shows has changed.

use crate::datetime::{
    day_number, is_calendar_day, is_time_of_day, law_months_apart, DateTime,
};
use crate::display::{Color, Draw, LCD_H, LCD_W};
use crate::format::{date_text, fmt_date, fmt_time, shown_year, time_text};
use crate::mode::Mode;
use vstd::prelude::*;

verus! {

/// Height of a row, in pixels.
pub const ROW_HEIGHT: u32 = 22;

/// Top of the row that shows the mode.
pub const MODE_ROW: i32 = 0;

/// Top of the row that shows the time.
pub const TIME_ROW: i32 = 26;

/// Top of the row that shows the date.
pub const DATE_ROW: i32 = 52;

/// Where a row is: the rectangle to clear, and the point on which the baseline
/// of its text is centred.
#[derive(Clone, Copy, Debug, PartialEq, Eq, Structural)]
pub struct Row {
    pub x: i32,
    pub y: i32,
    pub width: u32,
    pub height: u32,
    pub text_x: i32,
    pub text_y: i32,
}

/// The row whose top is at `y`.
pub open spec fn row(y: int) -> Row {
    Row {
        x: 0,
        y: y as i32,
        width: LCD_W as u32,
        height: ROW_HEIGHT,
        text_x: (LCD_W / 2) as i32,
        text_y: (y + 18) as i32,
    }
}

/// The draws of a row: its rectangle is cleared, then its text is drawn into it.
pub open spec fn is_row(
    draws: Seq<Draw<'_>>,
    bg: Color,
    y: int,
    text: Seq<char>,
    ink: Color,
) -> bool {
    &&& draws.len() == 2
    &&& draws[0] == (Draw::Fill {
        x: row(y).x,
        y: row(y).y,
        width: row(y).width,
        height: row(y).height,
        color: bg,
    })
    &&& draws[1] matches Draw::Text { text: t, x: text_x, y: text_y, ink: i } && {
        &&& t@ == text
        &&& text_x == row(y).text_x
        &&& text_y == row(y).text_y
        &&& i == ink
    }
}

/// Clear a 22 px row and draw centred text into it.
pub fn redraw_row<'a>(bg: Color, y: i32, text: &'a str, ink: Color) -> (r: [Draw<'a>; 2])
    requires
        y + 18 <= i32::MAX,
    ensures
        is_row(r@, bg, y as int, text@, ink),
        r@[1] matches Draw::Text { text: t, .. } && t == text,
{
    [
        Draw::Fill { x: 0, y, width: 160, height: ROW_HEIGHT, color: bg },
        Draw::Text { text, x: 80, y: y + 18, ink },
    ]
}

/// The row of the mode: yellow, filled up to five characters if so wanted.
pub fn mode_row(mode: Mode, padded: bool) -> (r: [Draw<'static>; 2])
    ensures
        is_row(
            r@,
            Color::Black,
            MODE_ROW as int,
            if padded {
                mode.padded_text()
            } else {
                mode.text()
            },
            Color::Yellow,
        ),
{
    let label: &'static str = if padded {
        mode.padded_label()
    } else {
        mode.label()
    };
    redraw_row(Color::Black, MODE_ROW, label, Color::Yellow)
}

/// The row of the time: cyan.
pub fn time_row<'a>(buf: &'a mut [u8; 8], h: u8, m: u8, s: u8) -> (r: [Draw<'a>; 2])
    requires
        h < 100,
        m < 100,
        s < 100,
    ensures
        is_row(
            r@,
            Color::Black,
            TIME_ROW as int,
            time_text(h as int, m as int, s as int),
            Color::Cyan,
        ),
        final(buf)@ == time_text(h as int, m as int, s as int).map_values(|c: char| c as u8),
{
    redraw_row(Color::Black, TIME_ROW, fmt_time(buf, h, m, s), Color::Cyan)
}

/// The row of the date: light sky blue.
pub fn date_row<'a>(buf: &'a mut [u8; 10], d: u8, mo: u8, y: i32) -> (r: [Draw<'a>; 2])
    requires
        d < 100,
        mo < 100,
    ensures
        is_row(
            r@,
            Color::Black,
            DATE_ROW as int,
            date_text(d as int, mo as int, shown_year(y)),
            Color::LightSkyBlue,
        ),
        final(buf)@ == date_text(d as int, mo as int, shown_year(y)).map_values(|c: char| c as u8),
{
    redraw_row(Color::Black, DATE_ROW, fmt_date(buf, d, mo, y), Color::LightSkyBlue)
}

/// What to draw again. A field that is `None` stays as it is.
#[derive(Clone, Copy, Debug, PartialEq, Eq)]
pub struct Redraw {
    pub mode: Option<Mode>,
    /// Hour, minute and second.
    pub time: Option<(u8, u8, u8)>,
    /// Day, month and year.
    pub date: Option<(u8, u8, i32)>,
}

/// What the face remembers of what is on the screen.
#[derive(Clone, Copy, Debug, PartialEq, Eq, Structural)]
pub struct Face {
    pub last_mode: Option<Mode>,
    pub last_second: Option<u8>,
    pub last_day: Option<u8>,
}

impl Face {
    /// What to draw again for a mode and a reading of the clock.
    pub open spec fn changes(self, mode: Mode, now: Option<DateTime>) -> Redraw {
        Redraw {
            mode: if self.last_mode == Some(mode) {
                None
            } else {
                Some(mode)
            },
            time: match now {
                Some(t) => if self.last_second == Some(t.second) {
                    None
                } else {
                    Some((t.hour, t.minute, t.second))
                },
                None => None,
            },
            date: match now {
                Some(t) => if self.last_day == Some(t.day) {
                    None
                } else {
                    Some((t.day, t.month, t.year))
                },
                None => None,
            },
        }
    }

    /// The face after a mode and a reading of the clock have been shown.
    pub open spec fn after(self, mode: Mode, now: Option<DateTime>) -> Face {
        Face {
            last_mode: Some(mode),
            last_second: match now {
                Some(t) => Some(t.second),
                None => self.last_second,
            },
            last_day: match now {
                Some(t) => Some(t.day),
                None => self.last_day,
            },
        }
    }

    /// A face that has drawn nothing yet.
    pub fn new() -> (r: Face)
        ensures
            r == (Face { last_mode: None, last_second: None, last_day: None }),
    {
        Face { last_mode: None, last_second: None, last_day: None }
    }

    /// Says what to draw again. Without a reading of the clock only the mode is
    /// looked at.
    pub fn refresh(&mut self, mode: Mode, now: Option<DateTime>) -> (r: Redraw)
        ensures
            r == old(self).changes(mode, now),
            *final(self) == old(self).after(mode, now),
    {
        let mut redraw: Redraw = Redraw { mode: None, time: None, date: None };
        if self.last_mode != Some(mode) {
            redraw.mode = Some(mode);
            self.last_mode = Some(mode);
        }
        if let Some(t) = now {
            if self.last_second != Some(t.second) {
                redraw.time = Some((t.hour, t.minute, t.second));
                self.last_second = Some(t.second);
            }
            if self.last_day != Some(t.day) {
                redraw.date = Some((t.day, t.month, t.year));
                self.last_day = Some(t.day);
            }
        }
        redraw
    }

    /// Says what to draw again, on a face that draws nothing at all while there
    /// is no reading of the clock.
    pub fn refresh_with_clock(&mut self, mode: Mode, now: Option<DateTime>) -> (r: Redraw)
        ensures
            now is Some ==> r == old(self).changes(mode, now) && *final(self) == old(self).after(
                mode,
                now,
            ),
            now is None ==> r == (Redraw { mode: None, time: None, date: None }) && *final(self)
                == *old(self),
    {
        if now.is_some() {
            self.refresh(mode, now)
        } else {
            Redraw { mode: None, time: None, date: None }
        }
    }
}

/// What the three rows show, once they have been drawn.
pub struct Screen {
    pub mode: Option<Mode>,
    pub time: Option<(u8, u8, u8)>,
    pub date: Option<(u8, u8, i32)>,
}

impl Screen {
    /// The screen after a redraw.
    pub open spec fn after(self, r: Redraw) -> Screen {
        Screen {
            mode: if r.mode is Some {
                r.mode
            } else {
                self.mode
            },
            time: if r.time is Some {
                r.time
            } else {
                self.time
            },
            date: if r.date is Some {
                r.date
            } else {
                self.date
            },
        }
    }

    /// The face remembers what the screen shows.
    pub open spec fn remembered(self, face: Face) -> bool {
        &&& face.last_mode == self.mode
        &&& face.last_second == (match self.time {
            Some(t) => Some(t.2),
            None => None,
        })
        &&& face.last_day == (match self.date {
            Some(d) => Some(d.0),
            None => None,
        })
    }
}

/// Seconds since midnight.
pub open spec fn second_of_day(hour: int, minute: int, second: int) -> int {
    3600 * hour + 60 * minute + second
}

/// The three rows lie on the panel, one below the other, and none over another.
pub proof fn law_rows_fit()
    ensures
        0 <= row(MODE_ROW as int).y,
        MODE_ROW + ROW_HEIGHT <= TIME_ROW,
        TIME_ROW + ROW_HEIGHT <= DATE_ROW,
        DATE_ROW + ROW_HEIGHT <= LCD_H,
        forall|y: int|
            #![trigger row(y)]
            0 <= y <= 52 ==> {
                &&& row(y).x + row(y).width == LCD_W
                &&& 2 * row(y).text_x == LCD_W
                &&& row(y).y < row(y).text_y < row(y).y + row(y).height
            },
{
}

/// Showing the same mode and reading again draws nothing.
pub proof fn law_nothing_drawn_twice(face: Face, mode: Mode, now: Option<DateTime>)
    ensures
        face.after(mode, now).changes(mode, now) == (Redraw { mode: None, time: None, date: None }),
{
}

/// The face keeps remembering what is on the screen; the mode shown is the
/// current one, and so are the second and the day once the clock has been read.
pub proof fn law_screen_is_remembered(
    face: Face,
    screen: Screen,
    mode: Mode,
    now: Option<DateTime>,
)
    requires
        screen.remembered(face),
    ensures
        ({
            let next = screen.after(face.changes(mode, now));
            &&& next.remembered(face.after(mode, now))
            &&& next.mode == Some(mode)
            &&& now matches Some(t) ==> {
                &&& next.time matches Some(shown) && shown.2 == t.second
                &&& next.date matches Some(shown) && shown.0 == t.day
            }
            &&& now is None ==> next.time == screen.time && next.date == screen.date
        }),
{
}

/// A face that is refreshed before a minute has passed shows the exact time, also
/// where midnight lies between.
pub proof fn law_time_is_current(face: Face, screen: Screen, mode: Mode, t: DateTime)
    requires
        screen.remembered(face),
        is_time_of_day(t.hour as int, t.minute as int, t.second as int),
        screen.time matches Some(shown) ==> {
            &&& is_time_of_day(shown.0 as int, shown.1 as int, shown.2 as int)
            &&& (second_of_day(t.hour as int, t.minute as int, t.second as int) - second_of_day(
                shown.0 as int,
                shown.1 as int,
                shown.2 as int,
            )) % 86400 < 60
        },
    ensures
        screen.after(face.changes(mode, Some(t))).time == Some((t.hour, t.minute, t.second)),
{
}

/// A face that is refreshed before 28 days have passed shows the exact date,
/// although only the day of the month is compared.
pub proof fn law_date_is_current(face: Face, screen: Screen, mode: Mode, t: DateTime)
    requires
        screen.remembered(face),
        is_calendar_day(t.year as int, t.month as int, t.day as int),
        screen.date matches Some(shown) ==> {
            &&& is_calendar_day(shown.2 as int, shown.1 as int, shown.0 as int)
            &&& 0 <= day_number(t.year as int, t.month as int, t.day as int) - day_number(
                shown.2 as int,
                shown.1 as int,
                shown.0 as int,
            ) < 28
        },
    ensures
        screen.after(face.changes(mode, Some(t))).date == Some((t.day, t.month, t.year)),
{
    if let Some(shown) = screen.date {
        let (year, month, day) = (t.year as int, t.month as int, t.day as int);
        let (old_year, old_month) = (shown.2 as int, shown.1 as int);
        if old_year < year || (old_year == year && old_month < month) {
            law_months_apart(old_year, old_month, year, month, day);
        }
        if year < old_year || (year == old_year && month < old_month) {
            law_months_apart(year, month, old_year, old_month, day);
        }
    }
}

/// Each row is drawn again exactly if what it goes by has changed: the mode, the
/// second, the day of the month. It is drawn with what the reading holds, and
/// then remembered; without a reading the time and the date stay as they are.
pub proof fn law_redraw_rule(face: Face, mode: Mode, t: DateTime)
    ensures
        ({
            let r = face.changes(mode, Some(t));
            &&& r.mode is Some <==> face.last_mode != Some(mode)
            &&& r.mode is Some ==> r.mode == Some(mode)
            &&& r.time is Some <==> face.last_second != Some(t.second)
            &&& r.time matches Some(shown) ==> shown.0 == t.hour && shown.1 == t.minute && shown.2
                == t.second
            &&& r.date is Some <==> face.last_day != Some(t.day)
            &&& r.date matches Some(shown) ==> shown.0 == t.day && shown.1 == t.month && shown.2
                == t.year
        }),
        ({
            let r = face.changes(mode, None);
            &&& r.mode == face.changes(mode, Some(t)).mode
            &&& r.time is None && r.date is None
        }),
        ({
            let next = face.after(mode, Some(t));
            &&& next.last_mode == Some(mode)
            &&& next.last_second == Some(t.second)
            &&& next.last_day == Some(t.day)
        }),
        ({
            let next = face.after(mode, None);
            &&& next.last_mode == Some(mode)
            &&& next.last_second == face.last_second
            &&& next.last_day == face.last_day
        }),
{
}

/// A row is a band of 22 pixels across the panel, and its text has its baseline
/// four pixels above the lower end of the band, centred between left and right.
/// The band is cleared before the text is drawn.
pub proof fn law_row_is_cleared_then_written(
    draws: Seq<Draw<'_>>,
    bg: Color,
    top: i32,
    text: Seq<char>,
    ink: Color,
)
    requires
        top + 18 <= i32::MAX,
        is_row(draws, bg, top as int, text, ink),
    ensures
        draws.len() == 2,
        draws[0] matches Draw::Fill { x, y, width, height, color } && {
            &&& x == 0 && x + width == 160
            &&& y == top && height == 22
            &&& color == bg
        },
        draws[1] matches Draw::Text { text: t, x, y, ink: i } && {
            &&& t@ == text
            &&& x + x == 160
            &&& y + 4 == top + 22
            &&& i == ink
        },
        MODE_ROW == 0 && TIME_ROW == 26 && DATE_ROW == 52,
{
}

} // verus!
