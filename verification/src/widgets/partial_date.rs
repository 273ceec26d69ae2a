//! An input for a partial date: year, month, day and an "approximate" mark.

use vstd::prelude::*;
use crate::domain::PartialDate;
use crate::keys::{KeyCode, KeyEvent};
use crate::numbers::{decimal_text, i64_to_string, parse_i32, parse_u8, parsed_i32, parsed_u8};
use crate::text::{chars_of, string_of};

verus! {

#[derive(Debug, Clone, Copy, PartialEq, Eq, Structural)]
pub enum PartialDateField {
    Year,
    Month,
    Day,
    Circa,
}

/// The field after `f`, the first after the last.
pub open spec fn next_date_field(f: PartialDateField) -> PartialDateField {
    match f {
        PartialDateField::Year => PartialDateField::Month,
        PartialDateField::Month => PartialDateField::Day,
        PartialDateField::Day => PartialDateField::Circa,
        PartialDateField::Circa => PartialDateField::Year,
    }
}

/// The field before `f`, the last before the first.
pub open spec fn previous_date_field(f: PartialDateField) -> PartialDateField {
    match f {
        PartialDateField::Year => PartialDateField::Circa,
        PartialDateField::Month => PartialDateField::Year,
        PartialDateField::Day => PartialDateField::Month,
        PartialDateField::Circa => PartialDateField::Day,
    }
}

/// The year that the typed `text` gives: none while it is empty or just a
/// minus sign, else its value as an `i32`.
pub open spec fn year_of(text: Seq<char>) -> Option<i32> {
    if text.len() == 0 || text == seq!['-'] {
        None
    } else {
        parsed_i32(text)
    }
}

/// The value of the typed `text` where it is a number from 1 to `max`.
pub open spec fn bounded_of(text: Seq<char>, max: u8) -> Option<u8> {
    match parsed_u8(text) {
        Some(v) => if 1 <= v <= max {
            Some(v)
        } else {
            None
        },
        None => None,
    }
}

/// The year text after typing `c`: a minus only at the start, and only a
/// text that is a minus or an `i32` is kept.
pub open spec fn year_text_after(text: Seq<char>, c: char) -> Option<Seq<char>> {
    let candidate = if c == '-' {
        if text.len() == 0 {
            Some(seq!['-'])
        } else {
            None
        }
    } else {
        Some(text.push(c))
    };
    match candidate {
        Some(t) => if t == seq!['-'] || parsed_i32(t) is Some {
            Some(t)
        } else {
            None
        },
        None => None,
    }
}

/// The month or day text after typing `c`: a digit, at most two bytes, and
/// only a text whose value is from 1 to `max` is kept.
pub open spec fn bounded_text_after(text: Seq<char>, c: char, max: u8) -> Option<Seq<char>> {
    if !('0' as u32 <= c as u32 <= '9' as u32) || vstd::utf8::encode_utf8(text).len() as usize >= 2 {
        None
    } else if bounded_of(text.push(c), max) is Some {
        Some(text.push(c))
    } else {
        None
    }
}

pub open spec fn drop_last_char(text: Seq<char>) -> Seq<char> {
    if text.len() == 0 {
        text
    } else {
        text.drop_last()
    }
}

/// The date widget: the values read so far, the texts typed in each part,
/// and the part being edited.
#[derive(Debug, Clone, PartialEq, Eq)]
pub struct PartialDateWidget {
    pub year: Option<i32>,
    pub month: Option<u8>,
    pub day: Option<u8>,
    pub circa: bool,
    pub active_field: PartialDateField,
    pub year_input: String,
    pub month_input: String,
    pub day_input: String,
}

impl PartialDateWidget {
    /// The date read so far.
    pub open spec fn date(self) -> PartialDate {
        PartialDate { year: self.year, month: self.month, day: self.day, circa: self.circa }
    }

    /// Everything but the active field is as in `other`.
    pub open spec fn same_content(self, other: PartialDateWidget) -> bool {
        &&& self.year == other.year
        &&& self.month == other.month
        &&& self.day == other.day
        &&& self.circa == other.circa
        &&& self.year_input == other.year_input
        &&& self.month_input == other.month_input
        &&& self.day_input == other.day_input
    }

    /// The effect of typing the character `c` in the active part.
    pub open spec fn char_typed(self, after: PartialDateWidget, c: char) -> bool {
        &&& after.active_field == self.active_field
        &&& after.circa == self.circa
        &&& match self.active_field {
            PartialDateField::Year => (match year_text_after(self.year_input@, c) {
                Some(t) => after.year_input@ == t && after.year == year_of(t),
                None => after.year_input == self.year_input && after.year == self.year,
            }) && after.month == self.month && after.day == self.day
                && after.month_input == self.month_input && after.day_input == self.day_input,
            PartialDateField::Month => (match bounded_text_after(self.month_input@, c, 12) {
                Some(t) => after.month_input@ == t && after.month == bounded_of(t, 12),
                None => after.month_input == self.month_input && after.month == self.month,
            }) && after.year == self.year && after.day == self.day && after.year_input
                == self.year_input && after.day_input == self.day_input,
            PartialDateField::Day => (match bounded_text_after(self.day_input@, c, 31) {
                Some(t) => after.day_input@ == t && after.day == bounded_of(t, 31),
                None => after.day_input == self.day_input && after.day == self.day,
            }) && after.year == self.year && after.month == self.month && after.year_input
                == self.year_input && after.month_input == self.month_input,
            PartialDateField::Circa => after == self,
        }
    }

    /// The effect of a backspace in the active part.
    pub open spec fn backspaced(self, after: PartialDateWidget) -> bool {
        &&& after.active_field == self.active_field
        &&& after.circa == self.circa
        &&& match self.active_field {
            PartialDateField::Year => after.year_input@ == drop_last_char(self.year_input@)
                && after.year == year_of(after.year_input@) && after.month == self.month
                && after.day == self.day && after.month_input == self.month_input
                && after.day_input == self.day_input,
            PartialDateField::Month => after.month_input@ == drop_last_char(self.month_input@)
                && after.month == bounded_of(after.month_input@, 12) && after.year == self.year
                && after.day == self.day && after.year_input == self.year_input
                && after.day_input == self.day_input,
            PartialDateField::Day => after.day_input@ == drop_last_char(self.day_input@)
                && after.day == bounded_of(after.day_input@, 31) && after.year == self.year
                && after.month == self.month && after.year_input == self.year_input
                && after.month_input == self.month_input,
            PartialDateField::Circa => after == self,
        }
    }

    /// The effect of `key`: BackTab and Alt+Tab go to the previous part, Tab
    /// to the next; backspace and digits or `-` edit the active part; space
    /// toggles the mark on the mark part; other keys do nothing.
    pub open spec fn key_handled(self, after: PartialDateWidget, key: KeyEvent) -> bool {
        match key.code {
            KeyCode::BackTab => after.same_content(self) && after.active_field
                == previous_date_field(self.active_field),
            KeyCode::Tab => after.same_content(self) && after.active_field == (if key.modifiers.alt {
                previous_date_field(self.active_field)
            } else {
                next_date_field(self.active_field)
            }),
            KeyCode::Backspace => self.backspaced(after),
            KeyCode::Char(c) => if c == ' ' && self.active_field == PartialDateField::Circa {
                after.active_field == self.active_field && after.circa == !self.circa && after.year
                    == self.year && after.month == self.month && after.day == self.day
                    && after.year_input == self.year_input && after.month_input
                    == self.month_input && after.day_input == self.day_input
            } else if ('0' as u32 <= c as u32 <= '9' as u32) || c == '-' {
                self.char_typed(after, c)
            } else {
                after == self
            },
            _ => after == self,
        }
    }

    /// An empty date on the year part.
    pub fn new() -> (w: PartialDateWidget)
        ensures
            w.year is None && w.month is None && w.day is None && !w.circa,
            w.active_field == PartialDateField::Year,
            w.year_input@.len() == 0 && w.month_input@.len() == 0 && w.day_input@.len() == 0,
    {
        PartialDateWidget {
            year: None,
            month: None,
            day: None,
            circa: false,
            active_field: PartialDateField::Year,
            year_input: String::new(),
            month_input: String::new(),
            day_input: String::new(),
        }
    }

    pub fn handle_key(&mut self, key: KeyEvent)
        ensures
            old(self).key_handled(*final(self), key),
    {
        match key.code {
            KeyCode::BackTab => self.previous_field(),
            KeyCode::Tab => {
                if key.modifiers.alt {
                    self.previous_field()
                } else {
                    self.next_field()
                }
            },
            KeyCode::Backspace => self.handle_backspace(),
            KeyCode::Char(c) => {
                if c == ' ' && self.active_field == PartialDateField::Circa {
                    self.circa = !self.circa;
                } else if ('0' <= c && c <= '9') || c == '-' {
                    self.handle_char(c);
                }
            },
            _ => {},
        }
    }

    /// The date read so far.
    pub fn value(&self) -> (d: PartialDate)
        ensures
            d == self.date(),
    {
        PartialDate { year: self.year, month: self.month, day: self.day, circa: self.circa }
    }

    /// Shows `date`: its parts, and each part written in decimal (empty
    /// where missing).
    pub fn set_value(&mut self, date: PartialDate)
        ensures
            final(self).year == date.year,
            final(self).month == date.month,
            final(self).day == date.day,
            final(self).circa == date.circa,
            final(self).active_field == old(self).active_field,
            final(self).year_input@ == (match date.year {
                Some(v) => decimal_text(v as int),
                None => Seq::empty(),
            }),
            final(self).month_input@ == (match date.month {
                Some(v) => decimal_text(v as int),
                None => Seq::empty(),
            }),
            final(self).day_input@ == (match date.day {
                Some(v) => decimal_text(v as int),
                None => Seq::empty(),
            }),
    {
        self.year = date.year;
        self.month = date.month;
        self.day = date.day;
        self.circa = date.circa;
        self.year_input = match date.year {
            Some(v) => i64_to_string(v as i64),
            None => String::new(),
        };
        self.month_input = match date.month {
            Some(v) => i64_to_string(v as i64),
            None => String::new(),
        };
        self.day_input = match date.day {
            Some(v) => i64_to_string(v as i64),
            None => String::new(),
        };
    }

    pub fn next_field(&mut self)
        ensures
            final(self).same_content(*old(self)),
            final(self).active_field == next_date_field(old(self).active_field),
    {
        self.active_field = match self.active_field {
            PartialDateField::Year => PartialDateField::Month,
            PartialDateField::Month => PartialDateField::Day,
            PartialDateField::Day => PartialDateField::Circa,
            PartialDateField::Circa => PartialDateField::Year,
        };
    }

    pub fn previous_field(&mut self)
        ensures
            final(self).same_content(*old(self)),
            final(self).active_field == previous_date_field(old(self).active_field),
    {
        self.active_field = match self.active_field {
            PartialDateField::Year => PartialDateField::Circa,
            PartialDateField::Month => PartialDateField::Year,
            PartialDateField::Day => PartialDateField::Month,
            PartialDateField::Circa => PartialDateField::Day,
        };
    }

    pub fn handle_char(&mut self, c: char)
        ensures
            old(self).char_typed(*final(self), c),
    {
        match self.active_field {
            PartialDateField::Year => self.handle_year_char(c),
            PartialDateField::Month => self.handle_month_char(c),
            PartialDateField::Day => self.handle_day_char(c),
            PartialDateField::Circa => {},
        }
    }

    pub fn handle_backspace(&mut self)
        ensures
            old(self).backspaced(*final(self)),
    {
        match self.active_field {
            PartialDateField::Year => {
                self.year_input = without_last(&self.year_input);
                self.year = parse_year(self.year_input.as_str());
            },
            PartialDateField::Month => {
                self.month_input = without_last(&self.month_input);
                self.month = parse_bounded(self.month_input.as_str(), 12);
            },
            PartialDateField::Day => {
                self.day_input = without_last(&self.day_input);
                self.day = parse_bounded(self.day_input.as_str(), 31);
            },
            PartialDateField::Circa => {},
        }
    }

    pub fn handle_year_char(&mut self, c: char)
        ensures
            final(self).active_field == old(self).active_field,
            final(self).circa == old(self).circa,
            final(self).month == old(self).month,
            final(self).day == old(self).day,
            final(self).month_input == old(self).month_input,
            final(self).day_input == old(self).day_input,
            match year_text_after(old(self).year_input@, c) {
                Some(t) => final(self).year_input@ == t && final(self).year == year_of(t),
                None => final(self).year_input == old(self).year_input && final(self).year == old(
                    self,
                ).year,
            },
    {
        let mut chars = chars_of(self.year_input.as_str());
        if c == '-' {
            if chars.len() == 0 {
                chars.push(c);
            } else {
                return;
            }
        } else {
            chars.push(c);
        }
        let candidate = string_of(&chars);
        let is_minus = chars.len() == 1 && chars[0] == '-';
        proof {
            if is_minus {
                assert(candidate@ =~= seq!['-']);
            }
            if candidate@ == seq!['-'] {
                assert(candidate@[0] == '-');
            }
        }
        if is_minus || parse_i32(candidate.as_str()).is_some() {
            self.year = parse_year(candidate.as_str());
            self.year_input = candidate;
        }
    }

    fn handle_month_char(&mut self, c: char)
        ensures
            final(self).active_field == old(self).active_field,
            final(self).circa == old(self).circa,
            final(self).year == old(self).year,
            final(self).day == old(self).day,
            final(self).year_input == old(self).year_input,
            final(self).day_input == old(self).day_input,
            match bounded_text_after(old(self).month_input@, c, 12) {
                Some(t) => final(self).month_input@ == t && final(self).month == bounded_of(t, 12),
                None => final(self).month_input == old(self).month_input && final(self).month
                    == old(self).month,
            },
    {
        if let Some((text, value)) = bounded_text(&self.month_input, c, 12) {
            self.month_input = text;
            self.month = Some(value);
        }
    }

    fn handle_day_char(&mut self, c: char)
        ensures
            final(self).active_field == old(self).active_field,
            final(self).circa == old(self).circa,
            final(self).year == old(self).year,
            final(self).month == old(self).month,
            final(self).year_input == old(self).year_input,
            final(self).month_input == old(self).month_input,
            match bounded_text_after(old(self).day_input@, c, 31) {
                Some(t) => final(self).day_input@ == t && final(self).day == bounded_of(t, 31),
                None => final(self).day_input == old(self).day_input && final(self).day == old(
                    self,
                ).day,
            },
    {
        if let Some((text, value)) = bounded_text(&self.day_input, c, 31) {
            self.day_input = text;
            self.day = Some(value);
        }
    }
}

impl Default for PartialDateWidget {
    fn default() -> (w: PartialDateWidget)
        ensures
            w.year is None && w.month is None && w.day is None && !w.circa,
            w.active_field == PartialDateField::Year,
    {
        PartialDateWidget::new()
    }
}

/// The month or day text after typing `c` and its value, where kept (see
/// `bounded_text_after`).
fn bounded_text(buffer: &String, c: char, max: u8) -> (r: Option<(String, u8)>)
    ensures
        match r {
            Some((t, v)) => bounded_text_after(buffer@, c, max) == Some(t@) && bounded_of(t@, max)
                == Some(v),
            None => bounded_text_after(buffer@, c, max) is None,
        },
{
    if !('0' <= c && c <= '9') {
        return None;
    }
    if buffer.as_str().len() >= 2 {
        return None;
    }
    let mut chars = chars_of(buffer.as_str());
    chars.push(c);
    let candidate = string_of(&chars);
    match parse_bounded(candidate.as_str(), max) {
        Some(value) => Some((candidate, value)),
        None => None,
    }
}

fn without_last(s: &String) -> (r: String)
    ensures
        r@ == drop_last_char(s@),
{
    let mut chars = chars_of(s.as_str());
    if chars.len() > 0 {
        chars.pop();
    }
    string_of(&chars)
}

/// The year that `value` gives (see `year_of`).
pub fn parse_year(value: &str) -> (y: Option<i32>)
    ensures
        y == year_of(value@),
{
    let chars = chars_of(value);
    if chars.len() == 0 {
        return None;
    }
    if chars.len() == 1 && chars[0] == '-' {
        proof {
            assert(value@ =~= seq!['-']);
        }
        return None;
    }
    proof {
        if value@ == seq!['-'] {
            assert(value@[0] == '-');
        }
    }
    parse_i32(value)
}

/// The value of `value` where it is a number from 1 to `max` (see `bounded_of`).
pub fn parse_bounded(value: &str, max: u8) -> (v: Option<u8>)
    ensures
        v == bounded_of(value@, max),
{
    match parse_u8(value) {
        Some(parsed) => if 1 <= parsed && parsed <= max {
            Some(parsed)
        } else {
            None
        },
        None => None,
    }
}

/// The number of bytes of `s` in UTF-8.
pub open spec fn byte_len(s: Seq<char>) -> usize {
    vstd::utf8::encode_utf8(s).len() as usize
}

/// `value` followed by spaces up to `width` bytes.
pub open spec fn padded(value: Seq<char>, width: usize) -> Seq<char> {
    value + Seq::new(
        (if width >= byte_len(value) {
            width - byte_len(value)
        } else {
            0
        }) as nat,
        |i: int| ' ',
    )
}

/// `value` followed by spaces up to `width` bytes (see `padded`).
pub fn padded_field(value: &str, width: usize) -> (r: String)
    ensures
        r@ == padded(value@, width),
{
    let len = value.len();
    let padding = width.saturating_sub(len);
    let mut chars = chars_of(value);
    let ghost base = chars@;
    let mut i: usize = 0;
    while i < padding
        invariant
            i <= padding,
            chars@ == base + Seq::new(i as nat, |k: int| ' '),
        decreases padding - i,
    {
        chars.push(' ');
        i = i + 1;
        assert(chars@ =~= base + Seq::new(i as nat, |k: int| ' '));
    }
    string_of(&chars)
}


/// What `set_value` shows reads back as the date: the year text gives the
/// year, and the month and day texts give the month and day where those
/// are in range (1 to 12, 1 to 31).
pub proof fn lemma_shown_date_reads_back(date: PartialDate)
    requires
        date.month matches Some(m) ==> 1 <= m <= 12,
        date.day matches Some(d) ==> 1 <= d <= 31,
    ensures
        year_of(match date.year {
            Some(v) => decimal_text(v as int),
            None => Seq::empty(),
        }) == date.year,
        (match date.month {
            Some(v) => bounded_of(decimal_text(v as int), 12),
            None => None,
        }) == date.month,
        (match date.day {
            Some(v) => bounded_of(decimal_text(v as int), 31),
            None => None,
        }) == date.day,
{
    match date.year {
        Some(v) => {
            crate::numbers::lemma_decimal_value_of_text(v as int);
            let t = decimal_text(v as int);
            if v < 0 {
                crate::numbers::lemma_digits_text_value((-(v as int)) as nat);
                assert(t.len() >= 2);
            } else {
                crate::numbers::lemma_digits_text_value(v as nat);
                assert(t[0] != '-');
            }
            assert(t != seq!['-']);
        },
        None => {},
    }
    match date.month {
        Some(v) => crate::numbers::lemma_decimal_value_of_text(v as int),
        None => {},
    }
    match date.day {
        Some(v) => crate::numbers::lemma_decimal_value_of_text(v as int),
        None => {},
    }
}

impl PartialDateWidget {
    /// The line that shows the date: each part in brackets, the year
    /// padded to at least four bytes, month and day to two, the mark as
    /// `x` or a space.
    pub open spec fn line(self) -> Seq<char> {
        let year_width = if byte_len(self.year_input@) >= 4 {
            byte_len(self.year_input@)
        } else {
            4usize
        };
        "Anno: ["@ + padded(self.year_input@, year_width) + "] Mese: ["@ + padded(
            self.month_input@,
            2,
        ) + "] Giorno: ["@ + padded(self.day_input@, 2) + "] Circa: ["@ + (if self.circa {
            "x"@
        } else {
            " "@
        }) + "]"@
    }

    /// The line that shows the date (see `line`).
    pub fn line_text(&self) -> (r: String)
        ensures
            r@ == self.line(),
    {
        let year_len = self.year_input.as_str().len();
        let year_width = if year_len >= 4 {
            year_len
        } else {
            4
        };
        let mut r = String::new();
        r.append("Anno: [");
        let y = padded_field(self.year_input.as_str(), year_width);
        r.append(y.as_str());
        r.append("] Mese: [");
        let m = padded_field(self.month_input.as_str(), 2);
        r.append(m.as_str());
        r.append("] Giorno: [");
        let d = padded_field(self.day_input.as_str(), 2);
        r.append(d.as_str());
        r.append("] Circa: [");
        if self.circa {
            r.append("x");
        } else {
            r.append(" ");
        }
        r.append("]");
        r
    }
}

} // verus!
