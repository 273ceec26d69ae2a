//! Texts of the book detail screen: dates written with padded numbers,
//! field rows, and the lists of linked records with the selected one marked.

use vstd::prelude::*;
use crate::domain::PartialDate;
use crate::numbers::{digits_of, digits_text};
use crate::screens::form::{empty_mark, empty_mark_text};
use crate::text::{joined, string_of, views};

verus! {

/// `n` zeros (none where `n` is not positive).
pub open spec fn zeros(n: int) -> Seq<char> {
    Seq::new(
        if n > 0 {
            n as nat
        } else {
            0
        },
        |i: int| '0',
    )
}

/// `v` in decimal, zero-padded after the sign to `width` characters, as
/// `format!("{:0width$}", v)` writes it.
pub open spec fn padded_number(v: int, width: int) -> Seq<char> {
    if v < 0 {
        seq!['-'] + zeros(width - 1 - digits_text((-v) as nat).len()) + digits_text((-v) as nat)
    } else {
        zeros(width - digits_text(v as nat).len()) + digits_text(v as nat)
    }
}

/// A date as the detail screen writes it: year, month and day joined by
/// `-`, with a `-` in place of each missing part before a known one; the
/// empty text where there is no date or no part.
pub open spec fn date_text(date: Option<PartialDate>) -> Seq<char> {
    match date {
        None => Seq::empty(),
        Some(d) => match (d.year, d.month, d.day) {
            (Some(y), Some(m), Some(x)) => padded_number(y as int, 4) + seq!['-'] + padded_number(
                m as int,
                2,
            ) + seq!['-'] + padded_number(x as int, 2),
            (Some(y), Some(m), None) => padded_number(y as int, 4) + seq!['-'] + padded_number(
                m as int,
                2,
            ),
            (Some(y), None, None) => padded_number(y as int, 4),
            (None, Some(m), Some(x)) => seq!['-', '-'] + padded_number(m as int, 2) + seq!['-']
                + padded_number(x as int, 2),
            (None, Some(m), None) => seq!['-', '-'] + padded_number(m as int, 2),
            (None, None, Some(x)) => seq!['-', '-', '-'] + padded_number(x as int, 2),
            (Some(y), None, Some(x)) => padded_number(y as int, 4) + seq!['-', '-', '-']
                + padded_number(x as int, 2),
            (None, None, None) => Seq::empty(),
        },
    }
}

fn push_zeros(chars: &mut Vec<char>, n: usize)
    ensures
        final(chars)@ == old(chars)@ + zeros(n as int),
{
    let ghost base = chars@;
    let mut i: usize = 0;
    while i < n
        invariant
            i <= n,
            chars@ == base + zeros(i as int),
        decreases n - i,
    {
        chars.push('0');
        i = i + 1;
        proof {
            assert(chars@ =~= base + zeros(i as int));
        }
    }
}

fn push_all(chars: &mut Vec<char>, more: &Vec<char>)
    ensures
        final(chars)@ == old(chars)@ + more@,
{
    let ghost base = chars@;
    let mut i: usize = 0;
    while i < more.len()
        invariant
            i <= more@.len(),
            chars@ == base + more@.take(i as int),
        decreases more@.len() - i,
    {
        chars.push(more[i]);
        proof {
            assert(more@.take(i + 1) =~= more@.take(i as int).push(more@[i as int]));
        }
        i = i + 1;
    }
    proof {
        assert(more@.take(more@.len() as int) =~= more@);
    }
}

/// `v` zero-padded to `width` (see `padded_number`).
pub fn padded_number_text(v: i64, width: usize) -> (r: String)
    ensures
        r@ == padded_number(v as int, width as int),
{
    let negative = v < 0;
    let magnitude: u64 = if v < 0 {
        if v == i64::MIN {
            9223372036854775808u64
        } else {
            (-v) as u64
        }
    } else {
        v as u64
    };
    let digits = digits_of(magnitude);
    let mut chars: Vec<char> = Vec::new();
    let room = if negative {
        if width > 0 {
            width - 1
        } else {
            0
        }
    } else {
        width
    };
    if negative {
        chars.push('-');
    }
    let pad = if room > digits.len() {
        room - digits.len()
    } else {
        0
    };
    push_zeros(&mut chars, pad);
    push_all(&mut chars, &digits);
    proof {
        if negative {
            assert(magnitude as nat == (-v) as nat);
            assert(chars@ =~= padded_number(v as int, width as int));
        } else {
            assert(chars@ =~= padded_number(v as int, width as int));
        }
    }
    string_of(&chars)
}

/// The date as the detail screen writes it (see `date_text`).
pub fn format_partial_date(date: Option<PartialDate>) -> (r: String)
    ensures
        r@ == date_text(date),
{
    let d = match date {
        None => {
            return String::new();
        },
        Some(d) => d,
    };
    let mut r = String::new();
    match d.year {
        Some(y) => {
            let t = padded_number_text(y as i64, 4);
            r.append(t.as_str());
        },
        None => {},
    }
    match (d.year, d.month, d.day) {
        (Some(_), Some(_), _) => {
            r.append("-");
        },
        (None, Some(_), _) => {
            r.append("--");
        },
        (None, None, Some(_)) => {
            r.append("---");
        },
        (Some(_), None, Some(_)) => {
            r.append("---");
        },
        _ => {},
    }
    match d.month {
        Some(m) => {
            let t = padded_number_text(m as i64, 2);
            r.append(t.as_str());
            if d.day.is_some() {
                r.append("-");
            }
        },
        None => {},
    }
    match d.day {
        Some(x) => {
            let t = padded_number_text(x as i64, 2);
            r.append(t.as_str());
        },
        None => {},
    }
    proof {
        reveal_strlit("-");
        reveal_strlit("--");
        reveal_strlit("---");
        assert(r@ =~= date_text(date));
    }
    r
}

/// A value as a field row shows it: the empty mark in place of nothing.
pub open spec fn display_value(value: Seq<char>) -> Seq<char> {
    if value.len() == 0 {
        empty_mark()
    } else {
        value
    }
}

/// The row of a field: its label, ": ", and its value (see
/// `display_value`).
pub fn field_row_text(label: &str, value: &str) -> (r: String)
    ensures
        r@ == label@ + seq![':', ' '] + display_value(value@),
{
    let mut r = String::new();
    r.append(label);
    r.append(": ");
    if value.unicode_len() == 0 {
        let mark = empty_mark_text();
        r.append(mark.as_str());
    } else {
        r.append(value);
    }
    proof {
        reveal_strlit(": ");
    }
    r
}

/// The index of the selected item among `total`: `selected`, kept within
/// the list (0 in an empty one).
pub open spec fn clamped(selected: usize, total: nat) -> int {
    let max = if total == 0 {
        0
    } else {
        total - 1
    };
    if selected <= max {
        selected as int
    } else {
        max
    }
}

/// The position of the selected item counted from 1, or 0 in an empty
/// list.
pub open spec fn position(selected: usize, total: nat) -> int {
    if total == 0 {
        0
    } else {
        clamped(selected, total) + 1
    }
}

/// `clamped`.
pub fn clamped_index(selected: usize, total: usize) -> (i: usize)
    ensures
        i == clamped(selected, total as nat),
{
    let max = if total == 0 {
        0
    } else {
        total - 1
    };
    if selected <= max {
        selected
    } else {
        max
    }
}

/// `position`.
pub fn current_position(selected: usize, total: usize) -> (p: usize)
    ensures
        p == position(selected, total as nat),
{
    if total == 0 {
        0
    } else {
        clamped_index(selected, total) + 1
    }
}

/// A line of a list: "> " before the selected item of an active list, two
/// spaces before the others.
pub open spec fn item_line(item: Seq<char>, marked: bool) -> Seq<char> {
    (if marked {
        seq!['>', ' ']
    } else {
        seq![' ', ' ']
    }) + item
}

/// The lines of a list (see `item_line`).
pub open spec fn item_lines(items: Seq<Seq<char>>, is_active: bool, selected: usize) -> Seq<
    Seq<char>,
> {
    Seq::new(
        items.len(),
        |i: int| item_line(items[i], is_active && i == clamped(selected, items.len())),
    )
}

/// The text of a list: its lines one under the other, or the empty mark.
pub open spec fn related_text(items: Seq<Seq<char>>, is_active: bool, selected: usize) -> Seq<
    char,
> {
    if items.len() == 0 {
        empty_mark()
    } else {
        joined(item_lines(items, is_active, selected), seq!['\n'])
    }
}

/// The text of a list of linked records (see `related_text`).
pub fn related_block_text(items: &Vec<String>, is_active: bool, selected: usize) -> (r: String)
    ensures
        r@ == related_text(views(items@), is_active, selected),
{
    if items.len() == 0 {
        return empty_mark_text();
    }
    let mark = clamped_index(selected, items.len());
    let mut lines: Vec<String> = Vec::new();
    let mut i: usize = 0;
    while i < items.len()
        invariant
            i <= items@.len(),
            mark == clamped(selected, items@.len()),
            lines@.len() == i,
            forall|j: int|
                0 <= j < i ==> #[trigger] lines@[j]@ == item_line(
                    items@[j]@,
                    is_active && j == mark,
                ),
        decreases items@.len() - i,
    {
        let mut line = String::new();
        if is_active && i == mark {
            line.append("> ");
        } else {
            line.append("  ");
        }
        line.append(items[i].as_str());
        proof {
            reveal_strlit("> ");
            reveal_strlit("  ");
        }
        lines.push(line);
        i = i + 1;
    }
    proof {
        assert(views(lines@) =~= item_lines(views(items@), is_active, selected));
        reveal_strlit("\n");
        assert("\n"@ =~= seq!['\n']);
    }
    crate::text::join(&lines, "\n")
}

/// The title of a list's block: marked with " *" while active.
pub fn related_title(title: &str, is_active: bool) -> (r: String)
    ensures
        r@ == (if is_active {
            title@ + seq![' ', '*']
        } else {
            title@
        }),
{
    let mut r = String::new();
    r.append(title);
    if is_active {
        r.append(" *");
        proof {
            reveal_strlit(" *");
        }
    }
    r
}

/// `n` in decimal.
pub fn count_text(n: usize) -> (r: String)
    ensures
        r@ == digits_text(n as nat),
{
    let digits = digits_of(n as u64);
    string_of(&digits)
}

} // verus!
