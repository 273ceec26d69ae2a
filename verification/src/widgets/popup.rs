//! A confirmation popup and the area it takes on screen.

use vstd::prelude::*;
use crate::text::chars_of;

verus! {

/// A rectangle of terminal cells.
#[derive(Debug, Clone, Copy, PartialEq, Eq, Structural)]
pub struct Rect {
    pub x: u16,
    pub y: u16,
    pub width: u16,
    pub height: u16,
}

/// The hint shown under the message: "Enter: confirm / Esc: cancel".
pub open spec fn hint_width() -> nat {
    28
}

pub open spec fn horizontal_padding() -> u16 {
    4
}

/// The pieces of `s` between line feeds (one more than there are line feeds).
pub open spec fn pieces(s: Seq<char>) -> Seq<Seq<char>>
    decreases s.len(),
{
    if s.len() == 0 {
        seq![Seq::empty()]
    } else if s.last() == '\n' {
        pieces(s.drop_last()).push(Seq::empty())
    } else {
        let p = pieces(s.drop_last());
        p.update(p.len() - 1, p.last().push(s.last()))
    }
}

/// A line that ended with a line feed loses a carriage return before it.
pub open spec fn strip_cr(line: Seq<char>) -> Seq<char> {
    if line.len() > 0 && line.last() == '\r' {
        line.drop_last()
    } else {
        line
    }
}

/// The lines of `s` as `str::lines` gives them: split at `\n` or `\r\n`, a
/// final line ending optional, no line at all for an empty text.
pub open spec fn lines(s: Seq<char>) -> Seq<Seq<char>> {
    let p = pieces(s);
    let ended = p.drop_last().map_values(|l: Seq<char>| strip_cr(l));
    if p.last().len() == 0 {
        ended
    } else {
        ended.push(p.last())
    }
}

/// The widths (in characters) of the lines of `s`.
pub open spec fn line_widths(s: Seq<char>) -> Seq<int> {
    lines(s).map_values(|l: Seq<char>| l.len() as int)
}

/// The greatest of `w`, 0 for none.
pub open spec fn max_of(w: Seq<int>) -> int
    decreases w.len(),
{
    if w.len() == 0 {
        0
    } else {
        let m = max_of(w.drop_last());
        if w.last() > m {
            w.last()
        } else {
            m
        }
    }
}

/// The rows a line of `len` characters takes when wrapped at `width`
/// (at least one), as a `u16`.
pub open spec fn rows_for(len: int, width: u16) -> u16 {
    let l = if len > 1 {
        len
    } else {
        1
    };
    ((l + width - 1) / (width as int)) as u16
}

/// The sum of the rows the lines of widths `w` take, over the integers.
pub open spec fn rows_sum(w: Seq<int>, width: u16) -> int
    decreases w.len(),
{
    if w.len() == 0 {
        0
    } else {
        rows_sum(w.drop_last(), width) + rows_for(w.last(), width)
    }
}

/// How many rows `text` takes when wrapped at `width`: at least one.
pub open spec fn wrapped_rows(text: Seq<char>, width: u16) -> u16 {
    if width == 0 {
        1
    } else {
        let n = rows_sum(line_widths(text), width);
        if n < 1 {
            1
        } else {
            n as u16
        }
    }
}

pub open spec fn sat_add(a: u16, b: u16) -> u16 {
    if a + b > u16::MAX {
        u16::MAX
    } else {
        (a + b) as u16
    }
}

pub open spec fn sat_sub(a: u16, b: u16) -> u16 {
    if a >= b {
        (a - b) as u16
    } else {
        0
    }
}

pub open spec fn min16(a: u16, b: u16) -> u16 {
    if a <= b {
        a
    } else {
        b
    }
}

pub open spec fn max16(a: u16, b: u16) -> u16 {
    if a >= b {
        a
    } else {
        b
    }
}

/// The widest the popup may be in `area`: two cells less than it, or all of
/// a narrow area (at least one).
pub open spec fn popup_max_width(area: Rect) -> u16 {
    if area.width > 2 {
        (area.width - 2) as u16
    } else {
        max16(area.width, 1)
    }
}

/// The tallest the popup may be in `area`.
pub open spec fn popup_max_height(area: Rect) -> u16 {
    if area.height > 2 {
        (area.height - 2) as u16
    } else {
        max16(area.height, 1)
    }
}

/// The width of the popup for `message` in `area`.
pub open spec fn popup_width(area: Rect, message: Seq<char>) -> u16 {
    let widest = max_of(line_widths(message));
    let text_width = if widest >= hint_width() {
        widest
    } else {
        hint_width() as int
    };
    let desired = sat_add(text_width as u16, horizontal_padding());
    max16(min16(desired, popup_max_width(area)), 3)
}

/// The height of the popup for `message` in `area`.
pub open spec fn popup_height(area: Rect, message: Seq<char>) -> u16 {
    let inner = max16(sat_sub(popup_width(area, message), 2), 1);
    let desired = sat_add(sat_add(wrapped_rows(message, inner), 1), 2);
    max16(min16(desired, popup_max_height(area)), 3)
}

/// The popup for `message`: sized to the text and the hint, within the area
/// but for its border, and centred in it.
pub open spec fn popup_area(area: Rect, message: Seq<char>) -> Rect {
    let width = popup_width(area, message);
    let height = popup_height(area, message);
    Rect {
        x: (area.x + sat_sub(area.width, width) / 2) as u16,
        y: (area.y + sat_sub(area.height, height) / 2) as u16,
        width,
        height,
    }
}

proof fn lemma_pieces_nonempty(s: Seq<char>)
    ensures
        pieces(s).len() >= 1,
    decreases s.len(),
{
    if s.len() > 0 {
        lemma_pieces_nonempty(s.drop_last());
    }
}

/// The widths of the lines of `text` (see `line_widths`).
pub fn line_widths_of(text: &str) -> (w: Vec<usize>)
    ensures
        w@.len() == line_widths(text@).len(),
        forall|i: int| 0 <= i < w@.len() ==> w@[i] as int == #[trigger] line_widths(text@)[i],
{
    let chars = chars_of(text);
    let ghost s = chars@;
    let n = chars.len();
    let mut done: Vec<usize> = Vec::new();
    let mut cur: usize = 0;
    let mut cr = false;
    let mut i: usize = 0;
    proof {
        assert(s.take(0) =~= Seq::<char>::empty());
    }
    while i < n
        invariant
            i <= n == chars.len(),
            s == chars@,
            pieces(s.take(i as int)).len() == done@.len() + 1,
            forall|k: int|
                0 <= k < done@.len() ==> done@[k] as int == #[trigger] strip_cr(
                    pieces(s.take(i as int))[k],
                ).len(),
            cur as int == pieces(s.take(i as int)).last().len(),
            cur <= i,
            cr == (cur > 0 && pieces(s.take(i as int)).last().last() == '\r'),
        decreases n - i,
    {
        let c = chars[i];
        let ghost before = pieces(s.take(i as int));
        proof {
            assert(s.take(i + 1).drop_last() =~= s.take(i as int));
            assert(s.take(i + 1).last() == c);
        }
        if c == '\n' {
            let stripped = if cr {
                cur - 1
            } else {
                cur
            };
            done.push(stripped);
            cur = 0;
            cr = false;
            proof {
                let after = pieces(s.take(i + 1));
                assert(after == before.push(Seq::empty()));
                assert forall|k: int| 0 <= k < done@.len() implies done@[k] as int == #[trigger] strip_cr(
                    after[k],
                ).len() by {
                    if k < done@.len() - 1 {
                        assert(after[k] == before[k]);
                    } else {
                        assert(after[k] == before.last());
                    }
                }
            }
        } else {
            cur = cur + 1;
            cr = c == '\r';
            proof {
                let after = pieces(s.take(i + 1));
                assert(after == before.update(before.len() - 1, before.last().push(c)));
                assert forall|k: int| 0 <= k < done@.len() implies done@[k] as int == #[trigger] strip_cr(
                    after[k],
                ).len() by {
                    assert(after[k] == before[k]);
                }
            }
        }
        i = i + 1;
    }
    proof {
        assert(s.take(n as int) =~= s);
    }
    let ghost p = pieces(s);
    let ghost ended = p.drop_last().map_values(|l: Seq<char>| strip_cr(l));
    if cur > 0 {
        done.push(cur);
    }
    proof {
        let ls = lines(s);
        if cur > 0 {
            assert(ls == ended.push(p.last()));
        } else {
            assert(ls == ended);
        }
        assert(ls.len() == done@.len());
        assert forall|k: int| 0 <= k < done@.len() implies done@[k] as int == #[trigger] line_widths(
            s,
        )[k] by {
            assert(line_widths(s)[k] == ls[k].len());
            if k < ended.len() {
                assert(ls[k] == strip_cr(p[k]));
            }
        }
    }
    done
}

/// The width of the widest line of `text` (0 for no line).
pub fn max_line_width(text: &str) -> (w: usize)
    ensures
        w as int == max_of(line_widths(text@)),
{
    let widths = line_widths_of(text);
    let ghost lw = line_widths(text@);
    let mut m: usize = 0;
    let mut i: usize = 0;
    while i < widths.len()
        invariant
            i <= widths@.len() == lw.len(),
            forall|k: int| 0 <= k < widths@.len() ==> widths@[k] as int == #[trigger] lw[k],
            m as int == max_of(lw.take(i as int)),
        decreases widths@.len() - i,
    {
        proof {
            assert(lw.take(i + 1).drop_last() =~= lw.take(i as int));
            assert(lw.take(i + 1).last() == lw[i as int]);
        }
        if widths[i] > m {
            m = widths[i];
        }
        i = i + 1;
    }
    proof {
        assert(lw.take(widths@.len() as int) =~= lw);
    }
    m
}

/// The rows `text` takes wrapped at `width` (see `wrapped_rows`); the text
/// must not need more rows than a `u16` holds.
pub fn wrapped_line_count(text: &str, width: u16) -> (rows: u16)
    requires
        width == 0 || rows_sum(line_widths(text@), width) <= u16::MAX,
    ensures
        rows == wrapped_rows(text@, width),
{
    if width == 0 {
        return 1;
    }
    let widths = line_widths_of(text);
    let ghost lw = line_widths(text@);
    let mut total: u16 = 0;
    let mut i: usize = 0;
    while i < widths.len()
        invariant
            width > 0,
            i <= widths@.len() == lw.len(),
            forall|k: int| 0 <= k < widths@.len() ==> widths@[k] as int == #[trigger] lw[k],
            total as int == rows_sum(lw.take(i as int), width),
            rows_sum(lw, width) <= u16::MAX,
        decreases widths@.len() - i,
    {
        proof {
            assert(lw.take(i + 1).drop_last() =~= lw.take(i as int));
            assert(lw.take(i + 1).last() == lw[i as int]);
            lemma_rows_sum_prefix(lw, width, i as int + 1);
        }
        let line = if widths[i] > 1 {
            widths[i]
        } else {
            1
        };
        let w = width as usize;
        let q = line / w;
        let full = if line % w == 0 {
            q
        } else {
            proof {
                assert(w >= 2);
                assert(q <= line / 2) by (nonlinear_arith)
                    requires
                        w >= 2,
                        q == line / w,
                ;
            }
            q + 1
        };
        let rows = #[verifier::truncate] (full as u16);
        proof {
            lemma_div_ceil(line as int, w as int);
        }
        total = total + rows;
        i = i + 1;
    }
    proof {
        assert(lw.take(widths@.len() as int) =~= lw);
    }
    if total < 1 {
        1
    } else {
        total
    }
}

proof fn lemma_div_ceil(l: int, w: int)
    requires
        l >= 1,
        w >= 1,
    ensures
        l / w + (if l % w == 0 {
            0int
        } else {
            1int
        }) == (l + w - 1) / w,
{
    assert(l == w * (l / w) + l % w) by (nonlinear_arith)
        requires
            w >= 1,
    ;
    let q = l / w;
    let r = l % w;
    assert(0 <= r < w);
    if r == 0 {
        assert(l + w - 1 == w * q + (w - 1));
        assert((w * q + (w - 1)) / w == q) by (nonlinear_arith)
            requires
                w >= 1,
        ;
    } else {
        assert(l + w - 1 == w * (q + 1) + (r - 1)) by (nonlinear_arith)
            requires
                l == w * q + r,
        ;
        assert((w * (q + 1) + (r - 1)) / w == q + 1) by (nonlinear_arith)
            requires
                w >= 1,
                0 <= r - 1 < w,
        ;
    }
}

proof fn lemma_rows_sum_prefix(w: Seq<int>, width: u16, k: int)
    requires
        0 <= k <= w.len(),
    ensures
        rows_sum(w.take(k), width) <= rows_sum(w, width),
    decreases w.len() - k,
{
    if k < w.len() {
        lemma_rows_sum_prefix(w.drop_last(), width, k);
        assert(w.drop_last().take(k) =~= w.take(k));
    } else {
        assert(w.take(k) =~= w);
    }
}

fn max_popup_width(area: Rect) -> (w: u16)
    ensures
        w == popup_max_width(area),
{
    if area.width > 2 {
        area.width - 2
    } else if area.width >= 1 {
        area.width
    } else {
        1
    }
}

fn max_popup_height(area: Rect) -> (h: u16)
    ensures
        h == popup_max_height(area),
{
    if area.height > 2 {
        area.height - 2
    } else if area.height >= 1 {
        area.height
    } else {
        1
    }
}

/// The area of the popup for `message` in `area` (see `popup_area`). The
/// area's edges must lie within the terminal's coordinates, and the message
/// must not need more rows than a `u16` holds.
pub fn centered_popup_area(area: Rect, message: &str) -> (r: Rect)
    requires
        area.x + area.width <= u16::MAX,
        area.y + area.height <= u16::MAX,
        forall|w: u16| w >= 1 ==> rows_sum(line_widths(message@), w) <= u16::MAX,
    ensures
        r == popup_area(area, message@),
{
    let widest = max_line_width(message);
    let text_width = if widest >= 28 {
        widest
    } else {
        28
    };
    let desired_width = (text_width as u16).saturating_add(4);
    let cap = max_popup_width(area);
    let width0 = if desired_width <= cap {
        desired_width
    } else {
        cap
    };
    let width = if width0 >= 3 {
        width0
    } else {
        3
    };
    let inner0 = width.saturating_sub(2);
    let inner_width = if inner0 >= 1 {
        inner0
    } else {
        1
    };
    let desired_height = wrapped_line_count(message, inner_width).saturating_add(1).saturating_add(
        2,
    );
    let hcap = max_popup_height(area);
    let height0 = if desired_height <= hcap {
        desired_height
    } else {
        hcap
    };
    let height = if height0 >= 3 {
        height0
    } else {
        3
    };
    Rect {
        x: area.x + area.width.saturating_sub(width) / 2,
        y: area.y + area.height.saturating_sub(height) / 2,
        width,
        height,
    }
}

/// The text and visibility of a confirmation popup.
#[derive(Debug, Clone, PartialEq, Eq)]
pub struct PopupWidget {
    pub message: String,
    pub visible: bool,
}

impl PopupWidget {
    /// A hidden popup with `message`.
    pub fn new(message: String) -> (p: PopupWidget)
        ensures
            p.message == message,
            !p.visible,
    {
        PopupWidget { message, visible: false }
    }

    pub fn show(&mut self)
        ensures
            final(self).visible,
            final(self).message == old(self).message,
    {
        self.visible = true;
    }

    pub fn set_hidden(&mut self)
        ensures
            !final(self).visible,
            final(self).message == old(self).message,
    {
        self.visible = false;
    }
}

impl Default for PopupWidget {
    fn default() -> (p: PopupWidget)
        ensures
            p.message@.len() == 0,
            !p.visible,
    {
        PopupWidget { message: String::new(), visible: false }
    }
}

} // verus!
