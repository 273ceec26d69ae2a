//! A one-line text input with a list of suggestions under it.

use vstd::prelude::*;
use crate::keys::{KeyCode, KeyEvent};
use crate::text::{chars_of, string_of};

verus! {

/// Text typed so far, the cursor after it, and suggestions of which one may
/// be selected.
#[derive(Debug, Clone, PartialEq, Eq)]
pub struct InputWidget {
    pub value: String,
    pub cursor: usize,
    pub suggestions: Vec<String>,
    pub selected_suggestion: Option<usize>,
}

/// The selection after moving up in a list of `n` suggestions: one step up,
/// stopping at the first; the last one where nothing was selected.
pub open spec fn selection_up(selected: Option<usize>, n: nat) -> Option<usize> {
    if n == 0 {
        None
    } else {
        Some(
            match selected {
                Some(index) => if index == 0 {
                    0usize
                } else {
                    (index - 1) as usize
                },
                None => (n - 1) as usize,
            },
        )
    }
}

/// The selection after moving down in a list of `n` suggestions: one step
/// down, stopping at the last; the first one where nothing was selected.
pub open spec fn selection_down(selected: Option<usize>, n: nat) -> Option<usize> {
    if n == 0 {
        None
    } else {
        Some(
            match selected {
                Some(index) => if index + 1 <= n - 1 {
                    (index + 1) as usize
                } else {
                    (n - 1) as usize
                },
                None => 0usize,
            },
        )
    }
}

/// The selection kept when the suggestions are replaced by `n` new ones:
/// none in an empty list, else the old one moved onto the list.
pub open spec fn selection_kept(selected: Option<usize>, n: nat) -> Option<usize> {
    if n == 0 {
        None
    } else {
        match selected {
            Some(index) => Some(
                if index <= n - 1 {
                    index
                } else {
                    (n - 1) as usize
                },
            ),
            None => None,
        }
    }
}

/// How a key press changes an input (see `InputWidget::handle_key`).
pub open spec fn key_handled(before: InputWidget, after: InputWidget, key: KeyEvent) -> bool {
    match key.code {
        KeyCode::Char(c) => {
            &&& after.value@ == before.value@.push(c)
            &&& after.cursor == after.value@.len()
            &&& after.suggestions == before.suggestions
            &&& after.selected_suggestion is None
        },
        KeyCode::Backspace => {
            &&& after.value@ == (if before.value@.len() == 0 {
                before.value@
            } else {
                before.value@.drop_last()
            })
            &&& after.cursor == after.value@.len()
            &&& after.suggestions == before.suggestions
            &&& after.selected_suggestion == before.selected_suggestion
        },
        KeyCode::Up => {
            &&& after.value == before.value
            &&& after.cursor == before.cursor
            &&& after.suggestions == before.suggestions
            &&& after.selected_suggestion == selection_up(
                before.selected_suggestion,
                before.suggestions@.len(),
            )
        },
        KeyCode::Down => {
            &&& after.value == before.value
            &&& after.cursor == before.cursor
            &&& after.suggestions == before.suggestions
            &&& after.selected_suggestion == selection_down(
                before.selected_suggestion,
                before.suggestions@.len(),
            )
        },
        _ => after == before,
    }
}

impl InputWidget {
    /// What `accept` gives: the selected suggestion where one in the list
    /// is selected, else the typed text.
    pub open spec fn accepted(&self) -> Seq<char> {
        match self.selected_suggestion {
            Some(index) => if index < self.suggestions@.len() {
                self.suggestions@[index as int]@
            } else {
                self.value@
            },
            None => self.value@,
        }
    }

    /// An empty input: no text, no suggestions, nothing selected.
    pub open spec fn is_empty_input(&self) -> bool {
        &&& self.value@.len() == 0
        &&& self.cursor == 0
        &&& self.suggestions@.len() == 0
        &&& self.selected_suggestion is None
    }

    pub fn new() -> (w: InputWidget)
        ensures
            w.is_empty_input(),
    {
        InputWidget {
            value: String::new(),
            cursor: 0,
            suggestions: Vec::new(),
            selected_suggestion: None,
        }
    }

    /// Routes a key: characters, backspace, up and down; other keys do nothing.
    pub fn handle_key(&mut self, key: KeyEvent)
        ensures
            key_handled(*old(self), *final(self), key),
    {
        match key.code {
            KeyCode::Char(c) => self.handle_char(c),
            KeyCode::Backspace => self.handle_backspace(),
            KeyCode::Up => self.handle_up(),
            KeyCode::Down => self.handle_down(),
            _ => {},
        }
    }

    /// Appends `c`, moves the cursor to the end and drops the selection.
    pub fn handle_char(&mut self, c: char)
        ensures
            final(self).value@ == old(self).value@.push(c),
            final(self).cursor == final(self).value@.len(),
            final(self).suggestions == old(self).suggestions,
            final(self).selected_suggestion is None,
    {
        let mut chars = chars_of(self.value.as_str());
        chars.push(c);
        self.value = string_of(&chars);
        self.cursor = self.value.as_str().unicode_len();
        self.selected_suggestion = None;
    }

    /// Removes the last character, if any, and moves the cursor to the end.
    pub fn handle_backspace(&mut self)
        ensures
            final(self).value@ == (if old(self).value@.len() == 0 {
                old(self).value@
            } else {
                old(self).value@.drop_last()
            }),
            final(self).cursor == final(self).value@.len(),
            final(self).suggestions == old(self).suggestions,
            final(self).selected_suggestion == old(self).selected_suggestion,
    {
        let mut chars = chars_of(self.value.as_str());
        if chars.len() > 0 {
            chars.pop();
            self.value = string_of(&chars);
        }
        self.cursor = self.value.as_str().unicode_len();
    }

    /// Moves the selection one suggestion up (see `selection_up`).
    pub fn handle_up(&mut self)
        ensures
            final(self).value == old(self).value,
            final(self).cursor == old(self).cursor,
            final(self).suggestions == old(self).suggestions,
            final(self).selected_suggestion == selection_up(
                old(self).selected_suggestion,
                old(self).suggestions@.len(),
            ),
    {
        if self.suggestions.len() == 0 {
            self.selected_suggestion = None;
            return;
        }
        self.selected_suggestion = Some(
            match self.selected_suggestion {
                Some(index) => index.saturating_sub(1),
                None => self.suggestions.len() - 1,
            },
        );
    }

    /// Moves the selection one suggestion down (see `selection_down`).
    pub fn handle_down(&mut self)
        ensures
            final(self).value == old(self).value,
            final(self).cursor == old(self).cursor,
            final(self).suggestions == old(self).suggestions,
            final(self).selected_suggestion == selection_down(
                old(self).selected_suggestion,
                old(self).suggestions@.len(),
            ),
    {
        if self.suggestions.len() == 0 {
            self.selected_suggestion = None;
            return;
        }
        let last_index = self.suggestions.len() - 1;
        self.selected_suggestion = Some(
            match self.selected_suggestion {
                Some(index) => if index < last_index {
                    index + 1
                } else {
                    last_index
                },
                None => 0,
            },
        );
    }

    /// Gives the selected suggestion (or the typed text) and empties the input.
    pub fn accept(&mut self) -> (accepted: String)
        ensures
            accepted@ == old(self).accepted(),
            final(self).is_empty_input(),
    {
        let accepted = match self.selected_suggestion {
            Some(index) => if index < self.suggestions.len() {
                self.suggestions[index].clone()
            } else {
                self.value.clone()
            },
            None => self.value.clone(),
        };
        self.clear();
        accepted
    }

    /// Empties the input: text, cursor, suggestions and selection.
    pub fn clear(&mut self)
        ensures
            final(self).is_empty_input(),
    {
        self.value = String::new();
        self.cursor = 0;
        self.suggestions = Vec::new();
        self.selected_suggestion = None;
    }

    /// Replaces the suggestions, keeping the selection on the new list
    /// (see `selection_kept`).
    pub fn set_suggestions(&mut self, suggestions: Vec<String>)
        ensures
            final(self).value == old(self).value,
            final(self).cursor == old(self).cursor,
            final(self).suggestions@ == suggestions@,
            final(self).selected_suggestion == selection_kept(
                old(self).selected_suggestion,
                suggestions@.len(),
            ),
    {
        self.suggestions = suggestions;
        self.selected_suggestion = if self.suggestions.len() == 0 {
            None
        } else {
            match self.selected_suggestion {
                Some(index) => {
                    let last = self.suggestions.len() - 1;
                    Some(
                        if index <= last {
                            index
                        } else {
                            last
                        },
                    )
                },
                None => None,
            }
        };
    }

    /// Closes the list of suggestions, keeping the typed text; tells whether
    /// there was a list or a selection to close.
    pub fn dismiss_suggestions(&mut self) -> (dismissed: bool)
        ensures
            dismissed == (old(self).suggestions@.len() > 0 || old(self).selected_suggestion is Some),
            final(self).value == old(self).value,
            final(self).cursor == old(self).cursor,
            final(self).suggestions@.len() == 0,
            final(self).selected_suggestion is None,
    {
        let dismissed = self.suggestions.len() > 0 || self.selected_suggestion.is_some();
        self.suggestions = Vec::new();
        self.selected_suggestion = None;
        dismissed
    }
}

/// Whether the selection, where there is one, names a suggestion of `w`.
pub open spec fn selection_in_list(w: InputWidget) -> bool {
    match w.selected_suggestion {
        Some(index) => index < w.suggestions@.len(),
        None => true,
    }
}

/// No key moves the selection off the list of suggestions: moving up or
/// down stops at its ends.
pub proof fn lemma_key_keeps_selection_in_list(before: InputWidget, after: InputWidget, key: KeyEvent)
    requires
        selection_in_list(before),
        key_handled(before, after, key),
    ensures
        selection_in_list(after),
{
}

/// Replacing the suggestions keeps the selection within the new list.
pub proof fn lemma_kept_selection_in_list(selected: Option<usize>, n: nat)
    ensures
        match selection_kept(selected, n) {
            Some(index) => index < n,
            None => true,
        },
{
}

impl Default for InputWidget {
    fn default() -> (w: InputWidget)
        ensures
            w.is_empty_input(),
    {
        InputWidget::new()
    }
}


/// Where the cursor shows in an input drawn in `area`: after the text,
/// inside the border where there is room for one, within the box.
pub fn input_cursor(area: crate::widgets::popup::Rect, cursor: usize) -> (r: (u16, u16))
    requires
        area.x + area.width <= u16::MAX,
        area.y + area.height <= u16::MAX,
    ensures
        r.0 == (if area.width > 2 {
            area.x + 1 + (if cursor <= area.width - 2 {
                cursor as int
            } else {
                area.width - 2
            })
        } else {
            area.x as int
        }),
        r.1 == (if area.height > 2 {
            area.y + 1
        } else {
            area.y as int
        }),
{
    let x = if area.width > 2 {
        let inner = area.width - 2;
        let visible: u16 = if cursor <= inner as usize {
            cursor as u16
        } else {
            inner
        };
        area.x + 1 + visible
    } else {
        area.x
    };
    let y = if area.height > 2 {
        area.y + 1
    } else {
        area.y
    };
    (x, y)
}

/// Where the list of `count` suggestions shows under an input drawn in
/// `area` (which takes at most three rows): the full width, up to two rows
/// more than the list, as many as are left; nowhere where there is no
/// suggestion or no row left.
pub fn suggestions_area(area: crate::widgets::popup::Rect, count: usize) -> (r: Option<
    crate::widgets::popup::Rect,
>)
    requires
        count + 2 <= u16::MAX,
        area.y + area.height <= u16::MAX,
    ensures
        ({
            let input_height = if area.height <= 3 {
                area.height as int
            } else {
                3
            };
            let left = area.height - input_height;
            if count == 0 || left == 0 || area.width == 0 || input_height == 0 {
                r is None
            } else {
                r == Some(
                    crate::widgets::popup::Rect {
                        x: area.x,
                        y: (area.y + input_height) as u16,
                        width: area.width,
                        height: (if count + 2 <= left {
                            count + 2
                        } else {
                            left
                        }) as u16,
                    },
                )
            }
        }),
{
    let input_height: u16 = if area.height <= 3 {
        area.height
    } else {
        3
    };
    let left = area.height - input_height;
    if count == 0 || left == 0 || area.width == 0 || input_height == 0 {
        return None;
    }
    let wanted = count as u16 + 2;
    let height = if wanted <= left {
        wanted
    } else {
        left
    };
    Some(
        crate::widgets::popup::Rect {
            x: area.x,
            y: area.y + input_height,
            width: area.width,
            height,
        },
    )
}
} // verus!
