//! An input for a place: continent, country and city, and two marks.

use vstd::prelude::*;
use crate::domain::Place;
use crate::keys::{KeyCode, KeyEvent};
use crate::widgets::input::InputWidget;

verus! {

#[derive(Debug, Clone, Copy, PartialEq, Eq, Structural)]
pub enum PlaceField {
    Continent,
    Country,
    City,
    Circa,
    Disputed,
}

pub open spec fn next_place_field(f: PlaceField) -> PlaceField {
    match f {
        PlaceField::Continent => PlaceField::Country,
        PlaceField::Country => PlaceField::City,
        PlaceField::City => PlaceField::Circa,
        PlaceField::Circa => PlaceField::Disputed,
        PlaceField::Disputed => PlaceField::Continent,
    }
}

pub open spec fn previous_place_field(f: PlaceField) -> PlaceField {
    match f {
        PlaceField::Continent => PlaceField::Disputed,
        PlaceField::Country => PlaceField::Continent,
        PlaceField::City => PlaceField::Country,
        PlaceField::Circa => PlaceField::City,
        PlaceField::Disputed => PlaceField::Circa,
    }
}

/// The text, or `None` where it is empty.
pub open spec fn nonempty_text(value: Seq<char>) -> Option<Seq<char>> {
    if value.len() == 0 {
        None
    } else {
        Some(value)
    }
}

pub open spec fn option_view(o: Option<String>) -> Option<Seq<char>> {
    match o {
        Some(s) => Some(s@),
        None => None,
    }
}

/// The text of an optional string, empty where missing.
pub open spec fn text_or_empty(o: Option<String>) -> Seq<char> {
    match o {
        Some(s) => s@,
        None => Seq::empty(),
    }
}

/// An input set to show `value`: the text, the cursor after it, no
/// suggestions.
pub open spec fn shows(input: InputWidget, value: Seq<char>) -> bool {
    &&& input.value@ == value
    &&& input.cursor == value.len()
    &&& input.suggestions@.len() == 0
    &&& input.selected_suggestion is None
}

#[derive(Debug, Clone, PartialEq, Eq)]
pub struct PlaceWidget {
    pub continent: InputWidget,
    pub country: InputWidget,
    pub city: InputWidget,
    pub circa: bool,
    pub disputed: bool,
    pub active_field: PlaceField,
}

impl PlaceWidget {
    /// The effect of `key`: Alt+Tab and Tab move between parts; space toggles
    /// the active mark (and nothing in a text part); other characters,
    /// backspace and the arrows go to the active text part (see
    /// `crate::widgets::input::key_handled`).
    pub open spec fn key_handled(self, after: PlaceWidget, key: KeyEvent) -> bool {
        match key.code {
            KeyCode::Tab => after == (PlaceWidget {
                active_field: if key.modifiers.alt {
                    previous_place_field(self.active_field)
                } else {
                    next_place_field(self.active_field)
                },
                ..self
            }),
            KeyCode::Char(' ') => match self.active_field {
                PlaceField::Circa => after == (PlaceWidget { circa: !self.circa, ..self }),
                PlaceField::Disputed => after == (PlaceWidget { disputed: !self.disputed, ..self }),
                _ => after == self,
            },
            KeyCode::Char(_) | KeyCode::Backspace | KeyCode::Up | KeyCode::Down => match self.active_field {
                PlaceField::Continent => crate::widgets::input::key_handled(
                    self.continent,
                    after.continent,
                    key,
                ) && after == (PlaceWidget { continent: after.continent, ..self }),
                PlaceField::Country => crate::widgets::input::key_handled(
                    self.country,
                    after.country,
                    key,
                ) && after == (PlaceWidget { country: after.country, ..self }),
                PlaceField::City => crate::widgets::input::key_handled(self.city, after.city, key)
                    && after == (PlaceWidget { city: after.city, ..self }),
                _ => after == self,
            },
            _ => after == self,
        }
    }

    pub fn new() -> (w: PlaceWidget)
        ensures
            w.continent.is_empty_input() && w.country.is_empty_input() && w.city.is_empty_input(),
            !w.circa && !w.disputed,
            w.active_field == PlaceField::Continent,
    {
        PlaceWidget {
            continent: InputWidget::new(),
            country: InputWidget::new(),
            city: InputWidget::new(),
            circa: false,
            disputed: false,
            active_field: PlaceField::Continent,
        }
    }

    pub fn handle_key(&mut self, key: KeyEvent)
        ensures
            old(self).key_handled(*final(self), key),
    {
        match key.code {
            KeyCode::Tab => {
                if key.modifiers.alt {
                    self.previous_field()
                } else {
                    self.next_field()
                }
            },
            KeyCode::Char(' ') => match self.active_field {
                PlaceField::Circa => self.circa = !self.circa,
                PlaceField::Disputed => self.disputed = !self.disputed,
                _ => {},
            },
            KeyCode::Char(_) | KeyCode::Backspace | KeyCode::Up | KeyCode::Down => {
                match self.active_field {
                    PlaceField::Continent => self.continent.handle_key(key),
                    PlaceField::Country => self.country.handle_key(key),
                    PlaceField::City => self.city.handle_key(key),
                    _ => {},
                }
            },
            _ => {},
        }
    }

    /// The place shown: id 0, each empty text as `None`.
    pub fn value(&self) -> (p: Place)
        ensures
            p.id == 0,
            option_view(p.continent) == nonempty_text(self.continent.value@),
            option_view(p.country) == nonempty_text(self.country.value@),
            option_view(p.city) == nonempty_text(self.city.value@),
            p.circa == self.circa,
            p.disputed == self.disputed,
    {
        Place {
            id: 0,
            continent: value_to_option(self.continent.value.as_str()),
            country: value_to_option(self.country.value.as_str()),
            city: value_to_option(self.city.value.as_str()),
            circa: self.circa,
            disputed: self.disputed,
        }
    }

    /// Shows `place` (missing texts as empty ones); the active part stays.
    pub fn set_value(&mut self, place: Place)
        ensures
            shows(final(self).continent, text_or_empty(place.continent)),
            shows(final(self).country, text_or_empty(place.country)),
            shows(final(self).city, text_or_empty(place.city)),
            final(self).circa == place.circa,
            final(self).disputed == place.disputed,
            final(self).active_field == old(self).active_field,
    {
        set_input_value(&mut self.continent, text_or_empty_of(&place.continent));
        set_input_value(&mut self.country, text_or_empty_of(&place.country));
        set_input_value(&mut self.city, text_or_empty_of(&place.city));
        self.circa = place.circa;
        self.disputed = place.disputed;
    }

    pub fn next_field(&mut self)
        ensures
            *final(self) == (PlaceWidget {
                active_field: next_place_field(old(self).active_field),
                ..*old(self)
            }),
    {
        self.active_field = match self.active_field {
            PlaceField::Continent => PlaceField::Country,
            PlaceField::Country => PlaceField::City,
            PlaceField::City => PlaceField::Circa,
            PlaceField::Circa => PlaceField::Disputed,
            PlaceField::Disputed => PlaceField::Continent,
        };
    }

    pub fn previous_field(&mut self)
        ensures
            *final(self) == (PlaceWidget {
                active_field: previous_place_field(old(self).active_field),
                ..*old(self)
            }),
    {
        self.active_field = match self.active_field {
            PlaceField::Continent => PlaceField::Disputed,
            PlaceField::Country => PlaceField::Continent,
            PlaceField::City => PlaceField::Country,
            PlaceField::Circa => PlaceField::City,
            PlaceField::Disputed => PlaceField::Circa,
        };
    }
}

impl Default for PlaceWidget {
    fn default() -> (w: PlaceWidget)
        ensures
            w.active_field == PlaceField::Continent,
            !w.circa && !w.disputed,
    {
        PlaceWidget::new()
    }
}

fn text_or_empty_of(o: &Option<String>) -> (s: &str)
    ensures
        s@ == text_or_empty(*o),
{
    match o {
        Some(s) => s.as_str(),
        None => {
            proof {
                reveal_strlit("");
            }
            ""
        },
    }
}

/// The text, or `None` where it is empty.
pub fn value_to_option(value: &str) -> (r: Option<String>)
    ensures
        option_view(r) == nonempty_text(value@),
{
    if value.is_empty() {
        None
    } else {
        Some(value.to_string())
    }
}

/// Sets `input` to show `value` (see `shows`).
pub fn set_input_value(input: &mut InputWidget, value: &str)
    ensures
        shows(*final(input), value@),
{
    input.value = value.to_string();
    input.cursor = input.value.as_str().unicode_len();
    input.suggestions = Vec::new();
    input.selected_suggestion = None;
}


/// What `set_value` shows reads back as the place (with id 0), where none
/// of its texts is empty.
pub proof fn lemma_shown_place_reads_back(place: Place)
    requires
        place.continent matches Some(s) ==> s@.len() > 0,
        place.country matches Some(s) ==> s@.len() > 0,
        place.city matches Some(s) ==> s@.len() > 0,
    ensures
        nonempty_text(text_or_empty(place.continent)) == option_view(place.continent),
        nonempty_text(text_or_empty(place.country)) == option_view(place.country),
        nonempty_text(text_or_empty(place.city)) == option_view(place.city),
{
}

/// The text of a mark: its label and `[x]` where set, `[ ]` where not.
pub fn checkbox_text(label: &str, checked: bool) -> (r: String)
    ensures
        r@ == label@ + ": ["@ + (if checked {
            "x"@
        } else {
            " "@
        }) + "]"@,
{
    let mut r = String::new();
    r.append(label);
    r.append(": [");
    if checked {
        r.append("x");
    } else {
        r.append(" ");
    }
    r.append("]");
    r
}
} // verus!
