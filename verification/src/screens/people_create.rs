//! The form that creates a person: names, dates, biography, and lists of
//! aliases, places and languages.

use vstd::prelude::*;
use crate::domain::{date_to_opt, known_date, PartialDate, Person};
use crate::keys::{KeyCode, KeyEvent};
use crate::numbers::{digits_of, digits_text};
use crate::screens::form::{
    collection_text_summary, empty_mark, empty_mark_text, is_save_key, language_key, last_replaced, popped, suggestions_closed,
    summary,
};
use crate::text::{string_of, trim, trim_to_option_str, trimmed, trimmed_option, views};
use crate::widgets::input::{key_handled, InputWidget};
use crate::widgets::language::LanguageWidget;
use crate::widgets::partial_date::{PartialDateField, PartialDateWidget};
use crate::widgets::place::{option_view, PlaceWidget};

verus! {

/// The fields of the form, in the order Tab and Enter visit them.
#[derive(Debug, Clone, Copy, PartialEq, Eq, Structural)]
pub enum PersonField {
    Name,
    GivenName,
    Surname,
    DisplayName,
    MiddleNames,
    Title,
    Suffix,
    BirthDate,
    DeathDate,
    Biography,
    Aliases,
    Places,
    Languages,
}

/// The field after `f`; after the last comes the first.
pub open spec fn next_person_field(f: PersonField) -> PersonField {
    match f {
        PersonField::Name => PersonField::GivenName,
        PersonField::GivenName => PersonField::Surname,
        PersonField::Surname => PersonField::DisplayName,
        PersonField::DisplayName => PersonField::MiddleNames,
        PersonField::MiddleNames => PersonField::Title,
        PersonField::Title => PersonField::Suffix,
        PersonField::Suffix => PersonField::BirthDate,
        PersonField::BirthDate => PersonField::DeathDate,
        PersonField::DeathDate => PersonField::Biography,
        PersonField::Biography => PersonField::Aliases,
        PersonField::Aliases => PersonField::Places,
        PersonField::Places => PersonField::Languages,
        PersonField::Languages => PersonField::Name,
    }
}

/// The field before `f`; before the first comes the last.
pub open spec fn previous_person_field(f: PersonField) -> PersonField {
    match f {
        PersonField::Name => PersonField::Languages,
        PersonField::GivenName => PersonField::Name,
        PersonField::Surname => PersonField::GivenName,
        PersonField::DisplayName => PersonField::Surname,
        PersonField::MiddleNames => PersonField::DisplayName,
        PersonField::Title => PersonField::MiddleNames,
        PersonField::Suffix => PersonField::Title,
        PersonField::BirthDate => PersonField::Suffix,
        PersonField::DeathDate => PersonField::BirthDate,
        PersonField::Biography => PersonField::DeathDate,
        PersonField::Aliases => PersonField::Biography,
        PersonField::Places => PersonField::Aliases,
        PersonField::Languages => PersonField::Places,
    }
}

/// What a key press asks of the caller.
#[derive(Debug, Clone, PartialEq, Eq)]
pub enum PersonCreateAction {
    Nothing,
    Submit(PersonDraft),
    Cancel,
}

/// What the form holds when it is saved.
#[derive(Debug, Clone, PartialEq, Eq)]
pub struct PersonDraft {
    pub name: String,
    pub display_name: Option<String>,
    pub given_name: Option<String>,
    pub surname: Option<String>,
    pub middle_names: Option<String>,
    pub title: Option<String>,
    pub suffix: Option<String>,
    pub birth_date: Option<PartialDate>,
    pub death_date: Option<PartialDate>,
    pub biography: Option<String>,
}

/// The form: the active field, an input per text field, the two dates, and
/// the lists of aliases, places and languages.
#[derive(Debug, Clone, PartialEq, Eq)]
pub struct PersonCreateScreen {
    pub active_field: PersonField,
    pub name: InputWidget,
    pub given_name: InputWidget,
    pub surname: InputWidget,
    pub display_name: InputWidget,
    pub middle_names: InputWidget,
    pub title: InputWidget,
    pub suffix: InputWidget,
    pub birth_date: PartialDateWidget,
    pub death_date: PartialDateWidget,
    pub biography: InputWidget,
    pub aliases: Vec<InputWidget>,
    pub places: Vec<PlaceWidget>,
    pub languages: Vec<LanguageWidget>,
}

/// An empty date on the year part.
pub open spec fn empty_date(w: PartialDateWidget) -> bool {
    &&& w.date().is_unknown()
    &&& w.active_field == PartialDateField::Year
    &&& w.year_input@.len() == 0
    &&& w.month_input@.len() == 0
    &&& w.day_input@.len() == 0
}

/// A new place: all parts empty, not marked, on the continent.
pub open spec fn fresh_place(w: PlaceWidget) -> bool {
    &&& w.continent.is_empty_input()
    &&& w.country.is_empty_input()
    &&& w.city.is_empty_input()
    &&& !w.circa
    &&& !w.disputed
    &&& w.active_field == crate::widgets::place::PlaceField::Continent
}

/// A new language: its input empty, nothing suggested or selected.
pub open spec fn fresh_language(l: LanguageWidget) -> bool {
    &&& l.input.is_empty_input()
    &&& l.selected is None
    &&& l.suggestions@.len() == 0
}

impl PersonCreateScreen {
    /// An empty form on the name.
    pub open spec fn is_empty_form(self) -> bool {
        &&& self.active_field == PersonField::Name
        &&& self.name.is_empty_input()
        &&& self.given_name.is_empty_input()
        &&& self.surname.is_empty_input()
        &&& self.display_name.is_empty_input()
        &&& self.middle_names.is_empty_input()
        &&& self.title.is_empty_input()
        &&& self.suffix.is_empty_input()
        &&& empty_date(self.birth_date)
        &&& empty_date(self.death_date)
        &&& self.biography.is_empty_input()
        &&& self.aliases@.len() == 0
        &&& self.places@.len() == 0
        &&& self.languages@.len() == 0
    }

    /// `d` is what the form holds: the trimmed name, each other text trimmed
    /// unless blank, and each date unless no part of it is known.
    pub open spec fn is_draft(self, d: PersonDraft) -> bool {
        &&& d.name@ == trimmed(self.name.value@)
        &&& option_view(d.display_name) == trimmed_option(self.display_name.value@)
        &&& option_view(d.given_name) == trimmed_option(self.given_name.value@)
        &&& option_view(d.surname) == trimmed_option(self.surname.value@)
        &&& option_view(d.middle_names) == trimmed_option(self.middle_names.value@)
        &&& option_view(d.title) == trimmed_option(self.title.value@)
        &&& option_view(d.suffix) == trimmed_option(self.suffix.value@)
        &&& d.birth_date == known_date(self.birth_date.date())
        &&& d.death_date == known_date(self.death_date.date())
        &&& option_view(d.biography) == trimmed_option(self.biography.value@)
    }

    /// `p` is the new person (id 0, not verified) that the form describes.
    pub open spec fn is_person(self, p: Person) -> bool {
        &&& p.id == 0
        &&& p.name@ == trimmed(self.name.value@)
        &&& option_view(p.display_name) == trimmed_option(self.display_name.value@)
        &&& option_view(p.given_name) == trimmed_option(self.given_name.value@)
        &&& option_view(p.surname) == trimmed_option(self.surname.value@)
        &&& option_view(p.middle_names) == trimmed_option(self.middle_names.value@)
        &&& option_view(p.title) == trimmed_option(self.title.value@)
        &&& option_view(p.suffix) == trimmed_option(self.suffix.value@)
        &&& p.birth_date == known_date(self.birth_date.date())
        &&& p.death_date == known_date(self.death_date.date())
        &&& option_view(p.biography) == trimmed_option(self.biography.value@)
        &&& !p.verified
    }

    /// Whether Esc is taken by the field being edited, rather than closing
    /// the form: a date away from its year goes back to it, open language
    /// suggestions are closed.
    pub open spec fn escape_consumed(self) -> bool {
        match self.active_field {
            PersonField::BirthDate => self.birth_date.active_field != PartialDateField::Year,
            PersonField::DeathDate => self.death_date.active_field != PartialDateField::Year,
            PersonField::Languages => self.languages@.len() > 0 && (
            self.languages@.last().input.suggestions@.len() > 0
                || self.languages@.last().input.selected_suggestion is Some),
            _ => false,
        }
    }

    /// How Esc changes the form (see `escape_consumed`).
    pub open spec fn escaped(self, after: Self) -> bool {
        match self.active_field {
            PersonField::BirthDate => if self.birth_date.active_field != PartialDateField::Year {
                after == (PersonCreateScreen {
                    birth_date: PartialDateWidget {
                        active_field: PartialDateField::Year,
                        ..self.birth_date
                    },
                    ..self
                })
            } else {
                after == self
            },
            PersonField::DeathDate => if self.death_date.active_field != PartialDateField::Year {
                after == (PersonCreateScreen {
                    death_date: PartialDateWidget {
                        active_field: PartialDateField::Year,
                        ..self.death_date
                    },
                    ..self
                })
            } else {
                after == self
            },
            PersonField::Languages => if self.languages@.len() > 0 {
                &&& after == (PersonCreateScreen { languages: after.languages, ..self })
                &&& last_replaced(self.languages@, after.languages@)
                &&& suggestions_closed(self.languages@.last(), after.languages@.last())
            } else {
                after == self
            },
            _ => after == self,
        }
    }

    /// A key on a text field goes to its input.
    pub open spec fn text_key(self, after: Self, key: KeyEvent) -> bool {
        match self.active_field {
            PersonField::Name => after == (PersonCreateScreen { name: after.name, ..self })
                && key_handled(self.name, after.name, key),
            PersonField::GivenName => after == (PersonCreateScreen {
                given_name: after.given_name,
                ..self
            }) && key_handled(self.given_name, after.given_name, key),
            PersonField::Surname => after == (PersonCreateScreen {
                surname: after.surname,
                ..self
            }) && key_handled(self.surname, after.surname, key),
            PersonField::DisplayName => after == (PersonCreateScreen {
                display_name: after.display_name,
                ..self
            }) && key_handled(self.display_name, after.display_name, key),
            PersonField::MiddleNames => after == (PersonCreateScreen {
                middle_names: after.middle_names,
                ..self
            }) && key_handled(self.middle_names, after.middle_names, key),
            PersonField::Title => after == (PersonCreateScreen { title: after.title, ..self })
                && key_handled(self.title, after.title, key),
            PersonField::Suffix => after == (PersonCreateScreen { suffix: after.suffix, ..self })
                && key_handled(self.suffix, after.suffix, key),
            PersonField::Biography => after == (PersonCreateScreen {
                biography: after.biography,
                ..self
            }) && key_handled(self.biography, after.biography, key),
            _ => after == self,
        }
    }

    /// A key on a list field: n adds an entry, d or Delete removes the
    /// last, other keys go to the last entry.
    pub open spec fn list_key(self, after: Self, key: KeyEvent) -> bool {
        let adds = key.code == KeyCode::Char('n');
        let removes = key.code == KeyCode::Char('d') || key.code == KeyCode::Delete;
        match self.active_field {
            PersonField::Aliases => {
                &&& after == (PersonCreateScreen { aliases: after.aliases, ..self })
                &&& if adds {
                    &&& after.aliases@.len() == self.aliases@.len() + 1
                    &&& after.aliases@.drop_last() == self.aliases@
                    &&& after.aliases@.last().is_empty_input()
                } else if removes {
                    after.aliases@ == popped(self.aliases@)
                } else if self.aliases@.len() > 0 {
                    last_replaced(self.aliases@, after.aliases@) && key_handled(
                        self.aliases@.last(),
                        after.aliases@.last(),
                        key,
                    )
                } else {
                    after.aliases == self.aliases
                }
            },
            PersonField::Places => {
                &&& after == (PersonCreateScreen { places: after.places, ..self })
                &&& if adds {
                    &&& after.places@.len() == self.places@.len() + 1
                    &&& after.places@.drop_last() == self.places@
                    &&& fresh_place(after.places@.last())
                } else if removes {
                    after.places@ == popped(self.places@)
                } else if self.places@.len() > 0 {
                    last_replaced(self.places@, after.places@)
                        && self.places@.last().key_handled(after.places@.last(), key)
                } else {
                    after.places == self.places
                }
            },
            PersonField::Languages => {
                &&& after == (PersonCreateScreen { languages: after.languages, ..self })
                &&& if adds {
                    &&& after.languages@.len() == self.languages@.len() + 1
                    &&& after.languages@.drop_last() == self.languages@
                    &&& fresh_language(after.languages@.last())
                } else if removes {
                    after.languages@ == popped(self.languages@)
                } else if self.languages@.len() > 0 {
                    last_replaced(self.languages@, after.languages@) && language_key(
                        self.languages@.last(),
                        after.languages@.last(),
                        key,
                    )
                } else {
                    after.languages == self.languages
                }
            },
            _ => after == self,
        }
    }

    /// How a key changes the form, and what it asks of the caller. Esc
    /// closes the field's popup (see `escape_consumed`) or else cancels;
    /// Ctrl+S submits the draft; Enter moves to the next field; on a date
    /// every other key goes to the date (Tab included); elsewhere Tab and
    /// BackTab move between fields and other keys go to the field.
    pub open spec fn key_step(self, after: Self, key: KeyEvent, action: PersonCreateAction) -> bool {
        if key.code == KeyCode::Esc {
            &&& self.escaped(after)
            &&& action == (if self.escape_consumed() {
                PersonCreateAction::Nothing
            } else {
                PersonCreateAction::Cancel
            })
        } else if is_save_key(key) {
            after == self && (action matches PersonCreateAction::Submit(d) && self.is_draft(d))
        } else {
            &&& action is Nothing
            &&& if key.code == KeyCode::Enter {
                after == (PersonCreateScreen {
                    active_field: next_person_field(self.active_field),
                    ..self
                })
            } else if self.active_field == PersonField::BirthDate {
                after == (PersonCreateScreen { birth_date: after.birth_date, ..self })
                    && self.birth_date.key_handled(after.birth_date, key)
            } else if self.active_field == PersonField::DeathDate {
                after == (PersonCreateScreen { death_date: after.death_date, ..self })
                    && self.death_date.key_handled(after.death_date, key)
            } else if key.code == KeyCode::Tab {
                after == (PersonCreateScreen {
                    active_field: next_person_field(self.active_field),
                    ..self
                })
            } else if key.code == KeyCode::BackTab {
                after == (PersonCreateScreen {
                    active_field: previous_person_field(self.active_field),
                    ..self
                })
            } else if self.active_field == PersonField::Aliases || self.active_field
                == PersonField::Places || self.active_field == PersonField::Languages {
                self.list_key(after, key)
            } else {
                self.text_key(after, key)
            }
        }
    }
}


impl PersonCreateScreen {
    pub fn new() -> (s: PersonCreateScreen)
        ensures
            s.is_empty_form(),
    {
        PersonCreateScreen {
            active_field: PersonField::Name,
            name: InputWidget::new(),
            given_name: InputWidget::new(),
            surname: InputWidget::new(),
            display_name: InputWidget::new(),
            middle_names: InputWidget::new(),
            title: InputWidget::new(),
            suffix: InputWidget::new(),
            birth_date: PartialDateWidget::new(),
            death_date: PartialDateWidget::new(),
            biography: InputWidget::new(),
            aliases: Vec::new(),
            places: Vec::new(),
            languages: Vec::new(),
        }
    }

    pub fn handle_key(&mut self, key: KeyEvent) -> (action: PersonCreateAction)
        ensures
            old(self).key_step(*final(self), key, action),
    {
        if key.code == KeyCode::Esc {
            if self.handle_escape() {
                return PersonCreateAction::Nothing;
            }
            return PersonCreateAction::Cancel;
        }
        if key.code == KeyCode::Char('s') && key.modifiers.control {
            return PersonCreateAction::Submit(self.to_draft());
        }
        if key.code == KeyCode::Enter {
            self.next_field();
            return PersonCreateAction::Nothing;
        }
        if self.active_field == PersonField::BirthDate {
            self.birth_date.handle_key(key);
            return PersonCreateAction::Nothing;
        }
        if self.active_field == PersonField::DeathDate {
            self.death_date.handle_key(key);
            return PersonCreateAction::Nothing;
        }
        if key.code == KeyCode::Tab {
            self.next_field();
            return PersonCreateAction::Nothing;
        }
        if key.code == KeyCode::BackTab {
            self.previous_field();
            return PersonCreateAction::Nothing;
        }
        match self.active_field {
            PersonField::Name => self.name.handle_key(key),
            PersonField::GivenName => self.given_name.handle_key(key),
            PersonField::Surname => self.surname.handle_key(key),
            PersonField::DisplayName => self.display_name.handle_key(key),
            PersonField::MiddleNames => self.middle_names.handle_key(key),
            PersonField::Title => self.title.handle_key(key),
            PersonField::Suffix => self.suffix.handle_key(key),
            PersonField::Biography => self.biography.handle_key(key),
            PersonField::Aliases => self.handle_alias_key(key),
            PersonField::Places => self.handle_place_key(key),
            PersonField::Languages => self.handle_language_key(key),
            PersonField::BirthDate | PersonField::DeathDate => {},
        }
        PersonCreateAction::Nothing
    }

    fn handle_alias_key(&mut self, key: KeyEvent)
        requires
            old(self).active_field == PersonField::Aliases,
        ensures
            old(self).list_key(*final(self), key),
    {
        if key.code == KeyCode::Char('n') {
            self.aliases.push(InputWidget::new());
            proof {
                assert(self.aliases@.drop_last() =~= old(self).aliases@);
            }
        } else if key.code == KeyCode::Char('d') || key.code == KeyCode::Delete {
            if self.aliases.len() > 0 {
                self.aliases.pop();
            }
        } else if self.aliases.len() > 0 {
            match self.aliases.pop() {
                Some(mut last) => {
                    last.handle_key(key);
                    self.aliases.push(last);
                    proof {
                        assert(self.aliases@.drop_last() =~= old(self).aliases@.drop_last());
                    }
                },
                None => {},
            }
        }
    }

    fn handle_place_key(&mut self, key: KeyEvent)
        requires
            old(self).active_field == PersonField::Places,
        ensures
            old(self).list_key(*final(self), key),
    {
        if key.code == KeyCode::Char('n') {
            self.places.push(PlaceWidget::new());
            proof {
                assert(self.places@.drop_last() =~= old(self).places@);
            }
        } else if key.code == KeyCode::Char('d') || key.code == KeyCode::Delete {
            if self.places.len() > 0 {
                self.places.pop();
            }
        } else if self.places.len() > 0 {
            match self.places.pop() {
                Some(mut last) => {
                    last.handle_key(key);
                    self.places.push(last);
                    proof {
                        assert(self.places@.drop_last() =~= old(self).places@.drop_last());
                    }
                },
                None => {},
            }
        }
    }

    fn handle_language_key(&mut self, key: KeyEvent)
        requires
            old(self).active_field == PersonField::Languages,
        ensures
            old(self).list_key(*final(self), key),
    {
        if key.code == KeyCode::Char('n') {
            self.languages.push(LanguageWidget::new());
            proof {
                assert(self.languages@.drop_last() =~= old(self).languages@);
            }
        } else if key.code == KeyCode::Char('d') || key.code == KeyCode::Delete {
            if self.languages.len() > 0 {
                self.languages.pop();
            }
        } else if self.languages.len() > 0 {
            match self.languages.pop() {
                Some(mut last) => {
                    last.handle_key(key);
                    self.languages.push(last);
                    proof {
                        assert(self.languages@.drop_last() =~= old(self).languages@.drop_last());
                    }
                },
                None => {},
            }
        }
    }

    /// Whether Esc is taken, and how it changes the form (see
    /// `escape_consumed`).
    pub fn handle_escape(&mut self) -> (consumed: bool)
        ensures
            consumed == old(self).escape_consumed(),
            old(self).escaped(*final(self)),
    {
        match self.active_field {
            PersonField::BirthDate => {
                if self.birth_date.active_field != PartialDateField::Year {
                    self.birth_date.active_field = PartialDateField::Year;
                    true
                } else {
                    false
                }
            },
            PersonField::DeathDate => {
                if self.death_date.active_field != PartialDateField::Year {
                    self.death_date.active_field = PartialDateField::Year;
                    true
                } else {
                    false
                }
            },
            PersonField::Languages => if self.languages.len() == 0 {
                false
            } else {
                match self.languages.pop() {
                    Some(mut language) => {
                        let dismissed = language.input.dismiss_suggestions();
                        self.languages.push(language);
                        proof {
                            assert(self.languages@.drop_last() =~= old(
                                self,
                            ).languages@.drop_last());
                        }
                        dismissed
                    },
                    None => false,
                }
            },
            _ => false,
        }
    }

    /// What the form holds (see `is_draft`).
    pub fn to_draft(&self) -> (d: PersonDraft)
        ensures
            self.is_draft(d),
    {
        PersonDraft {
            name: trim(self.name.value.as_str()),
            display_name: trim_to_option_str(self.display_name.value.as_str()),
            given_name: trim_to_option_str(self.given_name.value.as_str()),
            surname: trim_to_option_str(self.surname.value.as_str()),
            middle_names: trim_to_option_str(self.middle_names.value.as_str()),
            title: trim_to_option_str(self.title.value.as_str()),
            suffix: trim_to_option_str(self.suffix.value.as_str()),
            birth_date: date_to_opt(self.birth_date.value()),
            death_date: date_to_opt(self.death_date.value()),
            biography: trim_to_option_str(self.biography.value.as_str()),
        }
    }

    /// The new person, or `None` where the trimmed name is empty.
    pub fn to_person(&self) -> (p: Option<Person>)
        ensures
            match p {
                Some(p) => trimmed(self.name.value@).len() > 0 && self.is_person(p),
                None => trimmed(self.name.value@).len() == 0,
            },
    {
        let draft = self.to_draft();
        if draft.name.as_str().unicode_len() == 0 {
            return None;
        }
        Some(
            Person {
                id: 0,
                name: draft.name,
                display_name: draft.display_name,
                given_name: draft.given_name,
                surname: draft.surname,
                middle_names: draft.middle_names,
                title: draft.title,
                suffix: draft.suffix,
                birth_date: draft.birth_date,
                death_date: draft.death_date,
                biography: draft.biography,
                verified: false,
            },
        )
    }

    pub fn next_field(&mut self)
        ensures
            *final(self) == (PersonCreateScreen {
                active_field: next_person_field(old(self).active_field),
                ..*old(self)
            }),
    {
        self.active_field = match self.active_field {
            PersonField::Name => PersonField::GivenName,
            PersonField::GivenName => PersonField::Surname,
            PersonField::Surname => PersonField::DisplayName,
            PersonField::DisplayName => PersonField::MiddleNames,
            PersonField::MiddleNames => PersonField::Title,
            PersonField::Title => PersonField::Suffix,
            PersonField::Suffix => PersonField::BirthDate,
            PersonField::BirthDate => PersonField::DeathDate,
            PersonField::DeathDate => PersonField::Biography,
            PersonField::Biography => PersonField::Aliases,
            PersonField::Aliases => PersonField::Places,
            PersonField::Places => PersonField::Languages,
            PersonField::Languages => PersonField::Name,
        };
    }

    pub fn previous_field(&mut self)
        ensures
            *final(self) == (PersonCreateScreen {
                active_field: previous_person_field(old(self).active_field),
                ..*old(self)
            }),
    {
        self.active_field = match self.active_field {
            PersonField::Name => PersonField::Languages,
            PersonField::GivenName => PersonField::Name,
            PersonField::Surname => PersonField::GivenName,
            PersonField::DisplayName => PersonField::Surname,
            PersonField::MiddleNames => PersonField::DisplayName,
            PersonField::Title => PersonField::MiddleNames,
            PersonField::Suffix => PersonField::Title,
            PersonField::BirthDate => PersonField::Suffix,
            PersonField::DeathDate => PersonField::BirthDate,
            PersonField::Biography => PersonField::DeathDate,
            PersonField::Aliases => PersonField::Biography,
            PersonField::Places => PersonField::Aliases,
            PersonField::Languages => PersonField::Places,
        };
    }

    /// The summary of the aliases typed.
    pub fn aliases_display(&self) -> (r: String)
        ensures
            r@ == summary(Seq::new(self.aliases@.len(), |i: int| self.aliases@[i].value@)),
    {
        let mut values: Vec<String> = Vec::new();
        let mut i: usize = 0;
        while i < self.aliases.len()
            invariant
                i <= self.aliases@.len(),
                values@.len() == i,
                forall|j: int| 0 <= j < i ==> #[trigger] values@[j]@ == self.aliases@[j].value@,
            decreases self.aliases@.len() - i,
        {
            values.push(self.aliases[i].value.clone());
            i = i + 1;
        }
        proof {
            assert(views(values@) =~= Seq::new(
                self.aliases@.len(),
                |i: int| self.aliases@[i].value@,
            ));
        }
        collection_text_summary(&values)
    }

    /// How many places were added, as "N luogo/luoghi", or the empty mark.
    pub fn places_display(&self) -> (r: String)
        ensures
            r@ == (if self.places@.len() == 0 {
                empty_mark()
            } else {
                digits_text(self.places@.len()) + " luogo/luoghi"@
            }),
    {
        let n = self.places.len();
        if n == 0 {
            return empty_mark_text();
        }
        let digits = digits_of(n as u64);
        let mut r = string_of(&digits);
        r.append(" luogo/luoghi");
        r
    }

    /// The summary of the languages typed.
    pub fn languages_display(&self) -> (r: String)
        ensures
            r@ == summary(Seq::new(self.languages@.len(), |i: int| self.languages@[i].input.value@)),
    {
        let mut values: Vec<String> = Vec::new();
        let mut i: usize = 0;
        while i < self.languages.len()
            invariant
                i <= self.languages@.len(),
                values@.len() == i,
                forall|j: int|
                    0 <= j < i ==> #[trigger] values@[j]@ == self.languages@[j].input.value@,
            decreases self.languages@.len() - i,
        {
            values.push(self.languages[i].input.value.clone());
            i = i + 1;
        }
        proof {
            assert(views(values@) =~= Seq::new(
                self.languages@.len(),
                |i: int| self.languages@[i].input.value@,
            ));
        }
        collection_text_summary(&values)
    }
}

impl Default for PersonCreateScreen {
    fn default() -> (s: PersonCreateScreen)
        ensures
            s.is_empty_form(),
    {
        PersonCreateScreen::new()
    }
}

/// The key help shown under the form while `f` is active.
pub open spec fn hint_of(f: PersonField) -> Seq<char> {
    match f {
        PersonField::BirthDate | PersonField::DeathDate => "Tab/BackTab: sotto-campi data | Enter: prossimo campo | Ctrl+S: salva | Esc: annulla"@,
        PersonField::Aliases | PersonField::Places | PersonField::Languages => "Tab: avanti | BackTab: indietro | n: aggiungi | d: rimuovi | Ctrl+S: salva | Esc: annulla"@,
        _ => "Tab: avanti | BackTab: indietro | Enter: prossimo campo | Ctrl+S: salva | Esc: annulla"@,
    }
}

/// The key help for the active field (see `hint_of`).
pub fn hint(f: PersonField) -> (r: &'static str)
    ensures
        r@ == hint_of(f),
{
    match f {
        PersonField::BirthDate | PersonField::DeathDate => "Tab/BackTab: sotto-campi data | Enter: prossimo campo | Ctrl+S: salva | Esc: annulla",
        PersonField::Aliases | PersonField::Places | PersonField::Languages => "Tab: avanti | BackTab: indietro | n: aggiungi | d: rimuovi | Ctrl+S: salva | Esc: annulla",
        _ => "Tab: avanti | BackTab: indietro | Enter: prossimo campo | Ctrl+S: salva | Esc: annulla",
    }
}

/// Rows taken by a text field: three while edited, else one.
pub fn text_field_height(active: PersonField, field: PersonField) -> (h: u16)
    ensures
        h == (if active == field {
            3u16
        } else {
            1u16
        }),
{
    if active == field {
        3
    } else {
        1
    }
}

/// Rows taken by a list: five while edited, else one.
pub fn collection_height(active: PersonField, field: PersonField) -> (h: u16)
    ensures
        h == (if active == field {
            5u16
        } else {
            1u16
        }),
{
    if active == field {
        5
    } else {
        1
    }
}


/// Moving to the next field and back, or back and on, returns to the field.
pub proof fn lemma_person_field_cycle(f: PersonField)
    ensures
        previous_person_field(next_person_field(f)) == f,
        next_person_field(previous_person_field(f)) == f,
{
}
} // verus!
