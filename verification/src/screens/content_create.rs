//! The form that creates a content: its fields, the people linked to it with
//! their roles, its languages and tags.

use vstd::prelude::*;
use crate::domain::{date_to_opt, known_date, Content};
use crate::keys::{KeyCode, KeyEvent};
use crate::numbers::{parse_i64, parsed_i64};
use crate::screens::form::{
    collection_text_summary, is_save_key, language_key, last_replaced, popped, suggestions_closed,
    summary,
};
use crate::screens::options::{copy_options, sort_options_by_name, sorted_by_name};
use crate::text::{trim, trim_to_option_str, trimmed, trimmed_option, views};
use crate::widgets::input::{key_handled, InputWidget};
use crate::widgets::language::{id_at, lists_labels, LanguageWidget};
use crate::widgets::partial_date::{PartialDateField, PartialDateWidget};
use crate::widgets::person::PersonWidget;
use crate::widgets::place::option_view;

verus! {

/// The fields of the form, in the order Tab visits them.
#[derive(Debug, Clone, Copy, PartialEq, Eq, Structural)]
pub enum ContentField {
    Title,
    PublicationDate,
    Genre,
    Notes,
    People,
    Languages,
    Tags,
}

/// The field after `f`; after the last comes the first.
pub open spec fn next_content_field(f: ContentField) -> ContentField {
    match f {
        ContentField::Title => ContentField::PublicationDate,
        ContentField::PublicationDate => ContentField::Genre,
        ContentField::Genre => ContentField::Notes,
        ContentField::Notes => ContentField::People,
        ContentField::People => ContentField::Languages,
        ContentField::Languages => ContentField::Tags,
        ContentField::Tags => ContentField::Title,
    }
}

/// The field before `f`; before the first comes the last.
pub open spec fn previous_content_field(f: ContentField) -> ContentField {
    match f {
        ContentField::Title => ContentField::Tags,
        ContentField::PublicationDate => ContentField::Title,
        ContentField::Genre => ContentField::PublicationDate,
        ContentField::Notes => ContentField::Genre,
        ContentField::People => ContentField::Notes,
        ContentField::Languages => ContentField::People,
        ContentField::Tags => ContentField::Languages,
    }
}

/// What the form holds when it is saved.
#[derive(Debug, Clone, PartialEq, Eq)]
pub struct ContentDraft {
    pub name: String,
    pub original_title: Option<String>,
    pub type_id: Option<i64>,
    pub genre_id: Option<i64>,
    pub publication_date: Option<crate::domain::PartialDate>,
    pub notes: Option<String>,
}

/// What a key press asks of the caller.
#[derive(Debug, Clone, PartialEq, Eq)]
pub enum ContentCreateAction {
    Nothing,
    Submit(ContentDraft),
    CreatePersonForContent(String),
    Cancel,
}

/// A person linked to the content, with the role they have in it.
#[derive(Debug, Clone, PartialEq, Eq)]
pub struct ContentPersonRole {
    pub person_id: i64,
    pub person_name: String,
    pub role_id: i64,
    pub role_name: String,
}

/// The two steps of linking a person: pick the person, then the role.
#[derive(Debug, Clone, Copy, PartialEq, Eq, Structural)]
pub enum PeopleAddStep {
    SelectPerson,
    SelectRole,
}

/// A person being linked: the step, the person input, the person picked
/// and the role under the cursor.
#[derive(Debug, Clone, PartialEq, Eq)]
pub struct PeopleAddFlow {
    pub step: PeopleAddStep,
    pub person_widget: PersonWidget,
    pub selected_person: Option<(i64, String)>,
    pub role_index: usize,
}

/// A flow as it starts: picking a person among `options`, with an empty
/// input.
pub open spec fn fresh_flow(f: PeopleAddFlow, options: Seq<(i64, String)>) -> bool {
    &&& f.step == PeopleAddStep::SelectPerson
    &&& f.selected_person is None
    &&& f.role_index == 0
    &&& f.person_widget.suggestions@ == options
    &&& lists_labels(f.person_widget.input, options)
    &&& f.person_widget.input.value@.len() == 0
    &&& f.person_widget.input.cursor == 0
    &&& f.person_widget.input.selected_suggestion is None
    &&& f.person_widget.selected is None
}

/// How a key changes a person input (see `PersonWidget::handle_key`).
pub open spec fn person_key(w: PersonWidget, after: PersonWidget, key: KeyEvent) -> bool {
    &&& key_handled(w.input, after.input, key)
    &&& after.suggestions == w.suggestions
    &&& after.selected == id_at(after.input.selected_suggestion, after.suggestions@)
}

/// A person input after its person was taken: empty, nothing selected.
pub open spec fn person_taken(w: PersonWidget, after: PersonWidget) -> bool {
    &&& after.input.is_empty_input()
    &&& after.selected is None
    &&& after.suggestions == w.suggestions
}

/// A new language entry: both inputs empty.
pub open spec fn fresh_language(entry: (LanguageWidget, InputWidget)) -> bool {
    &&& entry.0.input.is_empty_input()
    &&& entry.0.selected is None
    &&& entry.0.suggestions@.len() == 0
    &&& entry.1.is_empty_input()
}

/// The role under the cursor after `key`, among `n` roles: Up moves one
/// up and Down one down, stopping at either end.
pub open spec fn role_moved(index: usize, n: nat, key: KeyEvent) -> usize {
    if key.code == KeyCode::Up {
        if index == 0 {
            0
        } else {
            (index - 1) as usize
        }
    } else if key.code == KeyCode::Down {
        if index + 1 <= n - 1 {
            (index + 1) as usize
        } else {
            (n - 1) as usize
        }
    } else {
        index
    }
}

/// The form: the active field, the inputs, the people linked so far, the
/// people and roles to pick from, the person being linked, and the
/// languages and tags.
#[derive(Debug, Clone, PartialEq, Eq)]
pub struct ContentCreateScreen {
    pub active_field: ContentField,
    pub title: InputWidget,
    pub publication_date: PartialDateWidget,
    pub genre: InputWidget,
    pub notes: InputWidget,
    pub people: Vec<ContentPersonRole>,
    pub people_options: Vec<(i64, String)>,
    pub role_options: Vec<(i64, String)>,
    pub people_add_flow: Option<PeopleAddFlow>,
    pub languages: Vec<(LanguageWidget, InputWidget)>,
    pub tags: Vec<InputWidget>,
}

impl ContentCreateScreen {
    /// `d` is what the form holds: the trimmed title, the genre read as an
    /// integer from its trimmed text, the date unless no part of it is known,
    /// and the trimmed notes unless blank.
    pub open spec fn is_draft(self, d: ContentDraft) -> bool {
        &&& d.name@ == trimmed(self.title.value@)
        &&& d.original_title is None
        &&& d.type_id is None
        &&& d.genre_id == parsed_i64(trimmed(self.genre.value@))
        &&& d.publication_date == known_date(self.publication_date.date())
        &&& option_view(d.notes) == trimmed_option(self.notes.value@)
    }

    /// `c` is the new content (id 0) that the form describes.
    pub open spec fn is_content(self, c: Content) -> bool {
        &&& c.id == 0
        &&& c.title@ == trimmed(self.title.value@)
        &&& c.original_title is None
        &&& c.type_id is None
        &&& c.publication_year == known_date(self.publication_date.date())
        &&& option_view(c.notes) == trimmed_option(self.notes.value@)
    }

    /// An empty form on the title, offering `people` and `roles`.
    pub open spec fn is_empty_form(
        self,
        people: Seq<(i64, String)>,
        roles: Seq<(i64, String)>,
    ) -> bool {
        &&& self.active_field == ContentField::Title
        &&& self.title.is_empty_input()
        &&& self.genre.is_empty_input()
        &&& self.notes.is_empty_input()
        &&& self.publication_date.date().is_unknown()
        &&& self.publication_date.active_field == PartialDateField::Year
        &&& self.publication_date.year_input@.len() == 0
        &&& self.publication_date.month_input@.len() == 0
        &&& self.publication_date.day_input@.len() == 0
        &&& self.people@.len() == 0
        &&& self.people_options@ == people
        &&& self.role_options@ == roles
        &&& self.people_add_flow is None
        &&& self.languages@.len() == 0
        &&& self.tags@.len() == 0
    }

    pub fn new() -> (s: ContentCreateScreen)
        ensures
            s.is_empty_form(Seq::empty(), Seq::empty()),
    {
        ContentCreateScreen::new_with_options(Vec::new(), Vec::new())
    }

    pub fn new_with_options(
        people_options: Vec<(i64, String)>,
        role_options: Vec<(i64, String)>,
    ) -> (s: ContentCreateScreen)
        ensures
            s.is_empty_form(people_options@, role_options@),
    {
        ContentCreateScreen {
            active_field: ContentField::Title,
            title: InputWidget::new(),
            publication_date: PartialDateWidget::new(),
            genre: InputWidget::new(),
            notes: InputWidget::new(),
            people: Vec::new(),
            people_options,
            role_options,
            people_add_flow: None,
            languages: Vec::new(),
            tags: Vec::new(),
        }
    }

    /// What the form holds (see `is_draft`).
    pub fn to_draft(&self) -> (d: ContentDraft)
        ensures
            self.is_draft(d),
    {
        let genre = trim(self.genre.value.as_str());
        ContentDraft {
            name: trim(self.title.value.as_str()),
            original_title: None,
            type_id: None,
            genre_id: parse_i64(genre.as_str()),
            publication_date: date_to_opt(self.publication_date.value()),
            notes: trim_to_option_str(self.notes.value.as_str()),
        }
    }

    /// The new content, or `None` where the trimmed title is empty.
    pub fn to_content(&self) -> (c: Option<Content>)
        ensures
            match c {
                Some(c) => trimmed(self.title.value@).len() > 0 && self.is_content(c),
                None => trimmed(self.title.value@).len() == 0,
            },
    {
        let draft = self.to_draft();
        if draft.name.as_str().unicode_len() == 0 {
            None
        } else {
            Some(
                Content {
                    id: 0,
                    title: draft.name,
                    original_title: draft.original_title,
                    type_id: draft.type_id,
                    publication_year: draft.publication_date,
                    notes: draft.notes,
                },
            )
        }
    }

    pub fn next_field(&mut self)
        ensures
            *final(self) == (ContentCreateScreen {
                active_field: next_content_field(old(self).active_field),
                ..*old(self)
            }),
    {
        self.active_field = match self.active_field {
            ContentField::Title => ContentField::PublicationDate,
            ContentField::PublicationDate => ContentField::Genre,
            ContentField::Genre => ContentField::Notes,
            ContentField::Notes => ContentField::People,
            ContentField::People => ContentField::Languages,
            ContentField::Languages => ContentField::Tags,
            ContentField::Tags => ContentField::Title,
        };
    }

    pub fn previous_field(&mut self)
        ensures
            *final(self) == (ContentCreateScreen {
                active_field: previous_content_field(old(self).active_field),
                ..*old(self)
            }),
    {
        self.active_field = match self.active_field {
            ContentField::Title => ContentField::Tags,
            ContentField::PublicationDate => ContentField::Title,
            ContentField::Genre => ContentField::PublicationDate,
            ContentField::Notes => ContentField::Genre,
            ContentField::People => ContentField::Notes,
            ContentField::Languages => ContentField::People,
            ContentField::Tags => ContentField::Languages,
        };
    }
}


impl ContentCreateScreen {
    /// Whether Esc is taken by the field being edited, rather than closing
    /// the form: a date away from its year goes back to it, a person being
    /// linked is dropped, open language suggestions are closed.
    pub open spec fn escape_consumed(self) -> bool {
        match self.active_field {
            ContentField::PublicationDate => self.publication_date.active_field
                != PartialDateField::Year,
            ContentField::People => self.people_add_flow is Some,
            ContentField::Languages => self.languages@.len() > 0 && (
            self.languages@.last().0.input.suggestions@.len() > 0
                || self.languages@.last().0.input.selected_suggestion is Some),
            _ => false,
        }
    }

    /// How Esc changes the form (see `escape_consumed`).
    pub open spec fn escaped(self, after: Self) -> bool {
        match self.active_field {
            ContentField::PublicationDate => if self.publication_date.active_field
                != PartialDateField::Year {
                after == (ContentCreateScreen {
                    publication_date: PartialDateWidget {
                        active_field: PartialDateField::Year,
                        ..self.publication_date
                    },
                    ..self
                })
            } else {
                after == self
            },
            ContentField::People => if self.people_add_flow is Some {
                after == (ContentCreateScreen { people_add_flow: None, ..self })
            } else {
                after == self
            },
            ContentField::Languages => if self.languages@.len() > 0 {
                &&& after == (ContentCreateScreen { languages: after.languages, ..self })
                &&& last_replaced(self.languages@, after.languages@)
                &&& after.languages@.last().1 == self.languages@.last().1
                &&& suggestions_closed(self.languages@.last().0, after.languages@.last().0)
            } else {
                after == self
            },
            _ => after == self,
        }
    }

    /// A key typed while a person is being picked goes to the person input.
    pub open spec fn person_typed(self, after: Self, key: KeyEvent) -> bool {
        match self.people_add_flow {
            Some(f) => if f.step == PeopleAddStep::SelectPerson {
                &&& after == (ContentCreateScreen {
                    people_add_flow: after.people_add_flow,
                    ..self
                })
                &&& after.people_add_flow matches Some(g)
                &&& g == (PeopleAddFlow { person_widget: g.person_widget, ..f })
                &&& person_key(f.person_widget, g.person_widget, key)
            } else {
                after == self
            },
            None => after == self,
        }
    }

    /// Up and Down while a person is being linked: they move in the person
    /// suggestions, or among the roles (see `role_moved`).
    pub open spec fn moved_in_flow(self, after: Self, key: KeyEvent) -> bool {
        match self.people_add_flow {
            Some(f) => if f.step == PeopleAddStep::SelectPerson {
                self.person_typed(after, key)
            } else if self.role_options@.len() == 0 {
                after == self
            } else {
                after == (ContentCreateScreen {
                    people_add_flow: Some(
                        PeopleAddFlow {
                            role_index: role_moved(f.role_index, self.role_options@.len(), key),
                            ..f
                        },
                    ),
                    ..self
                })
            },
            None => after == self,
        }
    }

    /// Enter while a person is being linked. On the person step the person
    /// input gives its person: a known one (id above 0) moves the flow to
    /// the role step; a new one asks the caller to create it. On the role
    /// step the person is linked with the role under the cursor and the
    /// flow ends.
    pub open spec fn flow_confirmed(self, after: Self, action: ContentCreateAction) -> bool {
        match self.people_add_flow {
            None => after == self && action is Nothing,
            Some(f) => if f.step == PeopleAddStep::SelectPerson {
                &&& after == (ContentCreateScreen {
                    people_add_flow: after.people_add_flow,
                    ..self
                })
                &&& after.people_add_flow matches Some(g)
                &&& person_taken(f.person_widget, g.person_widget)
                &&& match f.person_widget.chosen() {
                    None => g == (PeopleAddFlow { person_widget: g.person_widget, ..f })
                        && action is Nothing,
                    Some((id, name)) => if id > 0 {
                        &&& g.step == PeopleAddStep::SelectRole
                        &&& g.role_index == 0
                        &&& g.selected_person matches Some(p)
                        &&& p.0 == id
                        &&& p.1@ == name
                        &&& action is Nothing
                    } else {
                        &&& g == (PeopleAddFlow { person_widget: g.person_widget, ..f })
                        &&& action matches ContentCreateAction::CreatePersonForContent(n)
                        &&& n@ == name
                    },
                }
            } else {
                &&& action is Nothing
                &&& after == (ContentCreateScreen {
                    people: after.people,
                    people_add_flow: None,
                    ..self
                })
                &&& after.people@ == (match f.selected_person {
                    Some(p) => if f.role_index < self.role_options@.len() {
                        self.people@.push(
                            ContentPersonRole {
                                person_id: p.0,
                                person_name: p.1,
                                role_id: self.role_options@[f.role_index as int].0,
                                role_name: self.role_options@[f.role_index as int].1,
                            },
                        )
                    } else {
                        self.people@
                    },
                    None => self.people@,
                })
            },
        }
    }

    /// A key on the people field: n starts linking a person, d or Delete
    /// removes the last one linked (both only while none is being linked),
    /// Up and Down move in the flow, other keys go to the person input.
    pub open spec fn people_key(self, after: Self, key: KeyEvent) -> bool {
        if key.code == KeyCode::Char('n') {
            if self.people_add_flow is None {
                &&& after == (ContentCreateScreen {
                    people_add_flow: after.people_add_flow,
                    ..self
                })
                &&& after.people_add_flow matches Some(f)
                &&& fresh_flow(f, self.people_options@)
            } else {
                after == self
            }
        } else if key.code == KeyCode::Char('d') || key.code == KeyCode::Delete {
            if self.people_add_flow is None {
                after == (ContentCreateScreen { people: after.people, ..self })
                    && after.people@ == popped(self.people@)
            } else {
                after == self
            }
        } else if key.code == KeyCode::Up || key.code == KeyCode::Down {
            self.moved_in_flow(after, key)
        } else {
            self.person_typed(after, key)
        }
    }

    /// A key on the languages field: n adds an entry, d or Delete removes
    /// the last, other keys go to the last entry's language input.
    pub open spec fn languages_key(self, after: Self, key: KeyEvent) -> bool {
        if key.code == KeyCode::Char('n') {
            &&& after == (ContentCreateScreen { languages: after.languages, ..self })
            &&& after.languages@.len() == self.languages@.len() + 1
            &&& after.languages@.drop_last() == self.languages@
            &&& fresh_language(after.languages@.last())
        } else if key.code == KeyCode::Char('d') || key.code == KeyCode::Delete {
            after == (ContentCreateScreen { languages: after.languages, ..self })
                && after.languages@ == popped(self.languages@)
        } else if self.languages@.len() > 0 {
            &&& after == (ContentCreateScreen { languages: after.languages, ..self })
            &&& last_replaced(self.languages@, after.languages@)
            &&& after.languages@.last().1 == self.languages@.last().1
            &&& language_key(self.languages@.last().0, after.languages@.last().0, key)
        } else {
            after == self
        }
    }

    /// A key on the tags field: n adds a tag, d or Delete removes the last,
    /// other keys go to the last tag.
    pub open spec fn tags_key(self, after: Self, key: KeyEvent) -> bool {
        if key.code == KeyCode::Char('n') {
            &&& after == (ContentCreateScreen { tags: after.tags, ..self })
            &&& after.tags@.len() == self.tags@.len() + 1
            &&& after.tags@.drop_last() == self.tags@
            &&& after.tags@.last().is_empty_input()
        } else if key.code == KeyCode::Char('d') || key.code == KeyCode::Delete {
            after == (ContentCreateScreen { tags: after.tags, ..self }) && after.tags@ == popped(
                self.tags@,
            )
        } else if self.tags@.len() > 0 {
            &&& after == (ContentCreateScreen { tags: after.tags, ..self })
            &&& last_replaced(self.tags@, after.tags@)
            &&& key_handled(self.tags@.last(), after.tags@.last(), key)
        } else {
            after == self
        }
    }

    /// Whether Esc is taken, and how it changes the form (see
    /// `escape_consumed`).
    pub fn handle_escape(&mut self) -> (consumed: bool)
        ensures
            consumed == old(self).escape_consumed(),
            old(self).escaped(*final(self)),
    {
        match self.active_field {
            ContentField::PublicationDate => {
                if self.publication_date.active_field != PartialDateField::Year {
                    self.publication_date.active_field = PartialDateField::Year;
                    true
                } else {
                    false
                }
            },
            ContentField::People => {
                if self.people_add_flow.is_some() {
                    self.people_add_flow = None;
                    true
                } else {
                    false
                }
            },
            ContentField::Languages => if self.languages.len() == 0 {
                false
            } else {
                match self.languages.pop() {
                Some((mut language, input)) => {
                    let dismissed = language.input.dismiss_suggestions();
                    self.languages.push((language, input));
                    proof {
                        assert(self.languages@.drop_last() =~= old(self).languages@.drop_last());
                    }
                    dismissed
                },
                None => false,
            }},
            _ => false,
        }
    }
}


impl ContentCreateScreen {
    /// How a key changes the form, and what it asks of the caller. Esc
    /// closes the field's popup (see `escape_consumed`) or else cancels;
    /// Ctrl+S submits the draft; Tab and BackTab move between the date's
    /// parts and then between fields; Enter confirms a person being linked
    /// or moves to the next field; other keys go to the active field.
    pub open spec fn key_step(
        self,
        after: Self,
        key: KeyEvent,
        action: ContentCreateAction,
    ) -> bool {
        if key.code == KeyCode::Esc {
            &&& self.escaped(after)
            &&& action == (if self.escape_consumed() {
                ContentCreateAction::Nothing
            } else {
                ContentCreateAction::Cancel
            })
        } else if is_save_key(key) {
            after == self && (action matches ContentCreateAction::Submit(d) && self.is_draft(d))
        } else if key.code == KeyCode::Tab {
            &&& action is Nothing
            &&& if self.active_field == ContentField::PublicationDate
                && self.publication_date.active_field != PartialDateField::Circa {
                &&& after == (ContentCreateScreen {
                    publication_date: after.publication_date,
                    ..self
                })
                &&& self.publication_date.key_handled(after.publication_date, key)
            } else {
                after == (ContentCreateScreen {
                    active_field: next_content_field(self.active_field),
                    ..self
                })
            }
        } else if key.code == KeyCode::BackTab {
            &&& action is Nothing
            &&& if self.active_field == ContentField::PublicationDate
                && self.publication_date.active_field != PartialDateField::Year {
                &&& after == (ContentCreateScreen {
                    publication_date: after.publication_date,
                    ..self
                })
                &&& self.publication_date.key_handled(after.publication_date, key)
            } else {
                after == (ContentCreateScreen {
                    active_field: previous_content_field(self.active_field),
                    ..self
                })
            }
        } else if key.code == KeyCode::Enter {
            if self.active_field == ContentField::People && self.people_add_flow is Some {
                self.flow_confirmed(after, action)
            } else {
                action is Nothing && after == (ContentCreateScreen {
                    active_field: next_content_field(self.active_field),
                    ..self
                })
            }
        } else {
            &&& action is Nothing
            &&& match self.active_field {
                ContentField::PublicationDate => after == (ContentCreateScreen {
                    publication_date: after.publication_date,
                    ..self
                }) && self.publication_date.key_handled(after.publication_date, key),
                ContentField::Title => after == (ContentCreateScreen {
                    title: after.title,
                    ..self
                }) && key_handled(self.title, after.title, key),
                ContentField::Genre => after == (ContentCreateScreen {
                    genre: after.genre,
                    ..self
                }) && key_handled(self.genre, after.genre, key),
                ContentField::Notes => after == (ContentCreateScreen {
                    notes: after.notes,
                    ..self
                }) && key_handled(self.notes, after.notes, key),
                ContentField::People => self.people_key(after, key),
                ContentField::Languages => self.languages_key(after, key),
                ContentField::Tags => self.tags_key(after, key),
            }
        }
    }

    pub fn handle_key(&mut self, key: KeyEvent) -> (action: ContentCreateAction)
        ensures
            old(self).key_step(*final(self), key, action),
    {
        if key.code == KeyCode::Esc {
            if self.handle_escape() {
                return ContentCreateAction::Nothing;
            }
            return ContentCreateAction::Cancel;
        }
        if key.code == KeyCode::Char('s') && key.modifiers.control {
            return ContentCreateAction::Submit(self.to_draft());
        }
        if key.code == KeyCode::Tab {
            if self.active_field == ContentField::PublicationDate
                && self.publication_date.active_field != PartialDateField::Circa {
                self.publication_date.handle_key(key);
            } else {
                self.next_field();
            }
            return ContentCreateAction::Nothing;
        }
        if key.code == KeyCode::BackTab {
            if self.active_field == ContentField::PublicationDate
                && self.publication_date.active_field != PartialDateField::Year {
                self.publication_date.handle_key(key);
            } else {
                self.previous_field();
            }
            return ContentCreateAction::Nothing;
        }
        if key.code == KeyCode::Enter {
            if self.active_field == ContentField::People && self.people_add_flow.is_some() {
                return self.confirm_people_flow();
            }
            self.next_field();
            return ContentCreateAction::Nothing;
        }
        match self.active_field {
            ContentField::PublicationDate => self.publication_date.handle_key(key),
            ContentField::Title => self.title.handle_key(key),
            ContentField::Genre => self.genre.handle_key(key),
            ContentField::Notes => self.notes.handle_key(key),
            ContentField::People => self.handle_people_key(key),
            ContentField::Languages => self.handle_languages_key(key),
            ContentField::Tags => self.handle_tags_key(key),
        }
        ContentCreateAction::Nothing
    }

    /// A key on the people field (see `people_key`).
    fn handle_people_key(&mut self, key: KeyEvent)
        ensures
            old(self).people_key(*final(self), key),
    {
        if key.code == KeyCode::Char('n') {
            if self.people_add_flow.is_none() {
                let mut widget = PersonWidget::new();
                widget.set_options(copy_options(&self.people_options));
                self.people_add_flow = Some(
                    PeopleAddFlow {
                        step: PeopleAddStep::SelectPerson,
                        person_widget: widget,
                        selected_person: None,
                        role_index: 0,
                    },
                );
            }
        } else if key.code == KeyCode::Char('d') || key.code == KeyCode::Delete {
            if self.people_add_flow.is_none() && self.people.len() > 0 {
                self.people.pop();
            }
        } else if key.code == KeyCode::Up || key.code == KeyCode::Down {
            self.handle_people_flow_directional_key(key);
        } else {
            self.type_in_person(key);
        }
    }

    /// A key for the person input while a person is being picked (see
    /// `person_typed`).
    fn type_in_person(&mut self, key: KeyEvent)
        ensures
            old(self).person_typed(*final(self), key),
    {
        let is_picking = match &self.people_add_flow {
            Some(f) => f.step == PeopleAddStep::SelectPerson,
            None => false,
        };
        if is_picking {
            match self.people_add_flow.take() {
                Some(mut f) => {
                    f.person_widget.handle_key(key);
                    self.people_add_flow = Some(f);
                },
                None => {},
            }
        }
    }

    /// Up and Down while a person is being linked (see `moved_in_flow`).
    fn handle_people_flow_directional_key(&mut self, key: KeyEvent)
        ensures
            old(self).moved_in_flow(*final(self), key),
    {
        let step = match &self.people_add_flow {
            Some(f) => Some(f.step),
            None => None,
        };
        match step {
            Some(PeopleAddStep::SelectPerson) => self.type_in_person(key),
            Some(PeopleAddStep::SelectRole) => {
                let n = self.role_options.len();
                if n > 0 {
                    match self.people_add_flow.take() {
                        Some(mut f) => {
                            if key.code == KeyCode::Up {
                                if f.role_index > 0 {
                                    f.role_index = f.role_index - 1;
                                }
                            } else if key.code == KeyCode::Down {
                                f.role_index = if f.role_index < n - 1 {
                                    f.role_index + 1
                                } else {
                                    n - 1
                                };
                            }
                            self.people_add_flow = Some(f);
                        },
                        None => {},
                    }
                }
            },
            None => {},
        }
    }

    /// Enter while a person is being linked (see `flow_confirmed`).
    fn confirm_people_flow(&mut self) -> (action: ContentCreateAction)
        ensures
            old(self).flow_confirmed(*final(self), action),
    {
        match self.people_add_flow.take() {
            None => ContentCreateAction::Nothing,
            Some(mut f) => match f.step {
                PeopleAddStep::SelectPerson => match f.person_widget.accept_or_draft_person() {
                    None => {
                        self.people_add_flow = Some(f);
                        ContentCreateAction::Nothing
                    },
                    Some((id, name)) => {
                        if id > 0 {
                            f.selected_person = Some((id, name));
                            f.step = PeopleAddStep::SelectRole;
                            f.role_index = 0;
                            self.people_add_flow = Some(f);
                            ContentCreateAction::Nothing
                        } else {
                            self.people_add_flow = Some(f);
                            ContentCreateAction::CreatePersonForContent(name)
                        }
                    },
                },
                PeopleAddStep::SelectRole => {
                    if f.role_index < self.role_options.len() {
                        match f.selected_person {
                            Some((person_id, person_name)) => {
                                let role_id = self.role_options[f.role_index].0;
                                let role_name = self.role_options[f.role_index].1.clone();
                                self.people.push(
                                    ContentPersonRole { person_id, person_name, role_id, role_name },
                                );
                            },
                            None => {},
                        }
                    }
                    ContentCreateAction::Nothing
                },
            },
        }
    }

    /// A key on the languages field (see `languages_key`).
    fn handle_languages_key(&mut self, key: KeyEvent)
        ensures
            old(self).languages_key(*final(self), key),
    {
        if key.code == KeyCode::Char('n') {
            self.languages.push((LanguageWidget::new(), InputWidget::new()));
            proof {
                assert(self.languages@.drop_last() =~= old(self).languages@);
            }
        } else if key.code == KeyCode::Char('d') || key.code == KeyCode::Delete {
            if self.languages.len() > 0 {
                self.languages.pop();
            }
        } else if self.languages.len() > 0 {
            match self.languages.pop() {
                Some((mut language, input)) => {
                    language.handle_key(key);
                    self.languages.push((language, input));
                    proof {
                        assert(self.languages@.drop_last() =~= old(self).languages@.drop_last());
                    }
                },
                None => {},
            }
        }
    }

    /// A key on the tags field (see `tags_key`).
    fn handle_tags_key(&mut self, key: KeyEvent)
        ensures
            old(self).tags_key(*final(self), key),
    {
        if key.code == KeyCode::Char('n') {
            self.tags.push(InputWidget::new());
            proof {
                assert(self.tags@.drop_last() =~= old(self).tags@);
            }
        } else if key.code == KeyCode::Char('d') || key.code == KeyCode::Delete {
            if self.tags.len() > 0 {
                self.tags.pop();
            }
        } else if self.tags.len() > 0 {
            match self.tags.pop() {
                Some(mut last) => {
                    last.handle_key(key);
                    self.tags.push(last);
                    proof {
                        assert(self.tags@.drop_last() =~= old(self).tags@.drop_last());
                    }
                },
                None => {},
            }
        }
    }

    /// Takes the person that the caller created for the flow: it joins the
    /// people to pick from, kept in name order, and the flow moves on to
    /// the role step with that person. Nothing happens unless a person is
    /// being picked.
    pub fn complete_person_creation(&mut self, person_id: i64, person_name: String)
        ensures
            match old(self).people_add_flow {
                Some(f) => if f.step == PeopleAddStep::SelectPerson {
                    &&& *final(self) == (ContentCreateScreen {
                        people_options: final(self).people_options,
                        people_add_flow: final(self).people_add_flow,
                        ..*old(self)
                    })
                    &&& final(self).people_options@ == sorted_by_name(
                        old(self).people_options@.push((person_id, person_name)),
                    )
                    &&& final(self).people_add_flow == Some(
                        PeopleAddFlow {
                            step: PeopleAddStep::SelectRole,
                            selected_person: Some((person_id, person_name)),
                            role_index: 0,
                            ..f
                        },
                    )
                } else {
                    *final(self) == *old(self)
                },
                None => *final(self) == *old(self),
            },
    {
        let is_picking = match &self.people_add_flow {
            Some(f) => f.step == PeopleAddStep::SelectPerson,
            None => false,
        };
        if is_picking {
            match self.people_add_flow.take() {
                Some(mut f) => {
                    let mut options = copy_options(&self.people_options);
                    options.push((person_id, person_name.clone()));
                    self.people_options = sort_options_by_name(options);
                    f.selected_person = Some((person_id, person_name));
                    f.step = PeopleAddStep::SelectRole;
                    f.role_index = 0;
                    self.people_add_flow = Some(f);
                },
                None => {},
            }
        }
    }
}

impl Default for ContentCreateScreen {
    fn default() -> (s: ContentCreateScreen)
        ensures
            s.is_empty_form(Seq::empty(), Seq::empty()),
    {
        ContentCreateScreen::new()
    }
}


/// The key help shown under the form while `f` is active.
pub open spec fn hint_of(f: ContentField) -> Seq<char> {
    match f {
        ContentField::PublicationDate => "Tab/BackTab: sotto-campi data | Enter: prossimo campo | Ctrl+S: salva | Esc: annulla"@,
        ContentField::People | ContentField::Languages | ContentField::Tags => "Tab: avanti | BackTab: indietro | n: aggiungi | d: rimuovi | Enter: conferma | Ctrl+S: salva | Esc: annulla"@,
        _ => "Tab: avanti | BackTab: indietro | Enter: prossimo campo | Ctrl+S: salva | Esc: annulla"@,
    }
}

/// The key help for the active field (see `hint_of`).
pub fn hint(f: ContentField) -> (r: &'static str)
    ensures
        r@ == hint_of(f),
{
    match f {
        ContentField::PublicationDate => "Tab/BackTab: sotto-campi data | Enter: prossimo campo | Ctrl+S: salva | Esc: annulla",
        ContentField::People | ContentField::Languages | ContentField::Tags => "Tab: avanti | BackTab: indietro | n: aggiungi | d: rimuovi | Enter: conferma | Ctrl+S: salva | Esc: annulla",
        _ => "Tab: avanti | BackTab: indietro | Enter: prossimo campo | Ctrl+S: salva | Esc: annulla",
    }
}

/// Rows taken by a text field: three while edited, else one.
pub fn text_field_height(active: ContentField, field: ContentField) -> (h: u16)
    ensures
        h == (if active == field {
            3u16
        } else {
            1u16
        }),
{
    if active == field {
        3
    } else {
        1
    }
}

/// Rows taken by a collection: eight while edited, else one.
pub fn collection_height(active: ContentField, field: ContentField) -> (h: u16)
    ensures
        h == (if active == field {
            8u16
        } else {
            1u16
        }),
{
    if active == field {
        8
    } else {
        1
    }
}

/// A linked person as listed: the name, then the role in brackets.
pub open spec fn person_role_text(p: ContentPersonRole) -> Seq<char> {
    p.person_name@ + seq![' ', '('] + p.role_name@ + seq![')']
}

impl ContentCreateScreen {
    /// The linked people as listed (see `person_role_text`).
    pub fn people_entries(&self) -> (r: Vec<String>)
        ensures
            r@.len() == self.people@.len(),
            forall|i: int|
                0 <= i < r@.len() ==> #[trigger] r@[i]@ == person_role_text(self.people@[i]),
    {
        let mut r: Vec<String> = Vec::new();
        let mut i: usize = 0;
        while i < self.people.len()
            invariant
                i <= self.people@.len(),
                r@.len() == i,
                forall|j: int|
                    0 <= j < i ==> #[trigger] r@[j]@ == person_role_text(self.people@[j]),
            decreases self.people@.len() - i,
        {
            let mut t = String::new();
            t.append(self.people[i].person_name.as_str());
            t.append(" (");
            t.append(self.people[i].role_name.as_str());
            t.append(")");
            proof {
                reveal_strlit(" (");
                reveal_strlit(")");
            }
            r.push(t);
            i = i + 1;
        }
        r
    }

    /// The summary of the linked people.
    pub fn people_display(&self) -> (r: String)
        ensures
            r@ == summary(Seq::new(self.people@.len(), |i: int| person_role_text(self.people@[i]))),
    {
        let entries = self.people_entries();
        let r = collection_text_summary(&entries);
        proof {
            assert(views(entries@) =~= Seq::new(
                self.people@.len(),
                |i: int| person_role_text(self.people@[i]),
            ));
        }
        r
    }

    /// The summary of the languages typed.
    pub fn languages_display(&self) -> (r: String)
        ensures
            r@ == summary(Seq::new(self.languages@.len(), |i: int| self.languages@[i].0.input.value@)),
    {
        let mut values: Vec<String> = Vec::new();
        let mut i: usize = 0;
        while i < self.languages.len()
            invariant
                i <= self.languages@.len(),
                values@.len() == i,
                forall|j: int|
                    0 <= j < i ==> #[trigger] values@[j]@ == self.languages@[j].0.input.value@,
            decreases self.languages@.len() - i,
        {
            values.push(self.languages[i].0.input.value.clone());
            i = i + 1;
        }
        proof {
            assert(views(values@) =~= Seq::new(
                self.languages@.len(),
                |i: int| self.languages@[i].0.input.value@,
            ));
        }
        collection_text_summary(&values)
    }

    /// The summary of the tags typed.
    pub fn tags_display(&self) -> (r: String)
        ensures
            r@ == summary(Seq::new(self.tags@.len(), |i: int| self.tags@[i].value@)),
    {
        let mut values: Vec<String> = Vec::new();
        let mut i: usize = 0;
        while i < self.tags.len()
            invariant
                i <= self.tags@.len(),
                values@.len() == i,
                forall|j: int| 0 <= j < i ==> #[trigger] values@[j]@ == self.tags@[j].value@,
            decreases self.tags@.len() - i,
        {
            values.push(self.tags[i].value.clone());
            i = i + 1;
        }
        proof {
            assert(views(values@) =~= Seq::new(self.tags@.len(), |i: int| self.tags@[i].value@));
        }
        collection_text_summary(&values)
    }
}


/// Moving to the next field and back, or back and on, returns to the field.
pub proof fn lemma_content_field_cycle(f: ContentField)
    ensures
        previous_content_field(next_content_field(f)) == f,
        next_content_field(previous_content_field(f)) == f,
{
}
} // verus!
