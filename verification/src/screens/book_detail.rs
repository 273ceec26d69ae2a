//! The detail of a book: its editable fields, and the records linked to it,
//! from which the user asks to open, add or remove one.

use vstd::prelude::*;
use crate::keys::{KeyCode, KeyEvent};
use crate::numbers::digits_text;
use crate::presenter::BookDetail;
use crate::screens::detail_text::{
    clamped, clamped_index, count_text, current_position, date_text, format_partial_date,
    position,
};
use crate::screens::lists::{or_blank, text_or_blank};
use crate::text::views;
use crate::widgets::input::{key_handled, InputWidget};
use crate::widgets::statusbar::StatusBar;

verus! {

/// How many fields the screen edits.
pub const FIELD_COUNT: usize = 7;

/// The label of field `i`.
pub open spec fn field_label(i: int) -> Seq<char> {
    if i == 0 {
        "titolo"@
    } else if i == 1 {
        "isbn"@
    } else if i == 2 {
        "data di pubblicazione"@
    } else if i == 3 {
        "formato"@
    } else if i == 4 {
        "serie"@
    } else if i == 5 {
        "editore"@
    } else {
        "note"@
    }
}

/// The label of field `i` (see `field_label`).
pub fn field_label_text(i: usize) -> (r: &'static str)
    requires
        i < FIELD_COUNT,
    ensures
        r@ == field_label(i as int),
{
    if i == 0 {
        "titolo"
    } else if i == 1 {
        "isbn"
    } else if i == 2 {
        "data di pubblicazione"
    } else if i == 3 {
        "formato"
    } else if i == 4 {
        "serie"
    } else if i == 5 {
        "editore"
    } else {
        "note"
    }
}

/// Viewing the fields, or editing the selected one.
#[derive(Debug, Clone, Copy, PartialEq, Eq, Structural)]
pub enum DetailMode {
    View,
    Edit,
}

/// The lists of linked records, in screen order.
#[derive(Debug, Clone, Copy, PartialEq, Eq, Structural)]
pub enum RelatedSection {
    LinkedContents,
    PeopleWithRoles,
    Tags,
    Languages,
}

/// What the user asks to do with the linked records.
#[derive(Debug, Clone, PartialEq, Eq)]
pub enum BookDetailRelatedAction {
    AddLinkedContent,
    RemoveLinkedContent { content_id: i64 },
    OpenLinkedContent { content_id: i64 },
    AddPersonWithRole,
    RemovePersonWithRole { person_id: i64 },
    OpenPersonWithRole { person_id: i64 },
    AddTag,
    RemoveTag { tag: String },
    AddLanguage,
    RemoveLanguage { language: String },
}

/// The new value of each field that was changed.
#[derive(Debug, Clone, PartialEq, Eq)]
pub struct BookDetailPendingChanges {
    pub title: Option<String>,
    pub isbn: Option<String>,
    pub publication_date: Option<String>,
    pub format: Option<String>,
    pub series: Option<String>,
    pub publisher: Option<String>,
    pub notes: Option<String>,
}

impl Default for BookDetailPendingChanges {
    fn default() -> (c: BookDetailPendingChanges)
        ensures
            c.title is None && c.isbn is None && c.publication_date is None && c.format is None
                && c.series is None && c.publisher is None && c.notes is None,
    {
        BookDetailPendingChanges {
            title: None,
            isbn: None,
            publication_date: None,
            format: None,
            series: None,
            publisher: None,
            notes: None,
        }
    }
}

/// The values the fields start from: title, ISBN, date, three fields not
/// known yet (format, series, publisher), notes.
pub open spec fn initial_texts(item: BookDetail) -> Seq<Seq<char>> {
    seq![
        item.book.title@,
        text_or_blank(item.book.isbn),
        date_text(item.book.publication_year),
        Seq::empty(),
        Seq::empty(),
        Seq::empty(),
        text_or_blank(item.book.notes),
    ]
}

/// The values the fields start from (see `initial_texts`).
pub fn editable_values_from_item(item: &BookDetail) -> (v: Vec<String>)
    ensures
        views(v@) == initial_texts(*item),
{
    let mut v: Vec<String> = Vec::new();
    v.push(item.book.title.clone());
    v.push(or_blank(&item.book.isbn));
    v.push(format_partial_date(item.book.publication_year));
    v.push(String::new());
    v.push(String::new());
    v.push(String::new());
    v.push(or_blank(&item.book.notes));
    proof {
        assert(views(v@) =~= initial_texts(*item));
    }
    v
}

/// The value of field `index` if it differs from where it started.
pub fn changed_value(initial: &Vec<String>, current: &Vec<String>, index: usize) -> (r: Option<
    String,
>)
    requires
        index < initial@.len(),
        index < current@.len(),
    ensures
        r == (if initial@[index as int]@ == current@[index as int]@ {
            None
        } else {
            Some(current@[index as int])
        }),
{
    if initial[index] == current[index] {
        None
    } else {
        Some(current[index].clone())
    }
}

/// The book, the fields' values (where they started and now), the input
/// of the field being edited, the list of linked records in focus and the
/// item selected in each, and the action asked for.
#[derive(Debug, Clone, PartialEq, Eq)]
pub struct BookDetailScreen {
    pub item: BookDetail,
    pub mode: DetailMode,
    pub selected_field: usize,
    pub input: InputWidget,
    pub editable_values: Vec<String>,
    pub initial_values: Vec<String>,
    pub in_related_sections: bool,
    pub related_section: RelatedSection,
    pub selected_linked_content: usize,
    pub selected_person_with_role: usize,
    pub selected_tag: usize,
    pub selected_language: usize,
    pub pending_related_action: Option<BookDetailRelatedAction>,
}

/// One step down a list of `len` items, stopping at the last.
pub open spec fn step_down(x: usize, len: nat) -> usize {
    let max = if len == 0 {
        0
    } else {
        len - 1
    };
    if x + 1 <= max {
        (x + 1) as usize
    } else {
        max as usize
    }
}

/// One step up, stopping at the first.
pub open spec fn step_up(x: usize) -> usize {
    if x == 0 {
        0
    } else {
        (x - 1) as usize
    }
}

impl BookDetailScreen {
    /// Seven field values, where they started and now, and a field among
    /// them selected.
    pub open spec fn wf(self) -> bool {
        &&& self.editable_values@.len() == FIELD_COUNT
        &&& self.initial_values@.len() == FIELD_COUNT
        &&& self.selected_field < FIELD_COUNT
    }

    /// The languages listed: the book's detail holds none yet.
    pub open spec fn languages(self) -> Seq<Seq<char>> {
        Seq::empty()
    }

    /// Up: the previous list, out of the lists from the first one, or the
    /// previous field.
    pub open spec fn moved_up(self) -> Self {
        if self.in_related_sections {
            match self.related_section {
                RelatedSection::LinkedContents => Self { in_related_sections: false, ..self },
                RelatedSection::PeopleWithRoles => Self {
                    related_section: RelatedSection::LinkedContents,
                    ..self
                },
                RelatedSection::Tags => Self {
                    related_section: RelatedSection::PeopleWithRoles,
                    ..self
                },
                RelatedSection::Languages => Self {
                    related_section: RelatedSection::Tags,
                    ..self
                },
            }
        } else {
            Self { selected_field: step_up(self.selected_field), ..self }
        }
    }

    /// Down: the next field, into the lists after the last field, or the
    /// next list, stopping at the last.
    pub open spec fn moved_down(self) -> Self {
        if !self.in_related_sections {
            if self.selected_field + 1 < FIELD_COUNT {
                Self { selected_field: (self.selected_field + 1) as usize, ..self }
            } else {
                Self {
                    in_related_sections: true,
                    related_section: RelatedSection::LinkedContents,
                    ..self
                }
            }
        } else {
            Self {
                related_section: match self.related_section {
                    RelatedSection::LinkedContents => RelatedSection::PeopleWithRoles,
                    RelatedSection::PeopleWithRoles => RelatedSection::Tags,
                    RelatedSection::Tags => RelatedSection::Languages,
                    RelatedSection::Languages => RelatedSection::Languages,
                },
                ..self
            }
        }
    }

    /// k: the previous item of the list in focus.
    pub open spec fn item_up(self) -> Self {
        if !self.in_related_sections {
            self
        } else {
            match self.related_section {
                RelatedSection::LinkedContents => Self {
                    selected_linked_content: step_up(self.selected_linked_content),
                    ..self
                },
                RelatedSection::PeopleWithRoles => Self {
                    selected_person_with_role: step_up(self.selected_person_with_role),
                    ..self
                },
                RelatedSection::Tags => Self { selected_tag: step_up(self.selected_tag), ..self },
                RelatedSection::Languages => Self {
                    selected_language: step_up(self.selected_language),
                    ..self
                },
            }
        }
    }

    /// j: the next item of the list in focus, stopping at the last.
    pub open spec fn item_down(self) -> Self {
        if !self.in_related_sections {
            self
        } else {
            match self.related_section {
                RelatedSection::LinkedContents => Self {
                    selected_linked_content: step_down(
                        self.selected_linked_content,
                        self.item.linked_contents@.len(),
                    ),
                    ..self
                },
                RelatedSection::PeopleWithRoles => Self {
                    selected_person_with_role: step_down(
                        self.selected_person_with_role,
                        self.item.people_with_roles@.len(),
                    ),
                    ..self
                },
                RelatedSection::Tags => Self {
                    selected_tag: step_down(self.selected_tag, self.item.tags@.len()),
                    ..self
                },
                RelatedSection::Languages => Self {
                    selected_language: step_down(self.selected_language, self.languages().len()),
                    ..self
                },
            }
        }
    }

    /// The id of the selected linked content, if there is one.
    pub open spec fn selected_content_id(self) -> Option<i64> {
        let n = self.item.linked_contents@.len();
        if n == 0 {
            None
        } else {
            Some(self.item.linked_contents@[clamped(self.selected_linked_content, n)].id)
        }
    }

    /// The id of the selected person, if there is one.
    pub open spec fn selected_person_id(self) -> Option<i64> {
        let n = self.item.people_with_roles@.len();
        if n == 0 {
            None
        } else {
            Some(self.item.people_with_roles@[clamped(self.selected_person_with_role, n)].person_id)
        }
    }

    /// Enter on a list: open the selected content or person.
    pub open spec fn open_action(self) -> Option<BookDetailRelatedAction> {
        match self.related_section {
            RelatedSection::LinkedContents => match self.selected_content_id() {
                Some(id) => Some(BookDetailRelatedAction::OpenLinkedContent { content_id: id }),
                None => None,
            },
            RelatedSection::PeopleWithRoles => match self.selected_person_id() {
                Some(id) => Some(BookDetailRelatedAction::OpenPersonWithRole { person_id: id }),
                None => None,
            },
            _ => None,
        }
    }

    /// n on a list: add to it.
    pub open spec fn add_action(self) -> BookDetailRelatedAction {
        match self.related_section {
            RelatedSection::LinkedContents => BookDetailRelatedAction::AddLinkedContent,
            RelatedSection::PeopleWithRoles => BookDetailRelatedAction::AddPersonWithRole,
            RelatedSection::Tags => BookDetailRelatedAction::AddTag,
            RelatedSection::Languages => BookDetailRelatedAction::AddLanguage,
        }
    }

    /// d or Delete on a list: remove the selected item.
    pub open spec fn remove_action(self) -> Option<BookDetailRelatedAction> {
        match self.related_section {
            RelatedSection::LinkedContents => match self.selected_content_id() {
                Some(id) => Some(BookDetailRelatedAction::RemoveLinkedContent { content_id: id }),
                None => None,
            },
            RelatedSection::PeopleWithRoles => match self.selected_person_id() {
                Some(id) => Some(BookDetailRelatedAction::RemovePersonWithRole { person_id: id }),
                None => None,
            },
            RelatedSection::Tags => if self.item.tags@.len() == 0 {
                None
            } else {
                Some(
                    BookDetailRelatedAction::RemoveTag {
                        tag: self.item.tags@[clamped(self.selected_tag, self.item.tags@.len())],
                    },
                )
            },
            RelatedSection::Languages => None,
        }
    }

    /// `after` edits the selected field, its input holding the field's
    /// value with the cursor at its end and no suggestions.
    pub open spec fn editing_started(self, after: Self) -> bool {
        &&& after == (Self { mode: DetailMode::Edit, input: after.input, ..self })
        &&& after.input.value@ == self.editable_values@[self.selected_field as int]@
        &&& after.input.cursor == after.input.value@.len()
        &&& after.input.suggestions@.len() == 0
        &&& after.input.selected_suggestion is None
    }

    /// `after` holds, in the selected field, what the input gives, and the
    /// input is empty.
    pub open spec fn field_saved(self, after: Self) -> bool {
        let v = after.editable_values@;
        &&& v == self.editable_values@.update(self.selected_field as int, v[self.selected_field as int])
        &&& v[self.selected_field as int]@ == self.input.accepted()
    }

    /// How a key changes the screen in view mode: Up and Down move between
    /// fields and lists, k and j between items, Enter edits the field or
    /// opens the item, n and d (or Delete) ask to add or remove an item.
    pub open spec fn view_key(self, after: Self, key: KeyEvent) -> bool {
        if key.code == KeyCode::Up {
            after == self.moved_up()
        } else if key.code == KeyCode::Down {
            after == self.moved_down()
        } else if key.code == KeyCode::Char('k') {
            after == self.item_up()
        } else if key.code == KeyCode::Char('j') {
            after == self.item_down()
        } else if key.code == KeyCode::Enter {
            if self.in_related_sections {
                after == (Self { pending_related_action: self.open_action(), ..self })
            } else {
                self.editing_started(after)
            }
        } else if key.code == KeyCode::Char('n') {
            if self.in_related_sections {
                after == (Self { pending_related_action: Some(self.add_action()), ..self })
            } else {
                after == self
            }
        } else if key.code == KeyCode::Char('d') || key.code == KeyCode::Delete {
            if self.in_related_sections {
                after == (Self { pending_related_action: self.remove_action(), ..self })
            } else {
                after == self
            }
        } else {
            after == self
        }
    }

    /// How a key changes the screen in edit mode: Enter saves the field and
    /// returns to view mode; Tab saves it and edits the next one (the last
    /// one stays); Esc drops the input and returns to view mode; other keys
    /// go to the input.
    pub open spec fn edit_key(self, after: Self, key: KeyEvent) -> bool {
        if key.code == KeyCode::Enter {
            &&& after == (Self {
                mode: DetailMode::View,
                editable_values: after.editable_values,
                input: after.input,
                ..self
            })
            &&& self.field_saved(after)
            &&& after.input.is_empty_input()
        } else if key.code == KeyCode::Tab {
            let next = if self.selected_field + 1 < FIELD_COUNT {
                (self.selected_field + 1) as usize
            } else {
                (FIELD_COUNT - 1) as usize
            };
            &&& after == (Self {
                mode: DetailMode::Edit,
                selected_field: next,
                editable_values: after.editable_values,
                input: after.input,
                ..self
            })
            &&& self.field_saved(after)
            &&& after.input.value@ == after.editable_values@[next as int]@
            &&& after.input.cursor == after.input.value@.len()
            &&& after.input.suggestions@.len() == 0
            &&& after.input.selected_suggestion is None
        } else if key.code == KeyCode::Esc {
            after == (Self { mode: DetailMode::View, input: after.input, ..self })
                && after.input.is_empty_input()
        } else {
            after == (Self { input: after.input, ..self }) && key_handled(
                self.input,
                after.input,
                key,
            )
        }
    }

    /// The key help for the status bar.
    pub open spec fn keys_help(self) -> Seq<char> {
        match self.mode {
            DetailMode::Edit => "Enter: salva | Tab: prossimo campo | Esc: annulla"@,
            DetailMode::View => if !self.in_related_sections {
                "↑↓: naviga sezioni | Enter: modifica campo | Esc: torna alla lista"@
            } else {
                match self.related_section {
                    RelatedSection::LinkedContents | RelatedSection::PeopleWithRoles => "↑↓: naviga sezioni | j/k: seleziona | n: aggiungi | d/Del: rimuovi | Enter: apri"@,
                    _ => "↑↓: naviga sezioni | j/k: seleziona | n: aggiungi | d/Del: rimuovi"@,
                }
            },
        }
    }

    /// The status bar's information: the field and its number, or the list
    /// in focus with the position of its selected item and its length.
    pub open spec fn info(self) -> Seq<char> {
        if !self.in_related_sections {
            "Campo "@ + digits_text((self.selected_field + 1) as nat) + "/"@ + digits_text(
                FIELD_COUNT as nat,
            ) + ": "@ + field_label(self.selected_field as int)
        } else {
            let (name, selected, total) = match self.related_section {
                RelatedSection::LinkedContents => (
                    "contenuti collegati"@,
                    self.selected_linked_content,
                    self.item.linked_contents@.len(),
                ),
                RelatedSection::PeopleWithRoles => (
                    "persone con ruoli"@,
                    self.selected_person_with_role,
                    self.item.people_with_roles@.len(),
                ),
                RelatedSection::Tags => ("tag"@, self.selected_tag, self.item.tags@.len()),
                RelatedSection::Languages => (
                    "lingue"@,
                    self.selected_language,
                    self.languages().len(),
                ),
            };
            "Sezione: "@ + name + " ("@ + digits_text(position(selected, total) as nat) + "/"@
                + digits_text(total) + ")"@
        }
    }

    /// The changes pending: each field's value where it differs from where
    /// it started.
    pub open spec fn changed(self, i: int) -> Option<String> {
        if self.initial_values@[i]@ == self.editable_values@[i]@ {
            None
        } else {
            Some(self.editable_values@[i])
        }
    }
}


impl BookDetailScreen {
    /// The detail of `item` in view mode on the first field, the fields
    /// holding the book's values (see `initial_texts`).
    pub fn new(item: BookDetail) -> (s: BookDetailScreen)
        ensures
            s.wf(),
            s.item == item,
            s.mode == DetailMode::View,
            s.selected_field == 0,
            s.input.is_empty_input(),
            views(s.editable_values@) == initial_texts(item),
            views(s.initial_values@) == views(s.editable_values@),
            !s.in_related_sections,
            s.related_section == RelatedSection::LinkedContents,
            s.selected_linked_content == 0 && s.selected_person_with_role == 0,
            s.selected_tag == 0 && s.selected_language == 0,
            s.pending_related_action is None,
    {
        let editable_values = editable_values_from_item(&item);
        let initial_values = editable_values_from_item(&item);
        proof {
            assert(views(editable_values@).len() == editable_values@.len());
            assert(views(initial_values@).len() == initial_values@.len());
        }
        BookDetailScreen {
            item,
            mode: DetailMode::View,
            selected_field: 0,
            input: InputWidget::new(),
            editable_values,
            initial_values,
            in_related_sections: false,
            related_section: RelatedSection::LinkedContents,
            selected_linked_content: 0,
            selected_person_with_role: 0,
            selected_tag: 0,
            selected_language: 0,
            pending_related_action: None,
        }
    }

    /// Handles `key` (see `view_key` and `edit_key`), then shows the key
    /// help and the information of the new state in the status bar.
    pub fn handle_key(&mut self, key: KeyEvent, statusbar: &mut StatusBar)
        requires
            old(self).wf(),
        ensures
            final(self).wf(),
            old(self).mode == DetailMode::View ==> old(self).view_key(*final(self), key),
            old(self).mode == DetailMode::Edit ==> old(self).edit_key(*final(self), key),
            views(final(statusbar).keys@) == seq![final(self).keys_help()],
            final(statusbar).info@ == final(self).info(),
            final(statusbar).message == old(statusbar).message,
    {
        match self.mode {
            DetailMode::View => self.handle_view_key(key),
            DetailMode::Edit => self.handle_edit_key(key),
        }
        self.update_statusbar(statusbar);
    }

    fn handle_view_key(&mut self, key: KeyEvent)
        requires
            old(self).wf(),
        ensures
            final(self).wf(),
            old(self).view_key(*final(self), key),
    {
        if key.code == KeyCode::Up {
            self.previous_section();
        } else if key.code == KeyCode::Down {
            self.next_section();
        } else if key.code == KeyCode::Char('k') {
            self.previous_related_item();
        } else if key.code == KeyCode::Char('j') {
            self.next_related_item();
        } else if key.code == KeyCode::Enter {
            if self.in_related_sections {
                self.pending_related_action = self.open_related_action();
            } else {
                self.start_editing();
            }
        } else if key.code == KeyCode::Char('n') {
            if self.in_related_sections {
                self.pending_related_action = Some(self.add_related_action());
            }
        } else if key.code == KeyCode::Char('d') || key.code == KeyCode::Delete {
            if self.in_related_sections {
                self.pending_related_action = self.remove_related_action();
            }
        }
    }

    fn handle_edit_key(&mut self, key: KeyEvent)
        requires
            old(self).wf(),
        ensures
            final(self).wf(),
            old(self).edit_key(*final(self), key),
    {
        if key.code == KeyCode::Enter {
            self.save_current_field();
            self.mode = DetailMode::View;
        } else if key.code == KeyCode::Tab {
            self.save_current_field();
            self.next_field();
            self.start_editing();
        } else if key.code == KeyCode::Esc {
            self.input.clear();
            self.mode = DetailMode::View;
        } else {
            self.input.handle_key(key);
        }
    }

    /// Takes the action asked for, leaving none.
    pub fn take_related_action(&mut self) -> (action: Option<BookDetailRelatedAction>)
        ensures
            action == old(self).pending_related_action,
            *final(self) == (BookDetailScreen { pending_related_action: None, ..*old(self) }),
    {
        self.pending_related_action.take()
    }

    /// The fields changed (see `changed`), or `None` where none was.
    pub fn pending_changes(&self) -> (c: Option<BookDetailPendingChanges>)
        requires
            self.wf(),
        ensures
            match c {
                Some(c) => {
                    &&& c.title == self.changed(0)
                    &&& c.isbn == self.changed(1)
                    &&& c.publication_date == self.changed(2)
                    &&& c.format == self.changed(3)
                    &&& c.series == self.changed(4)
                    &&& c.publisher == self.changed(5)
                    &&& c.notes == self.changed(6)
                    &&& exists|i: int| 0 <= i < FIELD_COUNT && (#[trigger] self.changed(i)) is Some
                },
                None => forall|i: int| 0 <= i < FIELD_COUNT ==> (#[trigger] self.changed(i)) is None,
            },
    {
        let changes = BookDetailPendingChanges {
            title: changed_value(&self.initial_values, &self.editable_values, 0),
            isbn: changed_value(&self.initial_values, &self.editable_values, 1),
            publication_date: changed_value(&self.initial_values, &self.editable_values, 2),
            format: changed_value(&self.initial_values, &self.editable_values, 3),
            series: changed_value(&self.initial_values, &self.editable_values, 4),
            publisher: changed_value(&self.initial_values, &self.editable_values, 5),
            notes: changed_value(&self.initial_values, &self.editable_values, 6),
        };
        if changes.title.is_none() && changes.isbn.is_none() && changes.publication_date.is_none()
            && changes.format.is_none() && changes.series.is_none() && changes.publisher.is_none()
            && changes.notes.is_none() {
            proof {
                assert forall|i: int| 0 <= i < FIELD_COUNT implies (#[trigger] self.changed(
                    i,
                )) is None by {
                    if i == 0 {
                    } else if i == 1 {
                    } else if i == 2 {
                    } else if i == 3 {
                    } else if i == 4 {
                    } else if i == 5 {
                    } else {
                    }
                }
            }
            None
        } else {
            proof {
                if changes.title.is_some() {
                    assert(self.changed(0) is Some);
                } else if changes.isbn.is_some() {
                    assert(self.changed(1) is Some);
                } else if changes.publication_date.is_some() {
                    assert(self.changed(2) is Some);
                } else if changes.format.is_some() {
                    assert(self.changed(3) is Some);
                } else if changes.series.is_some() {
                    assert(self.changed(4) is Some);
                } else if changes.publisher.is_some() {
                    assert(self.changed(5) is Some);
                } else {
                    assert(self.changed(6) is Some);
                }
            }
            Some(changes)
        }
    }

    fn previous_section(&mut self)
        ensures
            *final(self) == old(self).moved_up(),
    {
        if self.in_related_sections {
            match self.related_section {
                RelatedSection::LinkedContents => self.in_related_sections = false,
                RelatedSection::PeopleWithRoles => {
                    self.related_section = RelatedSection::LinkedContents
                },
                RelatedSection::Tags => self.related_section = RelatedSection::PeopleWithRoles,
                RelatedSection::Languages => self.related_section = RelatedSection::Tags,
            }
            return;
        }
        self.previous_field();
    }

    fn next_section(&mut self)
        ensures
            *final(self) == old(self).moved_down(),
    {
        if !self.in_related_sections {
            if self.selected_field < FIELD_COUNT - 1 {
                self.next_field();
                return;
            }
            self.in_related_sections = true;
            self.related_section = RelatedSection::LinkedContents;
            return;
        }
        self.related_section = match self.related_section {
            RelatedSection::LinkedContents => RelatedSection::PeopleWithRoles,
            RelatedSection::PeopleWithRoles => RelatedSection::Tags,
            RelatedSection::Tags => RelatedSection::Languages,
            RelatedSection::Languages => RelatedSection::Languages,
        };
    }

    /// The previous field, stopping at the first.
    pub fn previous_field(&mut self)
        ensures
            *final(self) == (BookDetailScreen {
                selected_field: step_up(old(self).selected_field),
                ..*old(self)
            }),
    {
        if self.selected_field > 0 {
            self.selected_field = self.selected_field - 1;
        }
    }

    /// The next field, stopping at the last.
    pub fn next_field(&mut self)
        ensures
            *final(self) == (BookDetailScreen {
                selected_field: if old(self).selected_field + 1 < FIELD_COUNT {
                    (old(self).selected_field + 1) as usize
                } else {
                    (FIELD_COUNT - 1) as usize
                },
                ..*old(self)
            }),
    {
        if self.selected_field < FIELD_COUNT - 1 {
            self.selected_field = self.selected_field + 1;
        } else {
            self.selected_field = FIELD_COUNT - 1;
        }
    }

    fn start_editing(&mut self)
        requires
            old(self).wf(),
        ensures
            old(self).editing_started(*final(self)),
    {
        self.mode = DetailMode::Edit;
        self.input.value = self.editable_values[self.selected_field].clone();
        self.input.cursor = self.input.value.as_str().unicode_len();
        self.input.suggestions = Vec::new();
        self.input.selected_suggestion = None;
    }

    fn save_current_field(&mut self)
        requires
            old(self).wf(),
        ensures
            final(self).wf(),
            old(self).field_saved(*final(self)),
            final(self).input.is_empty_input(),
            *final(self) == (BookDetailScreen {
                editable_values: final(self).editable_values,
                input: final(self).input,
                ..*old(self)
            }),
    {
        let value = self.input.accept();
        self.editable_values.set(self.selected_field, value);
    }

    fn previous_related_item(&mut self)
        ensures
            *final(self) == old(self).item_up(),
    {
        if !self.in_related_sections {
            return;
        }
        match self.related_section {
            RelatedSection::LinkedContents => {
                self.selected_linked_content = self.selected_linked_content.saturating_sub(1);
            },
            RelatedSection::PeopleWithRoles => {
                self.selected_person_with_role = self.selected_person_with_role.saturating_sub(1);
            },
            RelatedSection::Tags => {
                self.selected_tag = self.selected_tag.saturating_sub(1);
            },
            RelatedSection::Languages => {
                self.selected_language = self.selected_language.saturating_sub(1);
            },
        }
    }

    fn next_related_item(&mut self)
        ensures
            *final(self) == old(self).item_down(),
    {
        if !self.in_related_sections {
            return;
        }
        match self.related_section {
            RelatedSection::LinkedContents => {
                self.selected_linked_content = next_index(
                    self.selected_linked_content,
                    self.item.linked_contents.len(),
                );
            },
            RelatedSection::PeopleWithRoles => {
                self.selected_person_with_role = next_index(
                    self.selected_person_with_role,
                    self.item.people_with_roles.len(),
                );
            },
            RelatedSection::Tags => {
                self.selected_tag = next_index(self.selected_tag, self.item.tags.len());
            },
            RelatedSection::Languages => {
                self.selected_language = next_index(self.selected_language, 0);
            },
        }
    }

    fn selected_linked_content_id(&self) -> (id: Option<i64>)
        ensures
            id == self.selected_content_id(),
    {
        let n = self.item.linked_contents.len();
        if n == 0 {
            None
        } else {
            Some(self.item.linked_contents[clamped_index(self.selected_linked_content, n)].id)
        }
    }

    fn selected_person_with_role_id(&self) -> (id: Option<i64>)
        ensures
            id == self.selected_person_id(),
    {
        let n = self.item.people_with_roles.len();
        if n == 0 {
            None
        } else {
            Some(
                self.item.people_with_roles[clamped_index(
                    self.selected_person_with_role,
                    n,
                )].person_id,
            )
        }
    }

    fn open_related_action(&self) -> (a: Option<BookDetailRelatedAction>)
        ensures
            a == self.open_action(),
    {
        match self.related_section {
            RelatedSection::LinkedContents => match self.selected_linked_content_id() {
                Some(id) => Some(BookDetailRelatedAction::OpenLinkedContent { content_id: id }),
                None => None,
            },
            RelatedSection::PeopleWithRoles => match self.selected_person_with_role_id() {
                Some(id) => Some(BookDetailRelatedAction::OpenPersonWithRole { person_id: id }),
                None => None,
            },
            _ => None,
        }
    }

    fn add_related_action(&self) -> (a: BookDetailRelatedAction)
        ensures
            a == self.add_action(),
    {
        match self.related_section {
            RelatedSection::LinkedContents => BookDetailRelatedAction::AddLinkedContent,
            RelatedSection::PeopleWithRoles => BookDetailRelatedAction::AddPersonWithRole,
            RelatedSection::Tags => BookDetailRelatedAction::AddTag,
            RelatedSection::Languages => BookDetailRelatedAction::AddLanguage,
        }
    }

    fn remove_related_action(&self) -> (a: Option<BookDetailRelatedAction>)
        ensures
            a == self.remove_action(),
    {
        match self.related_section {
            RelatedSection::LinkedContents => match self.selected_linked_content_id() {
                Some(id) => Some(BookDetailRelatedAction::RemoveLinkedContent { content_id: id }),
                None => None,
            },
            RelatedSection::PeopleWithRoles => match self.selected_person_with_role_id() {
                Some(id) => Some(BookDetailRelatedAction::RemovePersonWithRole { person_id: id }),
                None => None,
            },
            RelatedSection::Tags => {
                let n = self.item.tags.len();
                if n == 0 {
                    None
                } else {
                    let tag = self.item.tags[clamped_index(self.selected_tag, n)].clone();
                    Some(BookDetailRelatedAction::RemoveTag { tag })
                }
            },
            RelatedSection::Languages => None,
        }
    }

    /// The key help (see `keys_help`).
    pub fn keys_help_text(&self) -> (r: &'static str)
        ensures
            r@ == self.keys_help(),
    {
        match self.mode {
            DetailMode::Edit => "Enter: salva | Tab: prossimo campo | Esc: annulla",
            DetailMode::View => if !self.in_related_sections {
                "↑↓: naviga sezioni | Enter: modifica campo | Esc: torna alla lista"
            } else {
                match self.related_section {
                    RelatedSection::LinkedContents | RelatedSection::PeopleWithRoles => "↑↓: naviga sezioni | j/k: seleziona | n: aggiungi | d/Del: rimuovi | Enter: apri",
                    _ => "↑↓: naviga sezioni | j/k: seleziona | n: aggiungi | d/Del: rimuovi",
                }
            },
        }
    }

    /// The status bar's information (see `info`).
    pub fn info_text(&self) -> (r: String)
        requires
            self.wf(),
        ensures
            r@ == self.info(),
    {
        let mut r = String::new();
        if !self.in_related_sections {
            r.append("Campo ");
            let n = count_text(self.selected_field + 1);
            r.append(n.as_str());
            r.append("/");
            let total = count_text(FIELD_COUNT);
            r.append(total.as_str());
            r.append(": ");
            r.append(field_label_text(self.selected_field));
            return r;
        }
        let (name, selected, total): (&str, usize, usize) = match self.related_section {
            RelatedSection::LinkedContents => (
                "contenuti collegati",
                self.selected_linked_content,
                self.item.linked_contents.len(),
            ),
            RelatedSection::PeopleWithRoles => (
                "persone con ruoli",
                self.selected_person_with_role,
                self.item.people_with_roles.len(),
            ),
            RelatedSection::Tags => ("tag", self.selected_tag, self.item.tags.len()),
            RelatedSection::Languages => ("lingue", self.selected_language, 0),
        };
        r.append("Sezione: ");
        r.append(name);
        r.append(" (");
        let p = count_text(current_position(selected, total));
        r.append(p.as_str());
        r.append("/");
        let t = count_text(total);
        r.append(t.as_str());
        r.append(")");
        r
    }

    fn update_statusbar(&self, statusbar: &mut StatusBar)
        requires
            self.wf(),
        ensures
            views(final(statusbar).keys@) == seq![self.keys_help()],
            final(statusbar).info@ == self.info(),
            final(statusbar).message == old(statusbar).message,
    {
        let mut keys: Vec<String> = Vec::new();
        let mut help = String::new();
        help.append(self.keys_help_text());
        keys.push(help);
        proof {
            assert(views(keys@) =~= seq![self.keys_help()]);
        }
        statusbar.set_keys(keys);
        statusbar.set_info(self.info_text());
    }
}

/// One step down a list of `len` items, stopping at the last (see
/// `step_down`).
pub fn next_index(x: usize, len: usize) -> (r: usize)
    ensures
        r == step_down(x, len as nat),
{
    let max = if len == 0 {
        0
    } else {
        len - 1
    };
    if x < max {
        x + 1
    } else {
        max
    }
}


/// A person of the book as listed: the name, then the role in brackets.
pub open spec fn person_line(p: crate::presenter::PersonRoleView) -> Seq<char> {
    p.name@ + seq![' ', '('] + p.role@ + seq![')']
}

impl BookDetailScreen {
    /// Rows taken by the fields' block: nine, eleven while a field is
    /// edited.
    pub fn editable_height(&self) -> (h: u16)
        ensures
            h == (if self.mode == DetailMode::View {
                9u16
            } else {
                11u16
            }),
    {
        match self.mode {
            DetailMode::View => 9,
            DetailMode::Edit => 11,
        }
    }

    /// The row of field `idx`: its label and value.
    pub fn field_row(&self, idx: usize) -> (r: String)
        requires
            self.wf(),
            idx < FIELD_COUNT,
        ensures
            r@ == field_label(idx as int) + seq![':', ' '] + crate::screens::detail_text::display_value(
                self.editable_values@[idx as int]@,
            ),
    {
        crate::screens::detail_text::field_row_text(
            field_label_text(idx),
            self.editable_values[idx].as_str(),
        )
    }

    /// The titles of the linked contents.
    pub fn linked_content_titles(&self) -> (r: Vec<String>)
        ensures
            r@.len() == self.item.linked_contents@.len(),
            forall|i: int|
                0 <= i < r@.len() ==> #[trigger] r@[i]@ == self.item.linked_contents@[i].title@,
    {
        let mut r: Vec<String> = Vec::new();
        let mut i: usize = 0;
        while i < self.item.linked_contents.len()
            invariant
                i <= self.item.linked_contents@.len(),
                r@.len() == i,
                forall|j: int|
                    0 <= j < i ==> #[trigger] r@[j]@ == self.item.linked_contents@[j].title@,
            decreases self.item.linked_contents@.len() - i,
        {
            r.push(self.item.linked_contents[i].title.clone());
            i = i + 1;
        }
        r
    }

    /// The people of the book as listed (see `person_line`).
    pub fn people_lines(&self) -> (r: Vec<String>)
        ensures
            r@.len() == self.item.people_with_roles@.len(),
            forall|i: int|
                0 <= i < r@.len() ==> #[trigger] r@[i]@ == person_line(
                    self.item.people_with_roles@[i],
                ),
    {
        let mut r: Vec<String> = Vec::new();
        let mut i: usize = 0;
        while i < self.item.people_with_roles.len()
            invariant
                i <= self.item.people_with_roles@.len(),
                r@.len() == i,
                forall|j: int|
                    0 <= j < i ==> #[trigger] r@[j]@ == person_line(
                        self.item.people_with_roles@[j],
                    ),
            decreases self.item.people_with_roles@.len() - i,
        {
            let mut t = String::new();
            t.append(self.item.people_with_roles[i].name.as_str());
            t.append(" (");
            t.append(self.item.people_with_roles[i].role.as_str());
            t.append(")");
            proof {
                reveal_strlit(" (");
                reveal_strlit(")");
            }
            r.push(t);
            i = i + 1;
        }
        r
    }

    /// Whether the lists have the focus (in view mode).
    pub fn is_related_section_active(&self) -> (b: bool)
        ensures
            b == (self.mode == DetailMode::View && self.in_related_sections),
    {
        self.mode == DetailMode::View && self.in_related_sections
    }
}


/// Fields that hold what they started from have no changes pending: so a
/// screen just made, or one whose edits were all dropped.
pub proof fn lemma_unchanged_fields_pend_nothing(s: BookDetailScreen)
    requires
        s.wf(),
        views(s.initial_values@) == views(s.editable_values@),
    ensures
        forall|i: int| 0 <= i < FIELD_COUNT ==> (#[trigger] s.changed(i)) is None,
{
    assert forall|i: int| 0 <= i < FIELD_COUNT implies (#[trigger] s.changed(i)) is None by {
        assert(views(s.initial_values@)[i] == views(s.editable_values@)[i]);
    }
}

/// Opening a field with Enter and saving it again with Enter, typing
/// nothing, leaves every field's value as it was and returns to view mode.
pub proof fn lemma_open_and_save_keeps_values(
    s: BookDetailScreen,
    t: BookDetailScreen,
    u: BookDetailScreen,
    key: KeyEvent,
)
    requires
        s.wf(),
        s.mode == DetailMode::View,
        !s.in_related_sections,
        key.code == KeyCode::Enter,
        s.view_key(t, key),
        t.edit_key(u, key),
    ensures
        views(u.editable_values@) == views(s.editable_values@),
        u.mode == DetailMode::View,
        u.selected_field == s.selected_field,
{
    let i = s.selected_field as int;
    assert(t.editable_values == s.editable_values);
    assert(t.input.accepted() == s.editable_values@[i]@);
    assert(views(u.editable_values@) =~= views(s.editable_values@)) by {
        assert forall|j: int| 0 <= j < FIELD_COUNT implies #[trigger] u.editable_values@[j]@
            == s.editable_values@[j]@ by {
            if j != i {
                assert(u.editable_values@[j] == s.editable_values@[j]);
            }
        }
    }
}

/// Esc while editing drops what was typed: every field keeps its value.
pub proof fn lemma_cancel_keeps_values(s: BookDetailScreen, t: BookDetailScreen, key: KeyEvent)
    requires
        s.wf(),
        s.mode == DetailMode::Edit,
        key.code == KeyCode::Esc,
        s.edit_key(t, key),
    ensures
        t.editable_values == s.editable_values,
        t.mode == DetailMode::View,
        t.selected_field == s.selected_field,
{
}

/// The entry a list's selection stands on: the selected one, or the last
/// where the selection lies beyond the list.
pub open spec fn entry_at(selected: usize, n: nat) -> int {
    if selected < n {
        selected as int
    } else {
        n - 1
    }
}

/// Enter on a list of the detail asks to open its selected entry: on the
/// people, the selected person; on the linked contents, the selected
/// content; on an empty list, or on tags and languages, nothing. The rest
/// of the screen stays as it was.
pub proof fn lemma_enter_opens_selected_entry(s: BookDetailScreen, t: BookDetailScreen, key: KeyEvent)
    requires
        s.wf(),
        s.mode == DetailMode::View,
        s.in_related_sections,
        key.code == KeyCode::Enter,
        s.view_key(t, key),
    ensures
        t == (BookDetailScreen { pending_related_action: t.pending_related_action, ..s }),
        s.related_section == RelatedSection::PeopleWithRoles && s.item.people_with_roles@.len() > 0
            ==> t.pending_related_action == Some(
            BookDetailRelatedAction::OpenPersonWithRole {
                person_id: s.item.people_with_roles@[entry_at(
                    s.selected_person_with_role,
                    s.item.people_with_roles@.len(),
                )].person_id,
            },
        ),
        s.related_section == RelatedSection::LinkedContents && s.item.linked_contents@.len() > 0
            ==> t.pending_related_action == Some(
            BookDetailRelatedAction::OpenLinkedContent {
                content_id: s.item.linked_contents@[entry_at(
                    s.selected_linked_content,
                    s.item.linked_contents@.len(),
                )].id,
            },
        ),
        (s.related_section == RelatedSection::PeopleWithRoles && s.item.people_with_roles@.len()
            == 0) || (s.related_section == RelatedSection::LinkedContents
            && s.item.linked_contents@.len() == 0) || s.related_section == RelatedSection::Tags
            || s.related_section == RelatedSection::Languages ==> t.pending_related_action is None,
{
}

/// d (or Delete) on a list asks to remove its selected entry: the selected
/// person, content or tag; nothing on an empty list or on the languages.
/// n asks to add to the list in focus. The rest of the screen stays.
pub proof fn lemma_list_keys_ask_for_entry(s: BookDetailScreen, t: BookDetailScreen, key: KeyEvent)
    requires
        s.wf(),
        s.mode == DetailMode::View,
        s.in_related_sections,
        key.code == KeyCode::Char('d') || key.code == KeyCode::Delete || key.code == KeyCode::Char(
            'n',
        ),
        s.view_key(t, key),
    ensures
        t == (BookDetailScreen { pending_related_action: t.pending_related_action, ..s }),
        key.code == KeyCode::Char('n') ==> t.pending_related_action == Some(
            match s.related_section {
                RelatedSection::LinkedContents => BookDetailRelatedAction::AddLinkedContent,
                RelatedSection::PeopleWithRoles => BookDetailRelatedAction::AddPersonWithRole,
                RelatedSection::Tags => BookDetailRelatedAction::AddTag,
                RelatedSection::Languages => BookDetailRelatedAction::AddLanguage,
            },
        ),
        key.code != KeyCode::Char('n') ==> t.pending_related_action == (match s.related_section {
            RelatedSection::PeopleWithRoles => if s.item.people_with_roles@.len() == 0 {
                None
            } else {
                Some(
                    BookDetailRelatedAction::RemovePersonWithRole {
                        person_id: s.item.people_with_roles@[entry_at(
                            s.selected_person_with_role,
                            s.item.people_with_roles@.len(),
                        )].person_id,
                    },
                )
            },
            RelatedSection::LinkedContents => if s.item.linked_contents@.len() == 0 {
                None
            } else {
                Some(
                    BookDetailRelatedAction::RemoveLinkedContent {
                        content_id: s.item.linked_contents@[entry_at(
                            s.selected_linked_content,
                            s.item.linked_contents@.len(),
                        )].id,
                    },
                )
            },
            RelatedSection::Tags => if s.item.tags@.len() == 0 {
                None
            } else {
                Some(
                    BookDetailRelatedAction::RemoveTag {
                        tag: s.item.tags@[entry_at(s.selected_tag, s.item.tags@.len())],
                    },
                )
            },
            RelatedSection::Languages => None,
        }),
{
}
} // verus!
