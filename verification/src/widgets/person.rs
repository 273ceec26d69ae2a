//! An input for picking a person out of suggested ones, or naming a new one.

use vstd::prelude::*;
use crate::keys::KeyEvent;
use crate::text::{trim_to_option_str, trimmed_option};
use crate::widgets::input::{key_handled, selection_kept, InputWidget};
use crate::widgets::language::{id_at, labels_of, lists_labels, selected_option_id};

verus! {

/// A person input: the text input, the suggested people as (id, name) pairs,
/// and the id of the one selected.
#[derive(Debug, Clone, PartialEq, Eq)]
pub struct PersonWidget {
    pub input: InputWidget,
    pub selected: Option<i64>,
    pub suggestions: Vec<(i64, String)>,
}

impl PersonWidget {
    /// The person that `accept_or_draft_person` gives: the selected
    /// suggestion; else a new person (id 0) named by the trimmed text; else
    /// none where the text is blank.
    pub open spec fn chosen(&self) -> Option<(i64, Seq<char>)> {
        match self.input.selected_suggestion {
            Some(index) if index < self.suggestions@.len() => Some(
                (self.suggestions@[index as int].0, self.suggestions@[index as int].1@),
            ),
            _ => match trimmed_option(self.input.value@) {
                Some(name) => Some((0i64, name)),
                None => None,
            },
        }
    }

    pub fn new() -> (w: PersonWidget)
        ensures
            w.input.is_empty_input(),
            w.selected is None,
            w.suggestions@.len() == 0,
    {
        PersonWidget { input: InputWidget::new(), selected: None, suggestions: Vec::new() }
    }

    /// Passes the key to the input, then selects the person under the
    /// input's selection.
    pub fn handle_key(&mut self, key: KeyEvent)
        ensures
            key_handled(old(self).input, final(self).input, key),
            final(self).suggestions == old(self).suggestions,
            final(self).selected == id_at(
                final(self).input.selected_suggestion,
                final(self).suggestions@,
            ),
    {
        self.input.handle_key(key);
        self.sync_selected();
    }

    /// Replaces the suggested people; the input lists their names and keeps
    /// its selection on the new list.
    pub fn set_suggestions(&mut self, suggestions: Vec<(i64, String)>)
        ensures
            final(self).suggestions@ == suggestions@,
            lists_labels(final(self).input, suggestions@),
            final(self).input.value == old(self).input.value,
            final(self).input.cursor == old(self).input.cursor,
            final(self).input.selected_suggestion == selection_kept(
                old(self).input.selected_suggestion,
                suggestions@.len(),
            ),
            final(self).selected == id_at(
                final(self).input.selected_suggestion,
                suggestions@,
            ),
    {
        let labels = labels_of(&suggestions);
        self.suggestions = suggestions;
        self.input.set_suggestions(labels);
        self.sync_selected();
    }

    /// Offers `options`, the people known so far, as the suggestions.
    pub fn set_options(&mut self, options: Vec<(i64, String)>)
        ensures
            final(self).suggestions@ == options@,
            lists_labels(final(self).input, options@),
            final(self).input.value == old(self).input.value,
            final(self).input.cursor == old(self).input.cursor,
            final(self).input.selected_suggestion == selection_kept(
                old(self).input.selected_suggestion,
                options@.len(),
            ),
            final(self).selected == id_at(final(self).input.selected_suggestion, options@),
    {
        self.set_suggestions(options);
    }

    pub fn selected_id(&self) -> (id: Option<i64>)
        ensures
            id == self.selected,
    {
        self.selected
    }

    /// The selected person, or a new one named by the typed text (id 0), or
    /// none where the text is blank (see `chosen`). The input is emptied.
    pub fn accept_or_draft_person(&mut self) -> (person: Option<(i64, String)>)
        ensures
            match person {
                Some((id, name)) => old(self).chosen() == Some((id, name@)),
                None => old(self).chosen() is None,
            },
            final(self).input.is_empty_input(),
            final(self).selected is None,
            final(self).suggestions == old(self).suggestions,
    {
        let result = match self.input.selected_suggestion {
            Some(index) => if index < self.suggestions.len() {
                let (id, name) = (self.suggestions[index].0, self.suggestions[index].1.clone());
                Some((id, name))
            } else {
                match trim_to_option_str(self.input.value.as_str()) {
                    Some(name) => Some((0i64, name)),
                    None => None,
                }
            },
            None => match trim_to_option_str(self.input.value.as_str()) {
                Some(name) => Some((0i64, name)),
                None => None,
            },
        };
        self.input.clear();
        self.selected = None;
        result
    }

    fn sync_selected(&mut self)
        ensures
            final(self).input == old(self).input,
            final(self).suggestions == old(self).suggestions,
            final(self).selected == id_at(
                old(self).input.selected_suggestion,
                old(self).suggestions@,
            ),
    {
        self.selected = selected_option_id(self.input.selected_suggestion, &self.suggestions);
    }
}

impl Default for PersonWidget {
    fn default() -> (w: PersonWidget)
        ensures
            w.input.is_empty_input(),
            w.selected is None,
            w.suggestions@.len() == 0,
    {
        PersonWidget::new()
    }
}

} // verus!
