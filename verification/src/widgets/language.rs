//! An input for picking one language out of suggested ones.

use vstd::prelude::*;
use crate::keys::KeyEvent;
use crate::widgets::input::{key_handled, selection_kept, InputWidget};

verus! {

/// The id of the suggestion that `selected` points at, if it points into
/// `options`.
pub open spec fn id_at(selected: Option<usize>, options: Seq<(i64, String)>) -> Option<i64> {
    match selected {
        Some(index) => if index < options.len() {
            Some(options[index as int].0)
        } else {
            None
        },
        None => None,
    }
}

/// Whether the input lists exactly the labels of `options`, in order.
pub open spec fn lists_labels(input: InputWidget, options: Seq<(i64, String)>) -> bool {
    &&& input.suggestions@.len() == options.len()
    &&& forall|i: int|
        0 <= i < options.len() ==> (#[trigger] input.suggestions@[i])@ == options[i].1@
}

/// The labels of `options`, in order.
pub fn labels_of(options: &Vec<(i64, String)>) -> (labels: Vec<String>)
    ensures
        labels@.len() == options@.len(),
        forall|i: int| 0 <= i < options@.len() ==> (#[trigger] labels@[i])@ == options@[i].1@,
{
    let mut labels: Vec<String> = Vec::new();
    let mut i: usize = 0;
    while i < options.len()
        invariant
            i <= options@.len(),
            labels@.len() == i,
            forall|j: int| 0 <= j < i ==> (#[trigger] labels@[j])@ == options@[j].1@,
        decreases options@.len() - i,
    {
        labels.push(options[i].1.clone());
        i = i + 1;
    }
    labels
}

/// The id of the selected suggestion, as `id_at` states.
pub fn selected_option_id(selected: Option<usize>, options: &Vec<(i64, String)>) -> (id: Option<
    i64,
>)
    ensures
        id == id_at(selected, options@),
{
    match selected {
        Some(index) => if index < options.len() {
            Some(options[index].0)
        } else {
            None
        },
        None => None,
    }
}

/// A language input: the text input, the suggested languages as (id, label)
/// pairs, and the id of the one selected.
#[derive(Debug, Clone, PartialEq, Eq)]
pub struct LanguageWidget {
    pub input: InputWidget,
    pub selected: Option<i64>,
    pub suggestions: Vec<(i64, String)>,
}

impl LanguageWidget {
    pub fn new() -> (w: LanguageWidget)
        ensures
            w.input.is_empty_input(),
            w.selected is None,
            w.suggestions@.len() == 0,
    {
        LanguageWidget { input: InputWidget::new(), selected: None, suggestions: Vec::new() }
    }

    /// Passes the key to the input, then selects the language under the
    /// input's selection.
    pub fn handle_key(&mut self, key: KeyEvent)
        ensures
            key_handled(old(self).input, final(self).input, key),
            final(self).suggestions == old(self).suggestions,
            final(self).selected == id_at(
                final(self).input.selected_suggestion,
                final(self).suggestions@,
            ),
    {
        self.input.handle_key(key);
        self.sync_selected();
    }

    /// Replaces the suggested languages; the input lists their labels and
    /// keeps its selection on the new list.
    pub fn set_suggestions(&mut self, suggestions: Vec<(i64, String)>)
        ensures
            final(self).suggestions@ == suggestions@,
            lists_labels(final(self).input, suggestions@),
            final(self).input.value == old(self).input.value,
            final(self).input.cursor == old(self).input.cursor,
            final(self).input.selected_suggestion == selection_kept(
                old(self).input.selected_suggestion,
                suggestions@.len(),
            ),
            final(self).selected == id_at(
                final(self).input.selected_suggestion,
                suggestions@,
            ),
    {
        let labels = labels_of(&suggestions);
        self.input.set_suggestions(labels);
        self.suggestions = suggestions;
        self.sync_selected();
    }

    pub fn selected_id(&self) -> (id: Option<i64>)
        ensures
            id == self.selected,
    {
        self.selected
    }

    fn sync_selected(&mut self)
        ensures
            final(self).input == old(self).input,
            final(self).suggestions == old(self).suggestions,
            final(self).selected == id_at(
                old(self).input.selected_suggestion,
                old(self).suggestions@,
            ),
    {
        self.selected = selected_option_id(self.input.selected_suggestion, &self.suggestions);
    }
}

impl Default for LanguageWidget {
    fn default() -> (w: LanguageWidget)
        ensures
            w.input.is_empty_input(),
            w.selected is None,
            w.suggestions@.len() == 0,
    {
        LanguageWidget::new()
    }
}

} // verus!
