//! What the data-entry forms share: the texts shown for fields not being
//! edited, and how keys change their lists of entries.

use vstd::prelude::*;
use crate::keys::{KeyCode, KeyEvent};
use crate::text::{joined, trimmed, trim_to_option_str, views, join};
use crate::widgets::input::key_handled;
use crate::widgets::language::{id_at, LanguageWidget};

verus! {

/// The mark shown in place of an empty value.
pub open spec fn empty_mark() -> Seq<char> {
    seq!['—']
}

/// The values that hold more than whitespace, in their order.
pub open spec fn non_blank(values: Seq<Seq<char>>) -> Seq<Seq<char>>
    decreases values.len(),
{
    if values.len() == 0 {
        Seq::empty()
    } else if trimmed(values.last()).len() == 0 {
        non_blank(values.drop_last())
    } else {
        non_blank(values.drop_last()).push(values.last())
    }
}

/// The one-line summary of a collection: its non-blank values joined by
/// ", ", or the empty mark where there are none.
pub open spec fn summary(values: Seq<Seq<char>>) -> Seq<char> {
    if non_blank(values).len() == 0 {
        empty_mark()
    } else {
        joined(non_blank(values), seq![',', ' '])
    }
}

/// The row shown for a text field: its label, ": ", and its value, or the
/// empty mark where the value is blank.
pub open spec fn label_row(label: Seq<char>, value: Seq<char>) -> Seq<char> {
    label + seq![':', ' '] + if trimmed(value).len() == 0 {
        empty_mark()
    } else {
        value
    }
}

/// How a key changes a language input (see `LanguageWidget::handle_key`).
pub open spec fn language_key(l: LanguageWidget, after: LanguageWidget, key: KeyEvent) -> bool {
    &&& key_handled(l.input, after.input, key)
    &&& after.suggestions == l.suggestions
    &&& after.selected == id_at(after.input.selected_suggestion, after.suggestions@)
}

/// A language input whose suggestions were closed: text, cursor, options
/// and selected language kept.
pub open spec fn suggestions_closed(l: LanguageWidget, after: LanguageWidget) -> bool {
    &&& after.input.value == l.input.value
    &&& after.input.cursor == l.input.cursor
    &&& after.input.suggestions@.len() == 0
    &&& after.input.selected_suggestion is None
    &&& after.selected == l.selected
    &&& after.suggestions == l.suggestions
}

/// `after` is `before` with its last element replaced.
pub open spec fn last_replaced<T>(before: Seq<T>, after: Seq<T>) -> bool {
    &&& before.len() > 0
    &&& after.len() == before.len()
    &&& after.drop_last() == before.drop_last()
}

/// `s` without its last element, if it has one (`Vec::pop`).
pub open spec fn popped<T>(s: Seq<T>) -> Seq<T> {
    if s.len() == 0 {
        s
    } else {
        s.drop_last()
    }
}

/// Whether `key` is Ctrl+S, which saves the form.
pub open spec fn is_save_key(key: KeyEvent) -> bool {
    key.code == KeyCode::Char('s') && key.modifiers.control
}

/// Whether `value` holds nothing but whitespace.
pub fn is_blank_text(value: &str) -> (r: bool)
    ensures
        r == (trimmed(value@).len() == 0),
{
    trim_to_option_str(value).is_none()
}

/// The empty mark as a string.
pub fn empty_mark_text() -> (r: String)
    ensures
        r@ == empty_mark(),
{
    let mut r = String::new();
    r.append("—");
    proof {
        reveal_strlit("—");
    }
    r
}

/// The values of `values` that hold more than whitespace (see `non_blank`).
pub fn non_blank_values(values: &Vec<String>) -> (parts: Vec<String>)
    ensures
        views(parts@) == non_blank(views(values@)),
{
    let ghost v = views(values@);
    let mut parts: Vec<String> = Vec::new();
    let mut i: usize = 0;
    proof {
        assert(v.take(0) =~= Seq::<Seq<char>>::empty());
    }
    while i < values.len()
        invariant
            i <= values@.len(),
            v == views(values@),
            views(parts@) == non_blank(v.take(i as int)),
        decreases values@.len() - i,
    {
        proof {
            assert(v.take(i + 1).drop_last() =~= v.take(i as int));
            assert(v.take(i + 1).last() == values@[i as int]@);
        }
        if !is_blank_text(values[i].as_str()) {
            let item = values[i].clone();
            parts.push(item);
            proof {
                assert(views(parts@) =~= views(parts@.drop_last()).push(item@));
            }
        }
        i = i + 1;
    }
    proof {
        assert(v.take(values@.len() as int) =~= v);
    }
    parts
}

/// The summary of `values` (see `summary`).
pub fn collection_text_summary(values: &Vec<String>) -> (r: String)
    ensures
        r@ == summary(views(values@)),
{
    let parts = non_blank_values(values);
    proof {
        assert(views(parts@).len() == parts@.len());
    }
    if parts.len() == 0 {
        empty_mark_text()
    } else {
        proof {
            reveal_strlit(", ");
            assert(", "@ =~= seq![',', ' ']);
        }
        join(&parts, ", ")
    }
}

/// The row of a text field that is not being edited (see `label_row`).
pub fn label_row_text(label: &str, value: &str) -> (r: String)
    ensures
        r@ == label_row(label@, value@),
{
    let mut r = String::new();
    r.append(label);
    r.append(": ");
    if is_blank_text(value) {
        r.append("—");
    } else {
        r.append(value);
    }
    proof {
        reveal_strlit(": ");
        reveal_strlit("—");
    }
    r
}

} // verus!
