use ritmo::domain::{PartialDate, Place};
use ritmo::keys::{KeyCode, KeyEvent, KeyModifiers};
use ritmo::widgets::input::{input_cursor, suggestions_area, InputWidget};
use ritmo::widgets::language::LanguageWidget;
use ritmo::widgets::partial_date::{PartialDateField, PartialDateWidget};
use ritmo::widgets::person::PersonWidget;
use ritmo::widgets::place::{checkbox_text, PlaceField, PlaceWidget};
use ritmo::widgets::popup::{centered_popup_area, PopupWidget, Rect};
use ritmo::widgets::statusbar::StatusBar;
use ritmo::widgets::table::TableWidget;

#[test]
fn editing_updates_value_cursor_and_resets_selection() {
    let mut input = InputWidget::new();
    input.selected_suggestion = Some(1);

    input.handle_char('a');
    input.handle_char('ß');
    input.handle_backspace();

    assert_eq!(input.value, "a");
    assert_eq!(input.cursor, 1);
    assert_eq!(input.selected_suggestion, None);
}

#[test]
fn handle_key_routes_supported_keys() {
    let mut input = InputWidget::new();
    input.set_suggestions(vec!["alpha".into(), "beta".into()]);

    input.handle_key(KeyEvent::from(KeyCode::Down));
    input.handle_key(KeyEvent::from(KeyCode::Char('ß')));
    input.handle_key(KeyEvent::from(KeyCode::Backspace));

    assert_eq!(input.selected_suggestion, None);
    assert!(input.value.is_empty());
    assert_eq!(input.cursor, 0);
}

#[test]
fn suggestion_navigation_clamps_within_bounds() {
    let mut input = InputWidget::new();
    input.set_suggestions(vec!["alpha".into(), "beta".into(), "gamma".into()]);

    input.handle_down();
    assert_eq!(input.selected_suggestion, Some(0));

    input.handle_down();
    assert_eq!(input.selected_suggestion, Some(1));

    input.handle_up();
    assert_eq!(input.selected_suggestion, Some(0));

    input.handle_up();
    assert_eq!(input.selected_suggestion, Some(0));
}

#[test]
fn accept_returns_selected_suggestion_and_clears_state() {
    let mut input = InputWidget::new();
    input.value = "alp".into();
    input.cursor = 3;
    input.set_suggestions(vec!["alpha".into(), "alpine".into()]);
    input.selected_suggestion = Some(1);

    let accepted = input.accept();

    assert_eq!(accepted, "alpine");
    assert_eq!(input, InputWidget::new());
}

#[test]
fn accept_returns_current_value_when_no_suggestion_is_selected() {
    let mut input = InputWidget::new();
    input.value = "plain".into();
    input.cursor = 5;
    input.set_suggestions(vec!["planet".into()]);

    let accepted = input.accept();

    assert_eq!(accepted, "plain");
    assert_eq!(input, InputWidget::new());
}

#[test]
fn set_suggestions_clears_selection_when_list_becomes_empty() {
    let mut input = InputWidget::new();
    input.set_suggestions(vec!["alpha".into()]);
    input.selected_suggestion = Some(0);

    input.set_suggestions(Vec::new());

    assert!(input.suggestions.is_empty());
    assert_eq!(input.selected_suggestion, None);
}

#[test]
fn input_down_selects_last_after_up_from_nothing() {
    let mut input = InputWidget::new();
    input.set_suggestions(vec!["a".into(), "b".into(), "c".into()]);
    input.handle_up();
    assert_eq!(input.selected_suggestion, Some(2));
    input.handle_down();
    assert_eq!(input.selected_suggestion, Some(2));
}

#[test]
fn input_arrows_do_nothing_without_suggestions() {
    let mut input = InputWidget::new();
    input.handle_down();
    assert_eq!(input.selected_suggestion, None);
    input.handle_up();
    assert_eq!(input.selected_suggestion, None);
}

#[test]
fn input_set_suggestions_moves_selection_onto_shorter_list() {
    let mut input = InputWidget::new();
    input.set_suggestions(vec!["a".into(), "b".into(), "c".into()]);
    input.selected_suggestion = Some(2);
    input.set_suggestions(vec!["x".into()]);
    assert_eq!(input.selected_suggestion, Some(0));
}

#[test]
fn input_dismiss_suggestions_reports_whether_anything_was_open() {
    let mut input = InputWidget::new();
    assert!(!input.dismiss_suggestions());
    input.value = "it".into();
    input.set_suggestions(vec!["Italiano".into()]);
    assert!(input.dismiss_suggestions());
    assert!(input.suggestions.is_empty());
    assert_eq!(input.value, "it");
}

#[test]
fn new_starts_without_selection() {
    let widget = LanguageWidget::new();

    assert_eq!(widget.selected_id(), None);
    assert!(widget.input.value.is_empty());
}

#[test]
fn handle_key_updates_selected_language_id() {
    let mut widget = LanguageWidget::new();
    widget.set_suggestions(vec![
        (10, "Italiano (ita, it)".into()),
        (20, "English (eng, en)".into()),
    ]);

    widget.handle_key(KeyEvent::from(KeyCode::Down));
    assert_eq!(widget.selected_id(), Some(10));

    widget.handle_key(KeyEvent::from(KeyCode::Down));
    assert_eq!(widget.selected_id(), Some(20));

    widget.handle_key(KeyEvent::from(KeyCode::Char('e')));
    assert_eq!(widget.selected_id(), None);
}

#[test]
fn set_suggestions_keeps_selection_in_bounds() {
    let mut widget = LanguageWidget::new();
    widget.set_suggestions(vec![(10, "Italiano".into()), (20, "English".into())]);
    widget.handle_key(KeyEvent::from(KeyCode::Down));
    widget.handle_key(KeyEvent::from(KeyCode::Down));

    widget.set_suggestions(vec![(30, "Deutsch".into())]);

    assert_eq!(widget.input.selected_suggestion, Some(0));
    assert_eq!(widget.selected_id(), Some(30));
}

#[test]
fn new_starts_empty_with_year_active() {
    let widget = PartialDateWidget::new();

    assert_eq!(widget.year, None);
    assert_eq!(widget.month, None);
    assert_eq!(widget.day, None);
    assert!(!widget.circa);
    assert_eq!(widget.active_field, PartialDateField::Year);

    let value = widget.value();
    assert_eq!(value.year, None);
    assert_eq!(value.month, None);
    assert_eq!(value.day, None);
    assert!(!value.circa);
}

#[test]
fn year_accepts_negative_values_and_backspace_clears_partial_input() {
    let mut widget = PartialDateWidget::new();

    widget.handle_key(KeyEvent::from(KeyCode::Char('-')));
    assert_eq!(widget.year, None);

    widget.handle_key(KeyEvent::from(KeyCode::Char('4')));
    widget.handle_key(KeyEvent::from(KeyCode::Char('2')));
    assert_eq!(widget.year, Some(-42));

    widget.handle_key(KeyEvent::from(KeyCode::Backspace));
    assert_eq!(widget.year, Some(-4));

    widget.handle_key(KeyEvent::from(KeyCode::Backspace));
    assert_eq!(widget.year, None);
}

#[test]
fn month_and_day_ignore_out_of_range_values() {
    let mut widget = PartialDateWidget::new();

    widget.handle_key(KeyEvent::from(KeyCode::Tab));
    widget.handle_key(KeyEvent::from(KeyCode::Char('1')));
    widget.handle_key(KeyEvent::from(KeyCode::Char('3')));
    assert_eq!(widget.month, Some(1));

    widget.handle_key(KeyEvent::from(KeyCode::Backspace));
    widget.handle_key(KeyEvent::from(KeyCode::Char('9')));
    assert_eq!(widget.month, Some(9));

    widget.handle_key(KeyEvent::from(KeyCode::Tab));
    widget.handle_key(KeyEvent::from(KeyCode::Char('3')));
    widget.handle_key(KeyEvent::from(KeyCode::Char('2')));
    assert_eq!(widget.day, Some(3));
}

#[test]
fn partial_date_tab_and_alt_tab_cycle_fields() {
    let mut widget = PartialDateWidget::new();

    widget.handle_key(KeyEvent::from(KeyCode::Tab));
    widget.handle_key(KeyEvent::from(KeyCode::Tab));
    assert_eq!(widget.active_field, PartialDateField::Day);

    widget.handle_key(KeyEvent::new(KeyCode::Tab, KeyModifiers::alt()));
    assert_eq!(widget.active_field, PartialDateField::Month);

    widget.handle_key(KeyEvent::new(KeyCode::BackTab, KeyModifiers::none()));
    assert_eq!(widget.active_field, PartialDateField::Year);
}

#[test]
fn space_only_toggles_circa_on_circa_field() {
    let mut widget = PartialDateWidget::new();

    widget.handle_key(KeyEvent::from(KeyCode::Char(' ')));
    assert!(!widget.circa);

    for _ in 0..3 {
        widget.handle_key(KeyEvent::from(KeyCode::Tab));
    }
    assert_eq!(widget.active_field, PartialDateField::Circa);

    widget.handle_key(KeyEvent::from(KeyCode::Char(' ')));
    assert!(widget.circa);
}

#[test]
fn set_value_populates_buffers_and_value_round_trips() {
    let mut widget = PartialDateWidget::new();
    let date = PartialDate {
        year: Some(-1200),
        month: Some(7),
        day: Some(9),
        circa: true,
    };

    widget.set_value(date);

    assert_eq!(widget.year, Some(-1200));
    assert_eq!(widget.month, Some(7));
    assert_eq!(widget.day, Some(9));
    assert!(widget.circa);
    assert_eq!(widget.year_input, "-1200");
    assert_eq!(widget.month_input, "7");
    assert_eq!(widget.day_input, "9");

    let value = widget.value();
    assert_eq!(value.year, date.year);
    assert_eq!(value.month, date.month);
    assert_eq!(value.day, date.day);
    assert_eq!(value.circa, date.circa);
}

#[test]
fn partial_date_year_rejects_second_minus_and_overflow() {
    let mut widget = PartialDateWidget::new();
    for c in ['2', '-', '1', '4', '7', '4', '8', '3', '6', '4', '7'] {
        widget.handle_key(KeyEvent::from(KeyCode::Char(c)));
    }
    assert_eq!(widget.year_input, "2147483647");
    assert_eq!(widget.year, Some(2147483647));
    widget.handle_key(KeyEvent::from(KeyCode::Char('0')));
    assert_eq!(widget.year_input, "2147483647");
}

#[test]
fn partial_date_letters_are_ignored() {
    let mut widget = PartialDateWidget::new();
    widget.handle_key(KeyEvent::from(KeyCode::Char('x')));
    assert_eq!(widget, PartialDateWidget::new());
}

#[test]
fn selected_id_follows_navigation() {
    let mut widget = PersonWidget::new();
    widget.set_suggestions(vec![(1, "Ada Lovelace".into()), (2, "Alan Turing".into())]);

    assert_eq!(widget.selected_id(), None);

    widget.handle_key(KeyEvent::from(KeyCode::Down));
    assert_eq!(widget.selected_id(), Some(1));

    widget.handle_key(KeyEvent::from(KeyCode::Down));
    assert_eq!(widget.selected_id(), Some(2));
}

#[test]
fn handle_key_updates_embedded_input() {
    let mut widget = PersonWidget::new();

    widget.handle_key(KeyEvent::from(KeyCode::Char('a')));
    widget.handle_key(KeyEvent::from(KeyCode::Char('b')));

    assert_eq!(widget.input.value, "ab");
    assert_eq!(widget.input.cursor, 2);
}

#[test]
fn person_accept_gives_selected_or_new_person() {
    let mut widget = PersonWidget::new();
    widget.set_options(vec![(4, "Ada Lovelace".into())]);
    widget.handle_key(KeyEvent::from(KeyCode::Down));
    assert_eq!(widget.accept_or_draft_person(), Some((4, "Ada Lovelace".to_string())));
    assert!(widget.input.value.is_empty());

    for c in "  Nuovo  ".chars() {
        widget.handle_key(KeyEvent::from(KeyCode::Char(c)));
    }
    assert_eq!(widget.accept_or_draft_person(), Some((0, "Nuovo".to_string())));

    widget.handle_key(KeyEvent::from(KeyCode::Char(' ')));
    assert_eq!(widget.accept_or_draft_person(), None);
}

#[test]
fn place_tab_and_alt_tab_cycle_fields() {
    let mut widget = PlaceWidget::new();
    assert_eq!(widget.active_field, PlaceField::Continent);

    widget.handle_key(KeyEvent::from(KeyCode::Tab));
    assert_eq!(widget.active_field, PlaceField::Country);

    widget.handle_key(KeyEvent::new(KeyCode::Tab, KeyModifiers::alt()));
    assert_eq!(widget.active_field, PlaceField::Continent);
}

#[test]
fn space_toggles_only_active_checkbox() {
    let mut widget = PlaceWidget::new();
    widget.active_field = PlaceField::Circa;

    widget.handle_key(KeyEvent::from(KeyCode::Char(' ')));
    assert!(widget.circa);
    assert!(!widget.disputed);

    widget.active_field = PlaceField::Disputed;
    widget.handle_key(KeyEvent::from(KeyCode::Char(' ')));
    assert!(widget.disputed);
}

#[test]
fn text_keys_are_delegated_to_active_input() {
    let mut widget = PlaceWidget::new();
    widget.active_field = PlaceField::City;

    widget.handle_key(KeyEvent::from(KeyCode::Char('R')));
    widget.handle_key(KeyEvent::from(KeyCode::Char('o')));
    widget.handle_key(KeyEvent::from(KeyCode::Backspace));

    assert_eq!(widget.city.value, "R");
    assert_eq!(widget.city.cursor, 1);
}

#[test]
fn value_and_set_value_roundtrip_place() {
    let mut widget = PlaceWidget::new();
    widget.set_value(Place {
        id: 99,
        continent: Some("Europa".into()),
        country: Some("Italia".into()),
        city: Some("Roma".into()),
        circa: true,
        disputed: true,
    });

    let place = widget.value();
    assert_eq!(place.id, 0);
    assert_eq!(place.continent.as_deref(), Some("Europa"));
    assert_eq!(place.country.as_deref(), Some("Italia"));
    assert_eq!(place.city.as_deref(), Some("Roma"));
    assert!(place.circa);
    assert!(place.disputed);
}

#[test]
fn place_empty_texts_read_back_as_missing() {
    let mut widget = PlaceWidget::new();
    widget.set_value(Place {
        id: 1,
        continent: None,
        country: Some(String::new()),
        city: Some("Roma".into()),
        circa: false,
        disputed: false,
    });
    let place = widget.value();
    assert_eq!(place.continent, None);
    assert_eq!(place.country, None);
    assert_eq!(place.city.as_deref(), Some("Roma"));
}

#[test]
fn new_initializes_hidden_popup() {
    let popup = PopupWidget::new("Delete book?".to_string());

    assert_eq!(popup.message, "Delete book?");
    assert!(!popup.visible);
}

#[test]
fn show_and_hide_toggle_visibility() {
    let mut popup = PopupWidget::new("Delete book?".to_string());

    popup.show();
    assert!(popup.visible);

    popup.set_hidden();
    assert!(!popup.visible);
}

#[test]
fn popup_area_is_centred_around_message_and_hint() {
    let area = Rect { x: 0, y: 0, width: 40, height: 7 };
    let r = centered_popup_area(area, "Delete book?");
    assert_eq!(r, Rect { x: 4, y: 1, width: 32, height: 4 });
}

#[test]
fn popup_area_shrinks_to_small_screens() {
    let area = Rect { x: 0, y: 0, width: 10, height: 3 };
    let r = centered_popup_area(area, "A very long message that will not fit");
    assert!(r.width <= 10 && r.height <= 3);
    assert!(r.width >= 3 && r.height >= 3);
}

#[test]
fn setters_update_status_bar_state() {
    let mut status_bar = StatusBar::new();

    status_bar.set_keys(vec!["q Quit".to_string(), "Enter Open".to_string()]);
    status_bar.set_info("Book 3 of 47".to_string());
    status_bar.set_message("Saved".to_string());

    assert_eq!(status_bar.keys, vec!["q Quit", "Enter Open"]);
    assert_eq!(status_bar.info, "Book 3 of 47");
    assert_eq!(status_bar.message, "Saved");

    status_bar.clear_message();
    assert_eq!(status_bar.message, "");
}

#[test]
fn status_bar_keys_are_joined_by_two_spaces() {
    let mut status_bar = StatusBar::new();
    status_bar.set_keys(vec!["q Quit".to_string(), "Enter Open".to_string()]);
    assert_eq!(status_bar.keys_text(), "q Quit  Enter Open");
}

#[test]
fn default_table_widget_is_empty() {
    let table = TableWidget::default();
    assert!(table.headers.is_empty());
    assert!(table.rows.is_empty());
}

#[test]
fn table_widget_stores_headers_and_rows() {
    let table = TableWidget {
        headers: vec!["Title".to_string(), "Author".to_string()],
        rows: vec![vec!["Dune".to_string(), "Frank Herbert".to_string()]],
    };

    assert_eq!(table.headers, vec!["Title", "Author"]);
    assert_eq!(table.rows, vec![vec!["Dune", "Frank Herbert"]]);
}

#[test]
fn input_cursor_stays_inside_the_border() {
    let area = Rect { x: 2, y: 5, width: 10, height: 3 };
    assert_eq!(input_cursor(area, 3), (6, 6));
    assert_eq!(input_cursor(area, 50), (11, 6));
    let flat = Rect { x: 2, y: 5, width: 2, height: 1 };
    assert_eq!(input_cursor(flat, 3), (2, 5));
}

#[test]
fn suggestions_area_sits_under_the_input() {
    let area = Rect { x: 1, y: 0, width: 20, height: 10 };
    assert_eq!(suggestions_area(area, 3), Some(Rect { x: 1, y: 3, width: 20, height: 5 }));
    assert_eq!(suggestions_area(area, 30), Some(Rect { x: 1, y: 3, width: 20, height: 7 }));
    assert_eq!(suggestions_area(area, 0), None);
    let short = Rect { x: 1, y: 0, width: 20, height: 3 };
    assert_eq!(suggestions_area(short, 3), None);
}

#[test]
fn checkbox_text_marks_set_values() {
    assert_eq!(checkbox_text("Circa", true), "Circa: [x]");
    assert_eq!(checkbox_text("Disputato", false), "Disputato: [ ]");
}

#[test]
fn date_line_pads_each_part() {
    let mut widget = PartialDateWidget::new();
    widget.set_value(PartialDate { year: Some(12), month: Some(6), day: None, circa: true });
    assert_eq!(widget.line_text(), "Anno: [12  ] Mese: [6 ] Giorno: [  ] Circa: [x]");
    widget.set_value(PartialDate { year: Some(-12345), month: None, day: Some(31), circa: false });
    assert_eq!(widget.line_text(), "Anno: [-12345] Mese: [  ] Giorno: [31] Circa: [ ]");
}
