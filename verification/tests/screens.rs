use ritmo::app::{AppAction, AppNavigation, MainWindow, ScreenLevel};
use ritmo::domain::{Book, Content, PartialDate};
use ritmo::keys::{KeyCode, KeyEvent, KeyModifiers};
use ritmo::presenter::{BookDetail, ContentDetail, ContentListItem, PersonRoleView};
use ritmo::screens::book_detail::{
    BookDetailPendingChanges, BookDetailRelatedAction, BookDetailScreen, DetailMode,
};
use ritmo::screens::content_create::{
    ContentCreateAction, ContentCreateScreen, ContentDraft, ContentField,
};
use ritmo::screens::lists::{BookListScreen, ContentListScreen};
use ritmo::screens::people_create::{PersonCreateAction, PersonCreateScreen, PersonDraft, PersonField};
use ritmo::widgets::input::InputWidget;
use ritmo::widgets::language::LanguageWidget;
use ritmo::widgets::partial_date::PartialDateField;
use ritmo::widgets::statusbar::StatusBar;

fn key(code: KeyCode) -> KeyEvent {
    KeyEvent::from(code)
}

#[test]
fn new_starts_at_title_with_empty_state() {
    let screen = ContentCreateScreen::new();

    assert_eq!(screen.active_field, ContentField::Title);
    assert!(screen.title.value.is_empty());
    assert!(screen.people.is_empty());
    assert!(screen.languages.is_empty());
    assert!(screen.tags.is_empty());
}

#[test]
fn tab_and_backtab_navigate_fields_with_wrap() {
    let mut screen = ContentCreateScreen::new();

    screen.handle_key(key(KeyCode::Tab));
    assert_eq!(screen.active_field, ContentField::PublicationDate);

    screen.handle_key(key(KeyCode::BackTab));
    assert_eq!(screen.active_field, ContentField::Title);

    screen.handle_key(key(KeyCode::Enter));
    assert_eq!(screen.active_field, ContentField::PublicationDate);

    screen.handle_key(key(KeyCode::BackTab));
    assert_eq!(screen.active_field, ContentField::Title);

    let mut wrap_screen = ContentCreateScreen::new();
    wrap_screen.handle_key(key(KeyCode::BackTab));
    assert_eq!(wrap_screen.active_field, ContentField::Tags);
}

#[test]
fn esc_and_ctrl_s_return_actions() {
    let mut screen = ContentCreateScreen::new();

    let cancel = screen.handle_key(key(KeyCode::Esc));
    assert_eq!(cancel, ContentCreateAction::Cancel);

    let submit = screen.handle_key(KeyEvent::new(KeyCode::Char('s'), KeyModifiers::control()));
    assert_eq!(
        submit,
        ContentCreateAction::Submit(ContentDraft {
            name: "".into(),
            original_title: None,
            type_id: None,
            genre_id: None,
            publication_date: None,
            notes: None,
        })
    );
}

#[test]
fn esc_inside_publication_date_returns_to_year_without_cancelling_screen() {
    let mut screen = ContentCreateScreen::new();
    screen.active_field = ContentField::PublicationDate;
    screen.publication_date.active_field = PartialDateField::Day;

    let action = screen.handle_key(key(KeyCode::Esc));

    assert_eq!(action, ContentCreateAction::Nothing);
    assert_eq!(screen.active_field, ContentField::PublicationDate);
    assert_eq!(screen.publication_date.active_field, PartialDateField::Year);
}

#[test]
fn esc_closes_people_dropdown_without_cancelling_screen() {
    let mut screen = ContentCreateScreen::new_with_options(
        vec![(1, "Ada Lovelace".into()), (2, "Alan Turing".into())],
        vec![(1, "author".into())],
    );
    screen.active_field = ContentField::People;
    screen.handle_key(key(KeyCode::Char('n')));
    screen.handle_key(key(KeyCode::Char('a')));
    screen.handle_key(key(KeyCode::Char('d')));

    let action = screen.handle_key(key(KeyCode::Esc));

    assert_eq!(action, ContentCreateAction::Nothing);
    assert!(screen.people_add_flow.is_none());
    assert!(screen.people.is_empty());
}

#[test]
fn esc_closes_languages_dropdown_without_cancelling_screen() {
    let mut screen = ContentCreateScreen::new();
    screen.active_field = ContentField::Languages;
    screen.languages.push((LanguageWidget::new(), InputWidget::new()));
    let language = &mut screen.languages[0].0;
    language.input.value = "it".into();
    language.input.cursor = 2;
    language.set_suggestions(vec![(1, "Italiano".into()), (2, "English".into())]);
    language.input.selected_suggestion = Some(0);

    let action = screen.handle_key(key(KeyCode::Esc));

    assert_eq!(action, ContentCreateAction::Nothing);
    assert!(screen.languages[0].0.input.suggestions.is_empty());
    assert_eq!(screen.languages[0].0.input.selected_suggestion, None);
    assert_eq!(screen.languages[0].0.input.value, "it");
}

#[test]
fn collections_support_add_and_remove() {
    let mut screen = ContentCreateScreen::new_with_options(
        vec![(1, "Ada Lovelace".into())],
        vec![(1, "author".into())],
    );

    for _ in 0..4 {
        screen.handle_key(key(KeyCode::Enter));
    }
    assert_eq!(screen.active_field, ContentField::People);
    screen.handle_key(key(KeyCode::Char('n')));
    assert!(screen.people_add_flow.is_some());
    screen.handle_key(key(KeyCode::Char('a')));
    screen.handle_key(key(KeyCode::Down));
    screen.handle_key(key(KeyCode::Enter));
    screen.handle_key(key(KeyCode::Enter));
    assert_eq!(screen.people.len(), 1);
    screen.handle_key(key(KeyCode::Char('d')));
    assert_eq!(screen.people.len(), 0);

    screen.handle_key(key(KeyCode::Enter));
    assert_eq!(screen.active_field, ContentField::Languages);
    screen.handle_key(key(KeyCode::Char('n')));
    assert_eq!(screen.languages.len(), 1);

    screen.handle_key(key(KeyCode::Enter));
    assert_eq!(screen.active_field, ContentField::Tags);
    screen.handle_key(key(KeyCode::Char('n')));
    assert_eq!(screen.tags.len(), 1);
}

#[test]
fn people_flow_existing_person_then_role_adds_pair() {
    let mut screen = ContentCreateScreen::new_with_options(
        vec![(1, "Ada Lovelace".into()), (2, "Alan Turing".into())],
        vec![(7, "author".into()), (8, "editor".into())],
    );
    screen.active_field = ContentField::People;

    screen.handle_key(key(KeyCode::Char('n')));
    screen.handle_key(key(KeyCode::Char('a')));
    screen.handle_key(key(KeyCode::Down));
    let action = screen.handle_key(key(KeyCode::Enter));
    assert_eq!(action, ContentCreateAction::Nothing);
    assert!(screen.people_add_flow.is_some());

    screen.handle_key(key(KeyCode::Down));
    let action = screen.handle_key(key(KeyCode::Enter));
    assert_eq!(action, ContentCreateAction::Nothing);
    assert!(screen.people_add_flow.is_none());
    assert_eq!(screen.people.len(), 1);
    assert_eq!(screen.people[0].person_id, 1);
    assert_eq!(screen.people[0].role_id, 8);
}

#[test]
fn people_flow_new_name_emits_create_action() {
    let mut screen = ContentCreateScreen::new_with_options(vec![], vec![(7, "author".into())]);
    screen.active_field = ContentField::People;
    screen.handle_key(key(KeyCode::Char('n')));
    screen.handle_key(key(KeyCode::Char('M')));
    screen.handle_key(key(KeyCode::Char('a')));

    let action = screen.handle_key(key(KeyCode::Enter));
    assert_eq!(
        action,
        ContentCreateAction::CreatePersonForContent("Ma".to_string())
    );
}

#[test]
fn complete_person_creation_moves_to_role_step_and_can_confirm() {
    let mut screen = ContentCreateScreen::new_with_options(vec![], vec![(7, "author".into())]);
    screen.active_field = ContentField::People;
    screen.handle_key(key(KeyCode::Char('n')));

    screen.complete_person_creation(10, "Nuovo Nome".into());
    let action = screen.handle_key(key(KeyCode::Enter));
    assert_eq!(action, ContentCreateAction::Nothing);
    assert_eq!(screen.people.len(), 1);
    assert_eq!(screen.people[0].person_id, 10);
    assert_eq!(screen.people[0].role_id, 7);
}

#[test]
fn esc_in_role_step_cancels_people_add_flow() {
    let mut screen = ContentCreateScreen::new_with_options(
        vec![(1, "Ada Lovelace".into())],
        vec![(7, "author".into())],
    );
    screen.active_field = ContentField::People;
    screen.handle_key(key(KeyCode::Char('n')));
    screen.handle_key(key(KeyCode::Char('a')));
    screen.handle_key(key(KeyCode::Down));
    screen.handle_key(key(KeyCode::Enter));

    let action = screen.handle_key(key(KeyCode::Esc));

    assert_eq!(action, ContentCreateAction::Nothing);
    assert!(screen.people_add_flow.is_none());
    assert!(screen.people.is_empty());
}

#[test]
fn to_content_validates_title_and_maps_optional_fields() {
    let mut screen = ContentCreateScreen::new();
    assert!(screen.to_content().is_none());

    screen.title.value = "Il nome della rosa".into();
    screen.notes.value = "  Romanzo storico  ".into();

    screen.active_field = ContentField::PublicationDate;
    screen.handle_key(key(KeyCode::Char('1')));
    screen.handle_key(key(KeyCode::Char('9')));
    screen.handle_key(key(KeyCode::Char('8')));
    screen.handle_key(key(KeyCode::Char('0')));

    let content = screen.to_content().unwrap();
    assert_eq!(content.id, 0);
    assert_eq!(content.title, "Il nome della rosa");
    assert_eq!(content.notes.as_deref(), Some("Romanzo storico"));
    assert_eq!(content.publication_year.unwrap().year, Some(1980));
}

#[test]
fn content_draft_reads_genre_as_integer() {
    let mut screen = ContentCreateScreen::new();
    screen.genre.value = " 42 ".into();
    assert_eq!(screen.to_draft().genre_id, Some(42));
    screen.genre.value = "fantasy".into();
    assert_eq!(screen.to_draft().genre_id, None);
}

#[test]
fn complete_person_creation_keeps_options_in_name_order() {
    let mut screen = ContentCreateScreen::new_with_options(
        vec![(1, "Bruno".into()), (2, "Dario".into())],
        vec![(7, "author".into())],
    );
    screen.active_field = ContentField::People;
    screen.handle_key(key(KeyCode::Char('n')));
    screen.complete_person_creation(3, "Carla".into());
    assert_eq!(
        screen.people_options,
        vec![(1, "Bruno".to_string()), (3, "Carla".to_string()), (2, "Dario".to_string())]
    );
}

#[test]
fn complete_person_creation_without_flow_changes_nothing() {
    let mut screen = ContentCreateScreen::new_with_options(vec![], vec![(7, "author".into())]);
    let before = screen.clone();
    screen.complete_person_creation(3, "Carla".into());
    assert_eq!(screen, before);
}

#[test]
fn role_cursor_stops_at_both_ends() {
    let mut screen = ContentCreateScreen::new_with_options(
        vec![(1, "Ada".into())],
        vec![(7, "author".into()), (8, "editor".into())],
    );
    screen.active_field = ContentField::People;
    screen.handle_key(key(KeyCode::Char('n')));
    screen.handle_key(key(KeyCode::Down));
    screen.handle_key(key(KeyCode::Enter));
    screen.handle_key(key(KeyCode::Up));
    screen.handle_key(key(KeyCode::Down));
    screen.handle_key(key(KeyCode::Down));
    screen.handle_key(key(KeyCode::Down));
    screen.handle_key(key(KeyCode::Enter));
    assert_eq!(screen.people[0].role_id, 8);
    assert_eq!(screen.people_display(), "Ada (editor)");
}

#[test]
fn content_summaries_skip_blank_entries() {
    let mut screen = ContentCreateScreen::new();
    assert_eq!(screen.tags_display(), "—");
    screen.active_field = ContentField::Tags;
    screen.handle_key(key(KeyCode::Char('n')));
    screen.handle_key(key(KeyCode::Char('x')));
    screen.handle_key(key(KeyCode::Char('n')));
    screen.handle_key(key(KeyCode::Char('n')));
    screen.handle_key(key(KeyCode::Char('y')));
    assert_eq!(screen.tags_display(), "x, y");
}

#[test]
fn new_starts_at_name_field_with_empty_state() {
    let screen = PersonCreateScreen::new();

    assert_eq!(screen.active_field, PersonField::Name);
    assert!(screen.name.value.is_empty());
    assert!(screen.aliases.is_empty());
    assert!(screen.places.is_empty());
    assert!(screen.languages.is_empty());
    assert_eq!(screen.birth_date.year, None);
    assert_eq!(screen.death_date.year, None);
}

#[test]
fn tab_advances_non_date_fields_enter_advances_date_fields() {
    let mut screen = PersonCreateScreen::new();

    let tab_steps = [
        PersonField::GivenName,
        PersonField::Surname,
        PersonField::DisplayName,
        PersonField::MiddleNames,
        PersonField::Title,
        PersonField::Suffix,
        PersonField::BirthDate,
    ];
    for expected in tab_steps {
        screen.handle_key(key(KeyCode::Tab));
        assert_eq!(screen.active_field, expected);
    }

    screen.handle_key(key(KeyCode::Enter));
    assert_eq!(screen.active_field, PersonField::DeathDate);

    screen.handle_key(key(KeyCode::Enter));
    assert_eq!(screen.active_field, PersonField::Biography);

    screen.handle_key(key(KeyCode::Tab));
    assert_eq!(screen.active_field, PersonField::Aliases);

    screen.handle_key(key(KeyCode::Tab));
    assert_eq!(screen.active_field, PersonField::Places);

    screen.handle_key(key(KeyCode::Tab));
    assert_eq!(screen.active_field, PersonField::Languages);

    screen.handle_key(key(KeyCode::Tab));
    assert_eq!(screen.active_field, PersonField::Name);
}

#[test]
fn enter_advances_through_all_fields_and_wraps() {
    let mut screen = PersonCreateScreen::new();

    let expected_order = [
        PersonField::GivenName,
        PersonField::Surname,
        PersonField::DisplayName,
        PersonField::MiddleNames,
        PersonField::Title,
        PersonField::Suffix,
        PersonField::BirthDate,
        PersonField::DeathDate,
        PersonField::Biography,
        PersonField::Aliases,
        PersonField::Places,
        PersonField::Languages,
        PersonField::Name,
    ];

    for expected in expected_order {
        screen.handle_key(key(KeyCode::Enter));
        assert_eq!(screen.active_field, expected);
    }
}

#[test]
fn backtab_goes_to_previous_field_and_wraps() {
    let mut screen = PersonCreateScreen::new();

    screen.handle_key(key(KeyCode::BackTab));
    assert_eq!(screen.active_field, PersonField::Languages);

    screen.handle_key(key(KeyCode::BackTab));
    assert_eq!(screen.active_field, PersonField::Places);
}

#[test]
fn enter_advances_to_next_field() {
    let mut screen = PersonCreateScreen::new();

    screen.handle_key(key(KeyCode::Enter));
    assert_eq!(screen.active_field, PersonField::GivenName);
}

#[test]
fn esc_returns_cancel_action_when_no_popup_is_open() {
    let mut screen = PersonCreateScreen::new();

    let action = screen.handle_key(key(KeyCode::Esc));

    assert_eq!(action, PersonCreateAction::Cancel);
}

#[test]
fn ctrl_s_returns_submit_action() {
    let mut screen = PersonCreateScreen::new();

    let action = screen.handle_key(KeyEvent::new(KeyCode::Char('s'), KeyModifiers::control()));

    assert_eq!(
        action,
        PersonCreateAction::Submit(PersonDraft {
            name: "".into(),
            display_name: None,
            given_name: None,
            surname: None,
            middle_names: None,
            title: None,
            suffix: None,
            birth_date: None,
            death_date: None,
            biography: None,
        })
    );
}

#[test]
fn typing_populates_name_field() {
    let mut screen = PersonCreateScreen::new();

    screen.handle_key(key(KeyCode::Char('A')));
    screen.handle_key(key(KeyCode::Char('d')));
    screen.handle_key(key(KeyCode::Char('a')));

    assert_eq!(screen.name.value, "Ada");
}

#[test]
fn typing_in_date_field_delegates_to_partial_date_widget() {
    let mut screen = PersonCreateScreen::new();

    for _ in 0..7 {
        screen.handle_key(key(KeyCode::Tab));
    }
    assert_eq!(screen.active_field, PersonField::BirthDate);

    screen.handle_key(key(KeyCode::Char('1')));
    screen.handle_key(key(KeyCode::Char('9')));
    screen.handle_key(key(KeyCode::Char('8')));
    screen.handle_key(key(KeyCode::Char('0')));

    assert_eq!(screen.birth_date.year, Some(1980));
}

#[test]
fn tab_in_date_field_navigates_sub_fields_not_person_fields() {
    let mut screen = PersonCreateScreen::new();

    for _ in 0..7 {
        screen.handle_key(key(KeyCode::Tab));
    }
    assert_eq!(screen.active_field, PersonField::BirthDate);

    screen.handle_key(key(KeyCode::Tab));
    assert_eq!(screen.active_field, PersonField::BirthDate);

    screen.handle_key(key(KeyCode::Enter));
    assert_eq!(screen.active_field, PersonField::DeathDate);
}

#[test]
fn aliases_can_be_added_and_removed() {
    let mut screen = PersonCreateScreen::new();

    for _ in 0..10 {
        screen.handle_key(key(KeyCode::Enter));
    }
    assert_eq!(screen.active_field, PersonField::Aliases);

    screen.handle_key(key(KeyCode::Char('n')));
    assert_eq!(screen.aliases.len(), 1);

    screen.handle_key(key(KeyCode::Char('n')));
    assert_eq!(screen.aliases.len(), 2);

    screen.handle_key(key(KeyCode::Char('d')));
    assert_eq!(screen.aliases.len(), 1);
}

#[test]
fn typing_populates_active_alias() {
    let mut screen = PersonCreateScreen::new();

    for _ in 0..10 {
        screen.handle_key(key(KeyCode::Enter));
    }
    screen.handle_key(key(KeyCode::Char('n')));
    screen.handle_key(key(KeyCode::Char('A')));
    screen.handle_key(key(KeyCode::Char('L')));

    assert_eq!(screen.aliases[0].value, "AL");
}

#[test]
fn to_person_returns_none_when_name_is_empty() {
    let screen = PersonCreateScreen::new();

    assert!(screen.to_person().is_none());
}

#[test]
fn to_person_returns_person_with_valid_name() {
    let mut screen = PersonCreateScreen::new();
    screen.name.value = "Ada".to_string();
    screen.name.cursor = 3;

    let person = screen.to_person().unwrap();

    assert_eq!(person.id, 0);
    assert_eq!(person.name, "Ada");
    assert_eq!(person.given_name, None);
    assert_eq!(person.display_name, None);
    assert_eq!(person.biography, None);
}

#[test]
fn to_person_maps_optional_fields() {
    let mut screen = PersonCreateScreen::new();
    screen.name.value = "Lovelace".to_string();
    screen.display_name.value = "Ada Lovelace".to_string();
    screen.given_name.value = "Ada".to_string();
    screen.surname.value = "Lovelace".to_string();
    screen.biography.value = "Matematica".to_string();

    let person = screen.to_person().unwrap();

    assert_eq!(person.display_name.as_deref(), Some("Ada Lovelace"));
    assert_eq!(person.given_name.as_deref(), Some("Ada"));
    assert_eq!(person.surname.as_deref(), Some("Lovelace"));
    assert_eq!(person.biography.as_deref(), Some("Matematica"));
}

#[test]
fn to_person_ignores_whitespace_only_fields() {
    let mut screen = PersonCreateScreen::new();
    screen.name.value = "Ada".to_string();
    screen.surname.value = "  ".to_string();
    screen.title.value = "\t".to_string();

    let person = screen.to_person().unwrap();

    assert_eq!(person.surname, None);
    assert_eq!(person.title, None);
}

#[test]
fn to_person_includes_birth_date_when_set() {
    let mut screen = PersonCreateScreen::new();
    screen.name.value = "Ada".to_string();

    for _ in 0..7 {
        screen.handle_key(key(KeyCode::Tab));
    }
    screen.handle_key(key(KeyCode::Char('1')));
    screen.handle_key(key(KeyCode::Char('8')));
    screen.handle_key(key(KeyCode::Char('1')));
    screen.handle_key(key(KeyCode::Char('5')));

    let person = screen.to_person().unwrap();
    let birth = person.birth_date.unwrap();
    assert_eq!(birth.year, Some(1815));
}

#[test]
fn esc_in_birth_date_subfield_returns_to_year_without_cancelling() {
    let mut screen = PersonCreateScreen::new();
    screen.active_field = PersonField::BirthDate;
    screen.birth_date.active_field = PartialDateField::Day;

    let action = screen.handle_key(key(KeyCode::Esc));

    assert_eq!(action, PersonCreateAction::Nothing);
    assert_eq!(screen.active_field, PersonField::BirthDate);
    assert_eq!(screen.birth_date.active_field, PartialDateField::Year);
}

#[test]
fn esc_closes_language_dropdown_without_cancelling() {
    let mut screen = PersonCreateScreen::new();
    screen.active_field = PersonField::Languages;
    screen.languages.push(LanguageWidget::new());
    let language = &mut screen.languages[0];
    language.input.value = "it".into();
    language.input.cursor = 2;
    language.set_suggestions(vec![(1, "Italiano".into()), (2, "English".into())]);
    language.input.selected_suggestion = Some(0);

    let action = screen.handle_key(key(KeyCode::Esc));

    assert_eq!(action, PersonCreateAction::Nothing);
    assert!(screen.languages[0].input.suggestions.is_empty());
    assert_eq!(screen.languages[0].input.selected_suggestion, None);
    assert_eq!(screen.languages[0].input.value, "it");
}

#[test]
fn places_summary_counts_places() {
    let mut screen = PersonCreateScreen::new();
    assert_eq!(screen.places_display(), "—");
    screen.active_field = PersonField::Places;
    screen.handle_key(key(KeyCode::Char('n')));
    screen.handle_key(key(KeyCode::Char('n')));
    assert_eq!(screen.places_display(), "2 luogo/luoghi");
}

fn detail() -> BookDetail {
    BookDetail {
        book: Book {
            id: 1,
            title: "Titolo".to_string(),
            isbn: Some("123".to_string()),
            publication_year: Some(PartialDate {
                year: Some(2020),
                month: Some(5),
                day: None,
                circa: false,
            }),
            notes: Some("Note".to_string()),
            ..Book::default()
        },
        linked_contents: vec![ContentListItem {
            id: 10,
            title: "Contenuto A".to_string(),
            authors: vec!["Autore".to_string()],
            genre: None,
        }],
        people_with_roles: vec![PersonRoleView {
            person_id: 5,
            name: "Persona".to_string(),
            role: "Autore".to_string(),
        }],
        tags: vec!["tag1".to_string()],
        format: None,
        series: None,
    }
}

#[test]
fn enter_switches_to_edit_and_loads_selected_value() {
    let mut screen = BookDetailScreen::new(detail());
    let mut statusbar = StatusBar::new();

    screen.handle_key(key(KeyCode::Enter), &mut statusbar);

    assert_eq!(screen.mode, DetailMode::Edit);
    assert_eq!(screen.input.value, "Titolo");
    assert_eq!(screen.input.cursor, 6);
    assert_eq!(
        statusbar.keys,
        vec!["Enter: salva | Tab: prossimo campo | Esc: annulla"]
    );
}

#[test]
fn enter_in_edit_saves_field_and_returns_to_view() {
    let mut screen = BookDetailScreen::new(detail());
    let mut statusbar = StatusBar::new();

    screen.handle_key(key(KeyCode::Enter), &mut statusbar);
    screen.input.value = "Nuovo titolo".to_string();
    screen.input.cursor = screen.input.value.chars().count();
    screen.handle_key(key(KeyCode::Enter), &mut statusbar);

    assert_eq!(screen.mode, DetailMode::View);
    assert_eq!(
        screen.pending_changes(),
        Some(BookDetailPendingChanges {
            title: Some("Nuovo titolo".to_string()),
            ..BookDetailPendingChanges::default()
        })
    );
}

#[test]
fn tab_saves_and_moves_to_next_field_in_edit_mode() {
    let mut screen = BookDetailScreen::new(detail());
    let mut statusbar = StatusBar::new();

    screen.handle_key(key(KeyCode::Enter), &mut statusbar);
    screen.input.value = "Nuovo titolo".to_string();
    screen.input.cursor = screen.input.value.chars().count();
    screen.handle_key(key(KeyCode::Tab), &mut statusbar);

    assert_eq!(screen.mode, DetailMode::Edit);
    assert_eq!(screen.selected_field, 1);
    assert_eq!(screen.input.value, "123");
    assert_eq!(
        screen.pending_changes(),
        Some(BookDetailPendingChanges {
            title: Some("Nuovo titolo".to_string()),
            ..BookDetailPendingChanges::default()
        })
    );
}

#[test]
fn esc_in_edit_cancels_changes_for_current_field() {
    let mut screen = BookDetailScreen::new(detail());
    let mut statusbar = StatusBar::new();

    screen.handle_key(key(KeyCode::Enter), &mut statusbar);
    screen.input.value = "Annullato".to_string();
    screen.input.cursor = screen.input.value.chars().count();
    screen.handle_key(key(KeyCode::Esc), &mut statusbar);

    assert_eq!(screen.mode, DetailMode::View);
    assert_eq!(screen.pending_changes(), None);
}

#[test]
fn related_sections_update_statusbar_and_emit_actions() {
    let mut screen = BookDetailScreen::new(detail());
    let mut statusbar = StatusBar::new();

    for _ in 0..7 {
        screen.handle_key(key(KeyCode::Down), &mut statusbar);
    }
    assert_eq!(
        statusbar.keys,
        vec!["↑↓: naviga sezioni | j/k: seleziona | n: aggiungi | d/Del: rimuovi | Enter: apri"]
    );
    assert_eq!(statusbar.info, "Sezione: contenuti collegati (1/1)");

    screen.handle_key(key(KeyCode::Char('n')), &mut statusbar);
    assert_eq!(
        screen.take_related_action(),
        Some(BookDetailRelatedAction::AddLinkedContent)
    );

    screen.handle_key(key(KeyCode::Enter), &mut statusbar);
    assert_eq!(
        screen.take_related_action(),
        Some(BookDetailRelatedAction::OpenLinkedContent { content_id: 10 })
    );

    screen.handle_key(key(KeyCode::Down), &mut statusbar);
    screen.handle_key(key(KeyCode::Delete), &mut statusbar);
    assert_eq!(
        screen.take_related_action(),
        Some(BookDetailRelatedAction::RemovePersonWithRole { person_id: 5 })
    );

    screen.handle_key(key(KeyCode::Down), &mut statusbar);
    assert_eq!(
        statusbar.keys,
        vec!["↑↓: naviga sezioni | j/k: seleziona | n: aggiungi | d/Del: rimuovi"]
    );
    screen.handle_key(key(KeyCode::Char('d')), &mut statusbar);
    assert_eq!(
        screen.take_related_action(),
        Some(BookDetailRelatedAction::RemoveTag {
            tag: "tag1".to_string()
        })
    );
}

#[test]
fn detail_fields_start_from_the_book() {
    let screen = BookDetailScreen::new(detail());
    assert_eq!(
        screen.editable_values,
        vec!["Titolo", "123", "2020-05", "", "", "", "Note"]
    );
    assert_eq!(screen.field_row(0), "titolo: Titolo");
    assert_eq!(screen.field_row(3), "formato: —");
}

#[test]
fn detail_status_shows_field_position() {
    let mut screen = BookDetailScreen::new(detail());
    let mut statusbar = StatusBar::new();
    screen.handle_key(key(KeyCode::Down), &mut statusbar);
    assert_eq!(statusbar.info, "Campo 2/7: isbn");
    screen.handle_key(key(KeyCode::Up), &mut statusbar);
    screen.handle_key(key(KeyCode::Up), &mut statusbar);
    assert_eq!(statusbar.info, "Campo 1/7: titolo");
}

#[test]
fn detail_languages_section_is_empty() {
    let mut screen = BookDetailScreen::new(detail());
    let mut statusbar = StatusBar::new();
    for _ in 0..10 {
        screen.handle_key(key(KeyCode::Down), &mut statusbar);
    }
    assert_eq!(statusbar.info, "Sezione: lingue (0/0)");
    screen.handle_key(key(KeyCode::Char('d')), &mut statusbar);
    assert_eq!(screen.take_related_action(), None);
    screen.handle_key(key(KeyCode::Char('n')), &mut statusbar);
    assert_eq!(screen.take_related_action(), Some(BookDetailRelatedAction::AddLanguage));
}

fn book_detail(id: i64, title: &str, author: &str) -> BookDetail {
    BookDetail {
        book: Book {
            id,
            title: title.to_string(),
            isbn: None,
            publication_year: None,
            notes: None,
            ..Book::default()
        },
        people_with_roles: vec![PersonRoleView {
            person_id: 1,
            name: author.to_string(),
            role: "author".to_string(),
        }],
        tags: vec![],
        linked_contents: vec![],
        format: Some("Paperback".to_string()),
        series: Some("Saga".to_string()),
    }
}

#[test]
fn list_new_builds_table_headers_and_rows() {
    let screen = BookListScreen::new(vec![book_detail(1, "Dune", "Frank Herbert")]);

    assert_eq!(
        screen.table.headers,
        vec!["Title", "Authors", "Format", "Series"]
    );
    assert_eq!(
        screen.table.rows,
        vec![vec![
            "Dune".to_string(),
            "Frank Herbert".to_string(),
            "Paperback".to_string(),
            "Saga".to_string()
        ]]
    );
}

#[test]
fn selected_id_returns_selected_book_id() {
    let mut screen = BookListScreen::new(vec![book_detail(10, "A", "A"), book_detail(20, "B", "B")]);

    assert_eq!(screen.selected_id(), Some(10));
    screen.selection.next(screen.items.len());
    assert_eq!(screen.selected_id(), Some(20));
}

#[test]
fn list_selected_id_is_none_when_there_are_no_items() {
    let screen = BookListScreen::new(vec![]);

    assert_eq!(screen.selected_id(), None);
}

fn content_detail(id: i64, title: &str, author: &str) -> ContentDetail {
    ContentDetail {
        content: Content {
            id,
            title: title.to_string(),
            publication_year: None,
            notes: None,
            ..Content::default()
        },
        people_with_roles: vec![PersonRoleView {
            person_id: 1,
            name: author.to_string(),
            role: "author".to_string(),
        }],
        tags: vec![],
        linked_books: vec![],
        languages: vec![],
        genre: Some("Fantasy".to_string()),
    }
}

#[test]
fn contents_list_new_builds_table_headers_and_rows() {
    let screen = ContentListScreen::new(vec![content_detail(1, "Il Nome della Rosa", "Umberto Eco")]);

    assert_eq!(screen.table.headers, vec!["Titolo", "Autori", "Genere"]);
    assert_eq!(
        screen.table.rows,
        vec![vec![
            "Il Nome della Rosa".to_string(),
            "Umberto Eco".to_string(),
            "Fantasy".to_string(),
        ]]
    );
}

#[test]
fn selected_id_returns_selected_content_id() {
    let mut screen =
        ContentListScreen::new(vec![content_detail(10, "A", "A"), content_detail(20, "B", "B")]);

    assert_eq!(screen.selected_id(), Some(10));
    screen.selection.next(screen.items.len());
    assert_eq!(screen.selected_id(), Some(20));
}

#[test]
fn contents_list_selected_id_is_none_when_there_are_no_items() {
    let screen = ContentListScreen::new(vec![]);

    assert_eq!(screen.selected_id(), None);
}

#[test]
fn list_authors_keep_only_author_roles() {
    let mut d = book_detail(1, "Dune", "Frank Herbert");
    d.people_with_roles.push(PersonRoleView {
        person_id: 2,
        name: "Editor".to_string(),
        role: "editor".to_string(),
    });
    d.people_with_roles.push(PersonRoleView {
        person_id: 3,
        name: "Brian Herbert".to_string(),
        role: "author".to_string(),
    });
    d.format = None;
    let screen = BookListScreen::new(vec![d]);
    assert_eq!(screen.table.rows[0][1], "Frank Herbert, Brian Herbert");
    assert_eq!(screen.table.rows[0][2], "");
}

#[test]
fn fbc_are_only_enabled_on_list_level() {
    let mut app = AppNavigation::new(0, 0);
    assert_eq!(
        app.handle_key(key(KeyCode::Char('b'))),
        AppAction::SwitchWindow(MainWindow::Books)
    );
    assert_eq!(app.main_window, MainWindow::Books);

    app.level = ScreenLevel::Detail;
    assert_eq!(app.handle_key(key(KeyCode::Char('f'))), AppAction::Nothing);
    assert_eq!(app.main_window, MainWindow::Books);
}

#[test]
fn q_only_quits_on_list_level() {
    let mut app = AppNavigation::new(0, 0);
    assert_eq!(app.handle_key(key(KeyCode::Char('q'))), AppAction::Quit);

    let mut app2 = AppNavigation::new(0, 0);
    app2.level = ScreenLevel::Detail;
    assert_eq!(app2.handle_key(key(KeyCode::Char('q'))), AppAction::Nothing);
}

#[test]
fn popup_keys_confirm_or_cancel() {
    let mut app = AppNavigation::new(0, 0);
    app.level = ScreenLevel::Popup;

    assert_eq!(app.handle_key(key(KeyCode::Enter)), AppAction::ConfirmPopup);
    assert_eq!(app.level, ScreenLevel::Popup);

    assert_eq!(app.handle_key(key(KeyCode::Esc)), AppAction::CancelPopup);
    assert_eq!(app.level, ScreenLevel::Editing);
}

#[test]
fn arrows_cycle_main_windows_from_list_level() {
    let mut app = AppNavigation::new(0, 0);
    assert_eq!(
        app.handle_key(key(KeyCode::Right)),
        AppAction::SwitchWindow(MainWindow::Books)
    );
    assert_eq!(
        app.handle_key(key(KeyCode::Right)),
        AppAction::SwitchWindow(MainWindow::Contents)
    );
    assert_eq!(
        app.handle_key(key(KeyCode::Right)),
        AppAction::SwitchWindow(MainWindow::Filters)
    );
    assert_eq!(
        app.handle_key(key(KeyCode::Left)),
        AppAction::SwitchWindow(MainWindow::Contents)
    );
}

#[test]
fn should_quit_is_set_after_quit_action() {
    let mut app = AppNavigation::new(0, 0);
    assert!(!app.should_quit());
    assert_eq!(app.handle_key(key(KeyCode::Char('q'))), AppAction::Quit);
    assert!(app.should_quit());
}

#[test]
fn table_scroll_keys_delegated_to_active_table() {
    let mut app = AppNavigation::new(3, 2);
    app.main_window = MainWindow::Books;

    assert_eq!(app.handle_key(key(KeyCode::Down)), AppAction::ScrollDown);
    assert_eq!(app.handle_key(key(KeyCode::Char('j'))), AppAction::ScrollDown);
    assert_eq!(app.book_list.selected, 2);
    assert_eq!(app.statusbar.info, "Book 3 of 3");
    assert_eq!(app.handle_key(key(KeyCode::Up)), AppAction::ScrollUp);
    assert_eq!(app.handle_key(key(KeyCode::Char('k'))), AppAction::ScrollUp);
    assert_eq!(app.book_list.selected, 0);

    app.main_window = MainWindow::Contents;
    assert_eq!(app.handle_key(key(KeyCode::Down)), AppAction::ScrollDown);
    assert_eq!(app.content_list.selected, 1);
    assert_eq!(app.handle_key(key(KeyCode::Up)), AppAction::ScrollUp);
}

#[test]
fn table_action_keys_map_to_app_actions() {
    let mut app = AppNavigation::new(0, 0);
    app.main_window = MainWindow::Books;

    assert_eq!(app.handle_key(key(KeyCode::Char('n'))), AppAction::NewRecord);
    assert_eq!(app.handle_key(key(KeyCode::Char('+'))), AppAction::NewRecord);
    assert_eq!(app.handle_key(key(KeyCode::Char('d'))), AppAction::DeleteRecord);
    assert_eq!(app.handle_key(key(KeyCode::Delete)), AppAction::DeleteRecord);
    assert_eq!(app.handle_key(key(KeyCode::Char('/'))), AppAction::Search);
}

#[test]
fn enter_key_descends_level_via_table_select() {
    let mut app = AppNavigation::new(0, 0);
    app.main_window = MainWindow::Books;
    assert_eq!(app.level, ScreenLevel::List);

    assert_eq!(app.handle_key(key(KeyCode::Enter)), AppAction::EnterLevel);
    assert_eq!(app.level, ScreenLevel::Detail);
}

#[test]
fn detail_lists_contents_and_people_with_roles() {
    let screen = BookDetailScreen::new(detail());
    assert_eq!(screen.linked_content_titles(), vec!["Contenuto A".to_string()]);
    assert_eq!(screen.people_lines(), vec!["Persona (Autore)".to_string()]);
    assert_eq!(screen.editable_height(), 9);
    assert!(!screen.is_related_section_active());
}

#[test]
fn detail_editing_takes_more_rows_and_lists_lose_focus() {
    let mut screen = BookDetailScreen::new(detail());
    let mut statusbar = StatusBar::new();
    screen.handle_key(key(KeyCode::Enter), &mut statusbar);
    assert_eq!(screen.editable_height(), 11);
    assert!(!screen.is_related_section_active());
    screen.handle_key(key(KeyCode::Esc), &mut statusbar);
    for _ in 0..7 {
        screen.handle_key(key(KeyCode::Down), &mut statusbar);
    }
    assert!(screen.is_related_section_active());
}

#[test]
fn aliases_summary_skips_blank_aliases() {
    let mut screen = PersonCreateScreen::new();
    assert_eq!(screen.aliases_display(), "—");
    for _ in 0..10 {
        screen.handle_key(key(KeyCode::Enter));
    }
    assert_eq!(screen.active_field, PersonField::Aliases);
    screen.handle_key(key(KeyCode::Char('n')));
    screen.handle_key(key(KeyCode::Char('n')));
    screen.handle_key(key(KeyCode::Char('P')));
    screen.handle_key(key(KeyCode::Char('I')));
    assert_eq!(screen.aliases_display(), "PI");
}
