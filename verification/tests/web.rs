use ritmo::domain::{Book, Content, PartialDate, Person, Place};
use ritmo::errors::{RitmoErr, WebError};
use ritmo::repository::{
    logical_operator_from_db, logical_operator_to_db, partial_date_from_parts,
    partial_date_to_parts, place_from_row, publisher_detail, split_authors, PublisherPlaceRow,
};
use ritmo::search::filter::{
    Filter, FilterField, FilterOperator, FilterSet, FilterValue, LogicalOperator,
};
use ritmo::search::query::{build_search_query, search_query_checked, SearchTarget};
use ritmo::search::sql::BindValue;
use ritmo::web::books::{empty_form_view, form_into_view, parse_form_into_book, view_from_book, BookFormData};
use ritmo::web::contents::{parse_form_into_content, view_from_content, ContentFormData};
use ritmo::web::dev::date_widget_examples;
use ritmo::web::forms::{
    parse_optional_i32, parse_optional_i64, parse_optional_u8, parse_partial_date,
    popup_root_oob, raw_search_query, search_query, trim_to_option,
};
use ritmo::web::links::find_link;
use ritmo::web::lookups::{lookup_search_text, lookup_target, LookupTarget, SetLookupForm};
use ritmo::web::people::{parse_form_into_person, view_from_person, PersonFormData};
use ritmo::web::places::{
    find_linked_place, link_request, place_from_form, relink_request, LinkedPlace, UpsertPlaceForm,
};
use ritmo::web::routes::{
    lookup_kind_str, lookup_label, lookup_placeholder, validate_combination,
    validate_entity_type, EntityRoute, LookupEntityType, LookupKind, PlaceOwner,
};
use ritmo::web::tags::{tag_source, LinkTagForm, TagSource};

fn invalid(e: &WebError) -> String {
    match &e.0 {
        RitmoErr::InvalidInput(m) => m.clone(),
        other => panic!("unexpected error {other:?}"),
    }
}

#[test]
fn parse_entity_route_rejects_unknown_values() {
    assert!(matches!(EntityRoute::parse("people"), Ok(EntityRoute::People)));
    assert!(EntityRoute::parse("books").is_err());
}

#[test]
fn validate_combination_rejects_invalid_pairs() {
    assert!(validate_combination(LookupEntityType::Books, LookupKind::Publisher).is_ok());
    assert!(validate_combination(LookupEntityType::Contents, LookupKind::Type).is_ok());
    assert!(validate_combination(LookupEntityType::Books, LookupKind::Type).is_err());
}

#[test]
fn entity_route_owner_and_unknown_message() {
    assert_eq!(EntityRoute::People.owner(4), PlaceOwner::Person(4));
    assert_eq!(EntityRoute::Publishers.owner(4), PlaceOwner::Publisher(4));
    assert_eq!(
        EntityRoute::parse("books"),
        Err(RitmoErr::InvalidInput("unknown entity_type: books".to_string()))
    );
}

#[test]
fn entity_type_accepts_books_and_contents_only() {
    assert!(validate_entity_type("books").is_ok());
    assert!(validate_entity_type("contents").is_ok());
    assert_eq!(
        validate_entity_type("people"),
        Err(RitmoErr::InvalidInput("unknown entity_type: people".to_string()))
    );
}

#[test]
fn lookup_kinds_parse_and_describe() {
    assert_eq!(LookupKind::parse("series"), Ok(LookupKind::Series));
    assert!(LookupKind::parse("colour").is_err());
    assert_eq!(LookupEntityType::parse("contents"), Ok(LookupEntityType::Contents));
    assert_eq!(lookup_kind_str(LookupKind::Format), "format");
    assert_eq!(lookup_label(LookupKind::Series), "Collana");
    assert_eq!(lookup_placeholder(LookupKind::Type), "Cerca o crea tipo");
    assert_eq!(
        validate_combination(LookupEntityType::Contents, LookupKind::Publisher),
        Err(RitmoErr::InvalidInput(
            "invalid entity_type / lookup_kind combination".to_string()
        ))
    );
}

#[test]
fn lookup_target_prefers_id_then_value() {
    let by_id = SetLookupForm { lookup_id: Some(3), lookup_value: Some("x".into()) };
    assert_eq!(lookup_target(&by_id), Ok(LookupTarget::ById(3)));
    let by_value = SetLookupForm { lookup_id: None, lookup_value: Some("Adelphi".into()) };
    assert_eq!(lookup_target(&by_value), Ok(LookupTarget::ByValue("Adelphi".into())));
    let none = SetLookupForm { lookup_id: None, lookup_value: None };
    assert_eq!(
        lookup_target(&none),
        Err(RitmoErr::InvalidInput("lookup_id or lookup_value required".to_string()))
    );
    assert_eq!(lookup_search_text(&Some("  Nuovo Editore ".into())), "Nuovo Editore");
    assert_eq!(lookup_search_text(&None), "");
}

#[test]
fn tag_source_defaults_type_to_personal() {
    let form = LinkTagForm { tag_id: None, tag_name: Some("giallo".into()), tag_type: None };
    assert_eq!(
        tag_source(&form),
        Ok(TagSource::ByName { name: "giallo".into(), tag_type: "personal".into() })
    );
    let form = LinkTagForm { tag_id: Some(9), tag_name: Some("giallo".into()), tag_type: None };
    assert_eq!(tag_source(&form), Ok(TagSource::ById(9)));
    let form = LinkTagForm { tag_id: None, tag_name: None, tag_type: Some("genre".into()) };
    assert_eq!(
        tag_source(&form),
        Err(RitmoErr::InvalidInput("tag_id or tag_name required".to_string()))
    );
}

#[test]
fn trim_to_option_drops_blank_text() {
    assert_eq!(trim_to_option(Some("  Adelphi ".into())), Some("Adelphi".into()));
    assert_eq!(trim_to_option(Some(" \t ".into())), None);
    assert_eq!(trim_to_option(None), None);
}

#[test]
fn optional_numbers_parse_or_name_the_field() {
    assert_eq!(parse_optional_i64(Some(" 12 ".into())), Ok(Some(12)));
    assert_eq!(parse_optional_i64(Some("".into())), Ok(None));
    let e = parse_optional_i64(Some(" 1x ".into())).unwrap_err();
    assert_eq!(invalid(&e), "Valore non valido per numero intero: 1x");
    assert_eq!(parse_optional_i32(Some("-44".into())), Ok(Some(-44)));
    let e = parse_optional_i32(Some("3000000000".into())).unwrap_err();
    assert_eq!(invalid(&e), "Valore non valido per anno: 3000000000");
    assert_eq!(parse_optional_u8(Some("+7".into())), Ok(Some(7)));
    let e = parse_optional_u8(Some("-1".into())).unwrap_err();
    assert_eq!(invalid(&e), "Valore non valido per numero: -1");
    assert_eq!(e.status(), 400);
}

#[test]
fn partial_date_from_fields() {
    assert_eq!(parse_partial_date(None, None, None, false), Ok(None));
    assert_eq!(
        parse_partial_date(None, None, None, true),
        Ok(Some(PartialDate { year: None, month: None, day: None, circa: true }))
    );
    assert_eq!(
        parse_partial_date(Some("1984".into()), Some("6".into()), Some(" ".into()), false),
        Ok(Some(PartialDate { year: Some(1984), month: Some(6), day: None, circa: false }))
    );
    let e = parse_partial_date(Some("x".into()), Some("y".into()), None, false).unwrap_err();
    assert_eq!(invalid(&e), "Valore non valido per anno: x");
    let e = parse_partial_date(Some("1".into()), Some("y".into()), Some("z".into()), false)
        .unwrap_err();
    assert_eq!(invalid(&e), "Valore non valido per numero: y");
}

#[test]
fn popup_fragment_wraps_content() {
    assert_eq!(
        popup_root_oob("<p>x</p>"),
        "<div id=\"popup-root\" hx-swap-oob=\"innerHTML\"><p>x</p></div>"
    );
    assert_eq!(
        ritmo::web::books::list_update_oob("<tr></tr>"),
        "<div id=\"books-list\" hx-swap-oob=\"innerHTML\"><tr></tr></div>"
    );
}

#[test]
fn search_queries_are_trimmed_or_kept() {
    assert_eq!(search_query(Some("  rom ".into())), Some("rom".into()));
    assert_eq!(search_query(Some("   ".into())), None);
    assert_eq!(raw_search_query(Some(" rom ".into())), Some(" rom ".into()));
    assert_eq!(raw_search_query(Some("  ".into())), None);
}

fn book_form() -> BookFormData {
    BookFormData {
        title: "  Libro popup ".to_owned(),
        original_title: Some("   ".to_owned()),
        isbn: Some(" 978 ".to_owned()),
        notes: None,
        series_index: Some("3".to_owned()),
        publication_date_year: Some("1999".to_owned()),
        publication_date_month: None,
        publication_date_day: None,
        publication_date_circa: false,
        has_cover: true,
        has_paper: false,
    }
}

#[test]
fn book_form_parses_into_book() {
    let book = parse_form_into_book(5, &book_form(), Some(1), None, Some(2)).unwrap();
    assert_eq!(book.id, 5);
    assert_eq!(book.title, "Libro popup");
    assert_eq!(book.original_title, None);
    assert_eq!(book.isbn.as_deref(), Some("978"));
    assert_eq!(book.series_index, Some(3));
    assert_eq!(book.publisher_id, Some(1));
    assert_eq!(book.series_id, Some(2));
    assert_eq!(
        book.publication_year,
        Some(PartialDate { year: Some(1999), month: None, day: None, circa: false })
    );
    assert!(book.has_cover && !book.has_paper);
}

#[test]
fn book_form_reports_first_bad_field() {
    let mut form = book_form();
    form.series_index = Some("tre".to_owned());
    form.publication_date_year = Some("mille".to_owned());
    let e = parse_form_into_book(0, &form, None, None, None).unwrap_err();
    assert_eq!(invalid(&e), "Valore non valido per numero intero: tre");
    let e = form_into_view(None, &form).unwrap_err();
    assert_eq!(invalid(&e), "Valore non valido per anno: mille");
}

#[test]
fn book_views_show_form_and_book() {
    let view = form_into_view(Some(5), &book_form()).unwrap();
    assert_eq!(view.title, "  Libro popup ");
    assert_eq!(view.isbn.as_deref(), Some("978"));
    assert_eq!(view.publication_date_year, Some(1999));
    let empty = empty_form_view();
    assert_eq!(empty.id, None);
    assert!(empty.title.is_empty());
    let book = Book {
        id: 8,
        title: "Dune".into(),
        publication_year: Some(PartialDate { year: Some(1965), month: Some(8), day: None, circa: true }),
        ..Book::default()
    };
    let view = view_from_book(&book);
    assert_eq!(view.id, Some(8));
    assert_eq!(view.publication_date_month, Some(8));
    assert!(view.publication_date_circa);
}

#[test]
fn content_form_parses_into_content() {
    let form = ContentFormData {
        title: " Racconto ".into(),
        original_title: None,
        notes: Some(" breve ".into()),
        publication_date_year: None,
        publication_date_month: Some("13".into()),
        publication_date_day: None,
        publication_date_circa: false,
    };
    let content: Content = parse_form_into_content(0, &form, Some(4)).unwrap();
    assert_eq!(content.title, "Racconto");
    assert_eq!(content.notes.as_deref(), Some("breve"));
    assert_eq!(content.type_id, Some(4));
    assert_eq!(content.publication_year.unwrap().month, Some(13));
}

#[test]
fn person_form_parses_dates_in_order() {
    let mut form = PersonFormData {
        name: " Ada ".into(),
        display_name: None,
        given_name: Some("Ada".into()),
        surname: Some(" ".into()),
        middle_names: None,
        title: None,
        suffix: None,
        biography: None,
        birth_date_year: Some("1815".into()),
        birth_date_month: None,
        birth_date_day: None,
        birth_date_circa: false,
        death_date_year: None,
        death_date_month: None,
        death_date_day: None,
        death_date_circa: false,
    };
    let person: Person = parse_form_into_person(2, &form).unwrap();
    assert_eq!(person.name, "Ada");
    assert_eq!(person.surname, None);
    assert_eq!(person.birth_date.unwrap().year, Some(1815));
    assert!(!person.verified);
    form.birth_date_day = Some("x".into());
    form.death_date_day = Some("y".into());
    let e = parse_form_into_person(2, &form).unwrap_err();
    assert_eq!(invalid(&e), "Valore non valido per numero: x");
}

fn upsert_form() -> UpsertPlaceForm {
    UpsertPlaceForm {
        continent: Some("Europa".into()),
        country: Some("Italia".into()),
        city: Some("Roma".into()),
        circa: false,
        disputed: true,
        entity_type: Some("people".into()),
        entity_id: Some(3),
        place_type_key: Some("birth".into()),
        current_place_type_key: None,
    }
}

#[test]
fn place_forms_describe_place_and_links() {
    let place: Place = place_from_form(7, &upsert_form());
    assert_eq!(place.id, 7);
    assert_eq!(place.city.as_deref(), Some("Roma"));
    assert!(place.disputed);
    let relink = relink_request(&upsert_form()).unwrap();
    assert_eq!(relink.current_place_type_key, "birth");
    assert_eq!(link_request(&upsert_form()), Some(("people".into(), 3, "birth".into())));
    let mut form = upsert_form();
    form.entity_id = None;
    assert_eq!(
        relink_request(&form),
        Err(RitmoErr::InvalidInput("missing entity_id".to_string()))
    );
    assert_eq!(link_request(&form), None);
}

#[test]
fn linked_place_and_link_rows_are_found() {
    let rows = vec![
        LinkedPlace {
            place_id: 1,
            continent: None,
            country: None,
            city: Some("Roma".into()),
            circa: false,
            disputed: false,
            place_type_key: "birth".into(),
        },
        LinkedPlace {
            place_id: 1,
            continent: None,
            country: None,
            city: Some("Roma".into()),
            circa: false,
            disputed: false,
            place_type_key: "death".into(),
        },
    ];
    assert_eq!(find_linked_place(&rows, 1, "death").unwrap().place_type_key, "death");
    assert_eq!(find_linked_place(&rows, 2, "birth"), Err(RitmoErr::RecordNotFound));
    let links = vec![(1, "Italiano".to_string(), 2, "original".to_string())];
    assert_eq!(find_link(&links, 1, 2), Some((1, "Italiano".to_string(), 2, "original".to_string())));
    assert_eq!(find_link(&links, 1, 3), None);
}

#[test]
fn errors_map_to_statuses() {
    assert_eq!(WebError(RitmoErr::RecordNotFound).status(), 404);
    assert_eq!(WebError(RitmoErr::PathError("p".into())).status(), 400);
    assert_eq!(WebError(RitmoErr::ConfigNotFound).status(), 500);
    assert_eq!(WebError(RitmoErr::DatabaseQuery("q".into())).status(), 500);
}

#[test]
fn date_examples_cover_full_partial_and_empty_dates() {
    let examples = date_widget_examples();
    assert_eq!(examples.len(), 3);
    assert_eq!(examples[0].prefix, "publication_date");
    assert_eq!(examples[1].year, Some(1903));
    assert!(examples[1].circa);
    assert_eq!(examples[2].label, "Data di morte");
}

#[test]
fn stored_dates_read_back() {
    let date = Some(PartialDate { year: Some(-300), month: Some(4), day: None, circa: true });
    let (y, m, d, c) = partial_date_to_parts(&date);
    assert_eq!((y, m, d, c), (Some(-300), Some(4), None, 1));
    assert_eq!(partial_date_from_parts(y, m, d, c), date);
    assert_eq!(partial_date_from_parts(None, None, None, 0), None);
    assert_eq!(
        partial_date_from_parts(None, Some(300), Some(5), 0),
        Some(PartialDate { year: None, month: None, day: Some(5), circa: false })
    );
}

#[test]
fn operators_are_stored_as_words() {
    assert_eq!(logical_operator_to_db(&LogicalOperator::Or), "OR");
    assert_eq!(logical_operator_from_db("or"), LogicalOperator::Or);
    assert_eq!(logical_operator_from_db("AND"), LogicalOperator::And);
    assert_eq!(logical_operator_from_db("xor"), LogicalOperator::And);
}

#[test]
fn authors_split_on_double_bars() {
    assert_eq!(split_authors(Some("Eco||Calvino".into())), vec!["Eco", "Calvino"]);
    assert_eq!(split_authors(Some("Solo".into())), vec!["Solo"]);
    assert_eq!(split_authors(Some("a|||b".into())), vec!["a", "|b"]);
    assert_eq!(split_authors(Some(String::new())), vec![""]);
    assert!(split_authors(None).is_empty());
}

#[test]
fn places_read_from_rows() {
    let place = place_from_row(1, None, Some("Italia".into()), None, 1, 0);
    assert!(place.circa && !place.disputed);
}

fn publisher_row(place_id: Option<i64>, key: Option<&str>, label: Option<&str>) -> PublisherPlaceRow {
    PublisherPlaceRow {
        id: 3,
        name: "Adelphi".into(),
        country: Some("Italia".into()),
        website: None,
        notes: None,
        place_id,
        continent: None,
        place_country: None,
        city: Some("Milano".into()),
        circa: Some(0),
        disputed: None,
        key: key.map(|k| k.to_string()),
        label: label.map(|l| l.to_string()),
    }
}

#[test]
fn publisher_detail_collects_places() {
    let rows = vec![
        publisher_row(Some(10), Some("seat"), Some("Sede")),
        publisher_row(None, None, None),
        publisher_row(Some(11), None, None),
    ];
    let detail = publisher_detail(&rows).unwrap();
    assert_eq!(detail.name, "Adelphi");
    assert_eq!(detail.places.len(), 2);
    assert_eq!(detail.places[0].6, "seat");
    assert_eq!(detail.places[0].7, "Sede");
    assert_eq!(detail.places[1].6, "other");
    assert_eq!(detail.places[1].7, "other");
    assert!(publisher_detail(&vec![]).is_err());
}

fn title_set(active: bool, text: &str) -> FilterSet {
    FilterSet {
        id: 1,
        name: "titolo".into(),
        active,
        operator: LogicalOperator::And,
        filters: vec![Filter {
            field: FilterField::BookTitle,
            operator: FilterOperator::Contains,
            values: vec![FilterValue::Text(text.into())],
        }],
    }
}

#[test]
fn search_without_active_sets_lists_all_books() {
    let q = build_search_query(&vec![title_set(false, "dune")], SearchTarget::Books);
    assert_eq!(
        q.sql,
        "SELECT books.id, books.name, books.isbn, books.publication_date_year, books.publication_date_month, books.publication_date_day, books.publication_date_circa, books.notes FROM books ORDER BY books.name"
    );
    assert!(q.binds.is_empty());
}

#[test]
fn search_binds_title_pattern() {
    let q = build_search_query(&vec![title_set(true, "dune'; --")], SearchTarget::Books);
    assert!(q.sql.ends_with(" WHERE ((books.name LIKE ? COLLATE NOCASE)) ORDER BY books.name"));
    assert_eq!(q.binds, vec![BindValue::Text("%dune'; --%".into())]);
}

#[test]
fn search_joins_sets_with_and() {
    let q = build_search_query(
        &vec![title_set(true, "a"), title_set(false, "b"), title_set(true, "c")],
        SearchTarget::Books,
    );
    assert!(q.sql.contains(
        " WHERE ((books.name LIKE ? COLLATE NOCASE)) AND ((books.name LIKE ? COLLATE NOCASE))"
    ));
    assert_eq!(
        q.binds,
        vec![BindValue::Text("%a%".into()), BindValue::Text("%c%".into())]
    );
}

#[test]
fn empty_filter_set_is_always_true() {
    let set = FilterSet {
        id: 2,
        name: "vuoto".into(),
        active: true,
        operator: LogicalOperator::Or,
        filters: vec![],
    };
    let q = build_search_query(&vec![set], SearchTarget::Contents);
    assert!(q.sql.contains(" WHERE (1=1) ORDER BY contents.name"));
}

#[test]
fn checked_search_query_matches_built_query() {
    let sets = vec![title_set(true, "dune")];
    assert_eq!(
        search_query_checked(&sets, SearchTarget::Books),
        Some(build_search_query(&sets, SearchTarget::Books))
    );
}

#[test]
fn checked_search_query_refuses_dates_out_of_range() {
    let date = PartialDate { year: Some(i32::MAX), month: None, day: None, circa: false };
    let set = FilterSet {
        id: 3,
        name: "data".into(),
        active: true,
        operator: LogicalOperator::And,
        filters: vec![Filter {
            field: FilterField::BookPublicationDate,
            operator: FilterOperator::After,
            values: vec![FilterValue::Date(date)],
        }],
    };
    assert_eq!(search_query_checked(&vec![set.clone()], SearchTarget::Books), None);
    let inactive = FilterSet { active: false, ..set };
    assert!(search_query_checked(&vec![inactive], SearchTarget::Books).is_some());
}

#[test]
fn content_form_view_shows_the_stored_content() {
    let content = Content {
        id: 7,
        title: "Racconto".into(),
        original_title: Some("Story".into()),
        type_id: Some(2),
        publication_year: Some(PartialDate { year: Some(1950), month: Some(3), day: None, circa: true }),
        notes: None,
    };
    let view = view_from_content(&content);
    assert_eq!(view.id, Some(7));
    assert_eq!(view.title, "Racconto");
    assert_eq!(view.original_title, Some("Story".to_string()));
    assert_eq!(view.notes, None);
    assert_eq!(view.publication_date_year, Some(1950));
    assert_eq!(view.publication_date_month, Some(3));
    assert_eq!(view.publication_date_day, None);
    assert!(view.publication_date_circa);
}

#[test]
fn person_form_view_shows_the_stored_person() {
    let person = Person {
        id: 4,
        name: "Italo Calvino".into(),
        display_name: None,
        given_name: Some("Italo".into()),
        surname: Some("Calvino".into()),
        middle_names: None,
        title: None,
        suffix: None,
        birth_date: Some(PartialDate { year: Some(1923), month: Some(10), day: Some(15), circa: false }),
        death_date: None,
        biography: None,
        verified: false,
    };
    let view = view_from_person(&person);
    assert_eq!(view.id, Some(4));
    assert_eq!(view.name, "Italo Calvino");
    assert_eq!(view.surname, Some("Calvino".to_string()));
    assert_eq!(view.birth_date_year, Some(1923));
    assert_eq!(view.birth_date_month, Some(10));
    assert_eq!(view.birth_date_day, Some(15));
    assert!(!view.birth_date_circa);
    assert_eq!(view.death_date_year, None);
    assert!(!view.death_date_circa);
}

#[test]
fn authors_joined_by_bars_read_back() {
    let names = vec!["Umberto Eco".to_string(), "".to_string(), "Italo Calvino".to_string()];
    let stored = ritmo::text::join(&names, "||");
    assert_eq!(stored, "Umberto Eco||||Italo Calvino");
    assert_eq!(split_authors(Some(stored)), names);
}
