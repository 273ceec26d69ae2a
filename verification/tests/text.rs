use ritmo::presenter::place_display;
use ritmo::domain::PartialDate;
use ritmo::numbers::{i64_to_string, parse_i32, parse_i64, parse_u8};
use ritmo::screens::detail_text::{
    clamped_index, current_position, format_partial_date, padded_number_text, related_block_text,
    related_title,
};
use ritmo::screens::form::{collection_text_summary, label_row_text};
use ritmo::screens::options::{insert_option, sort_options_by_name};
use ritmo::text::{join, text_eq, text_less, trim, trim_to_option_str};

#[test]
fn trim_removes_unicode_whitespace_at_both_ends() {
    assert_eq!(trim("\u{3000} ciao\t\n"), "ciao");
    assert_eq!(trim("   "), "");
    assert_eq!(trim(&trim("  a b  ")), trim("  a b  "));
    assert_eq!(trim_to_option_str(" x "), Some("x".to_string()));
    assert_eq!(trim_to_option_str("\u{a0}"), None);
}

#[test]
fn integers_parse_as_std_does() {
    for s in ["0", "+12", "-12", "0012", "9223372036854775807", "-9223372036854775808"] {
        assert_eq!(parse_i64(s), s.parse::<i64>().ok(), "{s}");
    }
    for s in ["", "+", "-", " 1", "1 ", "9223372036854775808", "1_0", "٣"] {
        assert_eq!(parse_i64(s), None, "{s}");
    }
    assert_eq!(parse_i32("-2147483648"), Some(i32::MIN));
    assert_eq!(parse_i32("2147483648"), None);
    assert_eq!(parse_u8("255"), Some(255));
    assert_eq!(parse_u8("256"), None);
    assert_eq!(parse_u8("-0"), None);
}

#[test]
fn integers_print_and_parse_back() {
    for v in [0i64, 7, -7, 1234567, i64::MIN, i64::MAX] {
        let s = i64_to_string(v);
        assert_eq!(s, v.to_string());
        assert_eq!(parse_i64(&s), Some(v));
    }
}

#[test]
fn join_and_compare_texts() {
    assert_eq!(join(&vec!["a".into(), "b".into(), "c".into()], ", "), "a, b, c");
    assert_eq!(join(&vec![], ", "), "");
    assert!(text_eq("città", "città"));
    assert!(!text_eq("a", "ab"));
    assert!(text_less("Ada", "Alan"));
    assert!(text_less("Al", "Alan"));
    assert!(!text_less("b", "B"));
}

#[test]
fn options_sort_stably_by_name() {
    let sorted = sort_options_by_name(vec![
        (3, "Carla".into()),
        (1, "Bruno".into()),
        (2, "Bruno".into()),
        (4, "Anna".into()),
    ]);
    assert_eq!(
        sorted,
        vec![
            (4, "Anna".to_string()),
            (1, "Bruno".to_string()),
            (2, "Bruno".to_string()),
            (3, "Carla".to_string())
        ]
    );
    let mut r = sorted.clone();
    insert_option(&mut r, (5, "Bruno".into()));
    assert_eq!(r[3], (5, "Bruno".to_string()));
}

#[test]
fn form_rows_and_summaries() {
    assert_eq!(label_row_text("Titolo", "Dune"), "Titolo: Dune");
    assert_eq!(label_row_text("Note", "  "), "Note: —");
    assert_eq!(collection_text_summary(&vec!["".into(), " ".into()]), "—");
    assert_eq!(collection_text_summary(&vec!["a".into(), " ".into(), "b".into()]), "a, b");
}

#[test]
fn dates_are_written_with_padded_parts() {
    assert_eq!(padded_number_text(7, 4), "0007");
    assert_eq!(padded_number_text(-5, 4), "-005");
    assert_eq!(padded_number_text(12345, 4), "12345");
    let d = |year, month, day| Some(PartialDate { year, month, day, circa: false });
    assert_eq!(format_partial_date(d(Some(1984), Some(6), Some(8))), "1984-06-08");
    assert_eq!(format_partial_date(d(Some(1984), Some(6), None)), "1984-06");
    assert_eq!(format_partial_date(d(Some(33), None, None)), "0033");
    assert_eq!(format_partial_date(d(None, Some(6), Some(8))), "--06-08");
    assert_eq!(format_partial_date(d(None, Some(6), None)), "--06");
    assert_eq!(format_partial_date(d(None, None, Some(8))), "---08");
    assert_eq!(format_partial_date(d(Some(1984), None, Some(8))), "1984---08");
    assert_eq!(format_partial_date(d(None, None, None)), "");
    assert_eq!(format_partial_date(None), "");
}

#[test]
fn related_lists_mark_the_clamped_selection() {
    let items = vec!["uno".to_string(), "due".to_string()];
    assert_eq!(related_block_text(&items, true, 5), "  uno\n> due");
    assert_eq!(related_block_text(&items, false, 1), "  uno\n  due");
    assert_eq!(related_block_text(&vec![], true, 0), "—");
    assert_eq!(related_title("tag", true), "tag *");
    assert_eq!(clamped_index(9, 3), 2);
    assert_eq!(clamped_index(9, 0), 0);
    assert_eq!(current_position(9, 3), 3);
    assert_eq!(current_position(0, 0), 0);
}

#[test]
fn place_display_joins_city_country_continent() {
    let line = place_display(
        &Some("Europa".to_owned()),
        &Some("Italia".to_owned()),
        &Some("Roma".to_owned()),
    );
    assert_eq!(line, "Roma, Italia, Europa");
}

#[test]
fn place_display_skips_missing_and_blank_parts() {
    assert_eq!(
        place_display(&Some("Europa".to_owned()), &None, &Some("  ".to_owned())),
        "Europa"
    );
    assert_eq!(place_display(&None, &None, &None), "");
}

#[test]
fn sorted_options_are_in_name_order() {
    let sorted = sort_options_by_name(vec![
        (1, "b".into()),
        (2, "a".into()),
        (3, "c".into()),
        (4, "a".into()),
    ]);
    let names: Vec<&str> = sorted.iter().map(|o| o.1.as_str()).collect();
    assert_eq!(names, vec!["a", "a", "b", "c"]);
    let ids: Vec<i64> = sorted.iter().map(|o| o.0).collect();
    assert_eq!(ids, vec![2, 4, 1, 3]);
}
