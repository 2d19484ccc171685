use grade_tui::model::GenericResponse;
use grade_tui::protocol::{course_data_error, first_existing, generic_outcome};
use grade_tui::theme::{
    monokai_pro, parse_json_color, theme_from_text, Color, ColorOverride, ColorValue,
};

fn over(key: &str, value: ColorValue) -> ColorOverride {
    ColorOverride { key: key.to_string(), value }
}

#[test]
fn palette_numbers() {
    assert_eq!(parse_json_color(&ColorValue::Number(Some(81))), Some(Color::Indexed(81)));
    assert_eq!(parse_json_color(&ColorValue::Number(Some(255))), Some(Color::Indexed(255)));
    assert_eq!(parse_json_color(&ColorValue::Number(Some(256))), None);
    assert_eq!(parse_json_color(&ColorValue::Number(None)), None);
}

#[test]
fn hex_texts() {
    let t = |s: &str| parse_json_color(&ColorValue::Text(s.to_string()));
    assert_eq!(t("#ff8700"), Some(Color::Rgb(255, 135, 0)));
    assert_eq!(t("#FF8700"), Some(Color::Rgb(255, 135, 0)));
    assert_eq!(t("#+f+f+f"), Some(Color::Rgb(15, 15, 15)));
    assert_eq!(t("#-f0000"), None);
    assert_eq!(t("#gg0000"), None);
    assert_eq!(t("ff8700"), None);
    assert_eq!(t("#ff870"), None);
    assert_eq!(t("#ééé"), None);
}

#[test]
fn lists_of_three() {
    let l = |v: Vec<Option<u64>>| parse_json_color(&ColorValue::List(v));
    assert_eq!(l(vec![Some(1), Some(2), Some(300)]), Some(Color::Rgb(1, 2, 44)));
    assert_eq!(l(vec![Some(1), Some(2)]), None);
    assert_eq!(l(vec![Some(1), None, Some(3)]), None);
    assert_eq!(parse_json_color(&ColorValue::Other), None);
}

#[test]
fn overrides_replace_named_entries() {
    let mut t = monokai_pro();
    let entries = vec![
        over("bg", ColorValue::Number(Some(16))),
        over("fg", ColorValue::Text("#010203".to_string())),
        over("bg", ColorValue::Number(Some(17))),
        over("title", ColorValue::Text("red".to_string())),
        over("unknown", ColorValue::Number(Some(1))),
        over("grade_f", ColorValue::List(vec![Some(9), Some(8), Some(7)])),
    ];
    t.apply_overrides(&entries);
    assert_eq!(t.bg, Color::Indexed(16));
    assert_eq!(t.fg, Color::Rgb(1, 2, 3));
    assert_eq!(t.title, Color::Indexed(197));
    assert_eq!(t.grade_f, Color::Rgb(9, 8, 7));
    assert_eq!(t.panel_bg, Color::Indexed(233));
}

#[test]
fn no_overrides_keep_default_theme() {
    let mut t = monokai_pro();
    t.apply_overrides(&vec![]);
    assert!(t == monokai_pro());
}

#[test]
fn colour_text_with_other_characters_reads_as_no_colour() {
    assert_eq!("#aébcd".len(), 7);
    assert_eq!(parse_json_color(&ColorValue::Text("#aébcd".to_string())), None);
    assert_eq!("#aé€".len(), 7);
    assert_eq!(parse_json_color(&ColorValue::Text("#aé€".to_string())), None);
    assert_eq!(parse_json_color(&ColorValue::Text("#éabcd".to_string())), None);
    let mut t = monokai_pro();
    t.apply_overrides(&vec![over("bg", ColorValue::Text("#aé€".to_string()))]);
    assert!(t == monokai_pro());
}

#[test]
fn generic_replies() {
    let ok = generic_outcome(GenericResponse { status: "ok".to_string(), message: "done".to_string() });
    assert_eq!(ok.unwrap().message, "done");
    let err = generic_outcome(GenericResponse {
        status: "error".to_string(),
        message: "no such column".to_string(),
    });
    assert_eq!(err.unwrap_err(), "no such column");
}

#[test]
fn course_data_replies() {
    assert_eq!(course_data_error(&"ok".to_string(), &None), None);
    assert_eq!(
        course_data_error(&"error".to_string(), &Some("missing config".to_string())),
        Some("missing config".to_string())
    );
    assert_eq!(
        course_data_error(&"error".to_string(), &None),
        Some("Unknown error from Python bridge".to_string())
    );
}

#[test]
fn unreadable_overrides_keep_theme() {
    let mut t = monokai_pro();
    t.apply_overrides(&vec![
        over("bg", ColorValue::Number(Some(999))),
        over("fg", ColorValue::Text("#zzzzzz".to_string())),
        over("border", ColorValue::List(vec![Some(1)])),
        over("title", ColorValue::Other),
    ]);
    assert!(t == monokai_pro());
}

#[test]
fn theme_file_text_overrides_palette() {
    let t = theme_from_text(
        r##"{"bg": 16, "fg": "#010203", "title": "red", "grade_f": [9, 8, 263], "other": 1, "purple": -3}"##,
    )
    .unwrap();
    assert_eq!(t.bg, Color::Indexed(16));
    assert_eq!(t.fg, Color::Rgb(1, 2, 3));
    assert_eq!(t.title, Color::Indexed(197));
    assert_eq!(t.grade_f, Color::Rgb(9, 8, 7));
    assert_eq!(t.purple, Color::Indexed(141));
    assert_eq!(t.panel_bg, Color::Indexed(233));
    assert!(theme_from_text("{}").unwrap() == monokai_pro());
    assert!(theme_from_text(" { \"bg\": 300 } ").unwrap() == monokai_pro());
}

#[test]
fn theme_file_text_that_is_no_object_gives_no_theme() {
    assert!(theme_from_text("[1, 2]").is_none());
    assert!(theme_from_text("not json").is_none());
    assert!(theme_from_text("").is_none());
    assert!(theme_from_text("{\"bg\": 16").is_none());
}

#[test]
fn first_existing_candidate() {
    assert_eq!(first_existing(&vec![false, true, true]), Some(1));
    assert_eq!(first_existing(&vec![true]), Some(0));
    assert_eq!(first_existing(&vec![false, false]), None);
    assert_eq!(first_existing(&vec![]), None);
}
