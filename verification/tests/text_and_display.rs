use grade_tui::app::{App, AppEvent, KeyCode, KeyPress};
use grade_tui::display::{
    bar_lengths, category_tone, cell_line, footer, grade_band, grade_signal, name_column_width,
    score_column_width, short_column_label, spinner_frame, sub_column_window, take_chars,
    CategoryTone, CellLine, Footer, GradeBand, GradeSignal, RawFocus,
};
use grade_tui::model::{categories_from, sort_texts, text_lt, CourseView, Setting};
use grade_tui::text::{
    contains_text, ends_with_text, format_thai_name, join_words_from, space_run, split_words,
    strip_suffixes_text, trim,
};

#[test]
fn trim_removes_unicode_white_space() {
    assert_eq!(trim("  8.5 \t"), "8.5");
    assert_eq!(trim("\u{3000}abc\u{a0}"), "abc");
    assert_eq!(trim("   "), "");
    assert_eq!(trim(""), "");
    assert_eq!(trim("a b"), "a b");
}

#[test]
fn split_words_keeps_runs() {
    assert_eq!(split_words("  Ann   Lee Kim "), vec!["Ann", "Lee", "Kim"]);
    assert_eq!(split_words(""), Vec::<String>::new());
    assert_eq!(split_words("one"), vec!["one"]);
    assert_eq!(join_words_from(&split_words("a  b c"), 1), "b c");
    assert_eq!(space_run(3), "   ");
}

#[test]
fn thai_name_pads_first_name() {
    assert_eq!(format_thai_name("John Smith", 18), format!("John{}Smith", " ".repeat(14)));
    assert_eq!(format_thai_name("Ann  Lee  Kim", 18), format!("Ann{}Lee Kim", " ".repeat(15)));
    assert_eq!(format_thai_name("Abcdefghijklmnopqrstu Lee", 18), "Abcdefghijklmnopqrstu Lee");
    assert_eq!(format_thai_name("  Solo  ", 18), "  Solo  ");
    // Wide characters take two columns each.
    assert_eq!(format_thai_name("山田 太郎", 6), "山田  太郎");
    // Thai combining vowels take no column of their own.
    assert_eq!(format_thai_name("สมศักดิ์ ดี", 8), "สมศักดิ์   ดี");
}

#[test]
fn substring_helpers() {
    assert!(contains_text("homework 1", "work"));
    assert!(!contains_text("hw", "homework"));
    assert!(contains_text("abc", ""));
    assert!(ends_with_text("quiz_pct", "_pct"));
    assert!(!ends_with_text("pct", "_pct"));
    assert_eq!(strip_suffixes_text("quiz_pct_pct", "_pct"), "quiz");
    assert_eq!(strip_suffixes_text("quiz", "_pct"), "quiz");
}

#[test]
fn categories_from_summary_columns() {
    let cols: Vec<String> = vec!["Student ID", "homework_pct", "midterm_pct", "Final Score"]
        .into_iter()
        .map(String::from)
        .collect();
    assert_eq!(categories_from(&cols), vec!["homework", "midterm"]);
}

#[test]
fn texts_sort_by_code_point() {
    let keys: Vec<String> = vec!["b", "a", "C", "B+", "B", "a"].into_iter().map(String::from).collect();
    assert_eq!(sort_texts(&keys), vec!["B", "B+", "C", "a", "a", "b"]);
    assert!(text_lt("B", "B+"));
    assert!(!text_lt("b", "B"));
    assert!(!text_lt("x", "x"));
}

#[test]
fn category_tones() {
    assert_eq!(category_tone("Homework"), CategoryTone::Coursework);
    assert_eq!(category_tone("HW1"), CategoryTone::Coursework);
    assert_eq!(category_tone("Group Project"), CategoryTone::Coursework);
    assert_eq!(category_tone("attendance"), CategoryTone::Attendance);
    assert_eq!(category_tone("MIDTERM"), CategoryTone::Midterm);
    assert_eq!(category_tone("Final"), CategoryTone::Final);
    assert_eq!(category_tone("Quiz"), CategoryTone::Other);
}

#[test]
fn grade_bands() {
    assert_eq!(grade_band("A"), GradeBand::A);
    assert_eq!(grade_band("B+"), GradeBand::B);
    assert_eq!(grade_band("C"), GradeBand::C);
    assert_eq!(grade_band("D+"), GradeBand::D);
    assert_eq!(grade_band("F"), GradeBand::F);
    assert_eq!(grade_band("F+"), GradeBand::Other);
    assert_eq!(grade_band(""), GradeBand::Other);
}

#[test]
fn grade_signals() {
    assert_eq!(grade_signal(" a- "), GradeSignal::Excellent);
    assert_eq!(grade_signal("passed"), GradeSignal::Excellent);
    assert_eq!(grade_signal("B+"), GradeSignal::Good);
    assert_eq!(grade_signal("c"), GradeSignal::Fair);
    assert_eq!(grade_signal("D-"), GradeSignal::Poor);
    assert_eq!(grade_signal("F"), GradeSignal::Failing);
    assert_eq!(grade_signal("E"), GradeSignal::Failing);
}

#[test]
fn bars_scale_to_largest_count() {
    assert_eq!(bar_lengths(&vec![0, 10, 5]), vec![(0, 35), (35, 0), (17, 18)]);
    assert_eq!(bar_lengths(&vec![0, 0]), vec![(0, 35), (0, 35)]);
    assert_eq!(bar_lengths(&vec![]), vec![]);
}

#[test]
fn sub_column_windows() {
    assert_eq!(sub_column_window(0, 3), (0, 3));
    assert_eq!(sub_column_window(2, 10), (0, 5));
    assert_eq!(sub_column_window(4, 10), (2, 7));
    assert_eq!(sub_column_window(9, 3), (7, 3));
}

#[test]
fn summary_column_widths() {
    assert_eq!(score_column_width(100, 8, 20), 10);
    assert_eq!(score_column_width(40, 8, 20), 6);
    assert_eq!(score_column_width(200, 3, 20), 6);
    assert_eq!(score_column_width(300, 4, 20), 258);
}

#[test]
fn name_column_widths() {
    assert_eq!(name_column_width(&vec![]), 20);
    assert_eq!(name_column_width(&vec!["Al".to_string()]), 8);
    assert_eq!(name_column_width(&vec!["John Smith".to_string(), "Ann".to_string()]), 23);
}

#[test]
fn spinner_frames() {
    assert_eq!(spinner_frame(0), 0);
    assert_eq!(spinner_frame(7), 3);
    assert_eq!(spinner_frame(usize::MAX), 3);
}

#[test]
fn labels_are_shortened() {
    assert_eq!(short_column_label("midterm_showsol_part2"), "midterm_showsol…");
    assert_eq!(short_column_label("sixteen_chars_ab"), "sixteen_chars_ab");
    assert_eq!(take_chars("สมชาย", 2), "สม");
    assert_eq!(take_chars("ab", 27), "ab");
}

#[test]
fn footer_follows_focus() {
    let mut app = App::new();
    assert_eq!(footer(&app), Footer::CourseList);
    app.error = Some("x".to_string());
    assert_eq!(footer(&app), Footer::Error);
    app.info_msg = Some("y".to_string());
    assert_eq!(footer(&app), Footer::Info);
    app.error = None;
    app.info_msg = None;
    let view = CourseView {
        summary_columns: vec!["hw_pct".to_string()],
        data_mapping: vec![],
        raw_scores: vec![],
        student_grade_count: 0,
        improved_student_count: 0,
        weights: vec![Setting { key: "hw".to_string(), text: "1.00".to_string() }],
        grade_boundaries: vec![],
    };
    let _ = app.update(AppEvent::CourseDataLoaded(Ok(view)));
    assert_eq!(footer(&app), Footer::Dashboard { raw: None, settings_keys: true });
    let tab = KeyPress {
        code: KeyCode::Tab,
        ctrl: false,
        input: tui_textarea::Input { key: tui_textarea::Key::Tab, ctrl: false, alt: false, shift: false },
    };
    let _ = app.update(AppEvent::Key(tab));
    assert_eq!(footer(&app), Footer::Dashboard { raw: Some(RawFocus::Categories), settings_keys: true });
    app.start_editing_weights();
    assert_eq!(footer(&app), Footer::SettingsEditor);
}

#[test]
fn white_space_matches_every_character() {
    for n in 0u32..=0x10FFFF {
        if let Some(c) = char::from_u32(n) {
            let s = format!("{c}x{c}");
            assert_eq!(trim(&s), s.trim(), "character {n:#x}");
        }
    }
}

#[test]
fn cell_line_follows_cursor_column() {
    assert_eq!(cell_line(0, 3), CellLine::Nothing);
    assert_eq!(cell_line(1, 3), CellLine::Nothing);
    assert_eq!(cell_line(2, 3), CellLine::Column(0));
    assert_eq!(cell_line(4, 3), CellLine::Column(2));
    assert_eq!(cell_line(5, 3), CellLine::Total);
    assert_eq!(cell_line(6, 3), CellLine::Nothing);
    assert_eq!(cell_line(2, 0), CellLine::Total);
}
