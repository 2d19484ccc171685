use grade_tui::app::{Action, App, AppEvent, AppState, KeyCode, KeyPress, SettingsTarget};
use grade_tui::model::{CategoryColumns, CellValue, Course, CourseView, ScoreCell, ScoreRecord, Setting};

fn key(code: KeyCode) -> KeyPress {
    let k = match code {
        KeyCode::Char(c) => tui_textarea::Key::Char(c),
        KeyCode::Enter => tui_textarea::Key::Enter,
        KeyCode::Esc => tui_textarea::Key::Esc,
        KeyCode::Tab => tui_textarea::Key::Tab,
        KeyCode::BackTab => tui_textarea::Key::Tab,
        KeyCode::Up => tui_textarea::Key::Up,
        KeyCode::Down => tui_textarea::Key::Down,
        KeyCode::Left => tui_textarea::Key::Left,
        KeyCode::Right => tui_textarea::Key::Right,
        KeyCode::Other => tui_textarea::Key::Null,
    };
    KeyPress {
        code,
        ctrl: false,
        input: tui_textarea::Input { key: k, ctrl: false, alt: false, shift: false },
    }
}

fn backspace() -> KeyPress {
    KeyPress {
        code: KeyCode::Other,
        ctrl: false,
        input: tui_textarea::Input {
            key: tui_textarea::Key::Backspace,
            ctrl: false,
            alt: false,
            shift: false,
        },
    }
}

fn press(app: &mut App, code: KeyCode) -> Option<Action> {
    app.update(AppEvent::Key(key(code)))
}

fn cell(col: &str, v: CellValue) -> ScoreCell {
    ScoreCell { column: col.to_string(), value: v }
}

fn setting(k: &str, t: &str) -> Setting {
    Setting { key: k.to_string(), text: t.to_string() }
}

fn sample_view() -> CourseView {
    CourseView {
        summary_columns: vec![
            "Student ID".to_string(),
            "Name".to_string(),
            "homework_pct".to_string(),
            "midterm_pct".to_string(),
            "Final Score".to_string(),
            "Grade".to_string(),
        ],
        data_mapping: vec![
            CategoryColumns {
                category: "homework".to_string(),
                columns: vec!["hw1".to_string(), "hw2".to_string()],
            },
            CategoryColumns { category: "midterm".to_string(), columns: vec!["mid".to_string()] },
        ],
        raw_scores: vec![
            ScoreRecord {
                cells: vec![
                    cell("Student ID", CellValue::Text("S001".to_string())),
                    cell("Name", CellValue::Text("Ann Lee".to_string())),
                    cell("hw1", CellValue::Real("8.5".to_string())),
                    cell("hw2", CellValue::Integer("9".to_string())),
                    cell("mid", CellValue::Text("EA".to_string())),
                ],
            },
            ScoreRecord {
                cells: vec![
                    cell("Student ID", CellValue::Text("S002".to_string())),
                    cell("Name", CellValue::Text("Bo Kim".to_string())),
                    cell("hw1", CellValue::Other),
                ],
            },
        ],
        student_grade_count: 20,
        improved_student_count: 1,
        weights: vec![setting("midterm", "0.40"), setting("homework", "0.60")],
        grade_boundaries: vec![setting("A", "80.0"), setting("B", "70.0"), setting("B+", "75.0")],
    }
}

fn loaded_app() -> App {
    let mut app = App::new();
    let _ = app.update(AppEvent::CoursesLoaded(Ok(vec![Course {
        name: "2026_S1_Physics".to_string(),
        path: "courses/2026_S1_Physics".to_string(),
    }])));
    let act = press(&mut app, KeyCode::Enter);
    assert!(matches!(act, Some(Action::LoadCourseData { .. })));
    let _ = app.update(AppEvent::CourseDataLoaded(Ok(sample_view())));
    app
}

fn first_line(app: &App) -> String {
    app.edit_textarea.as_ref().unwrap().drawing_state().0[0].clone()
}

#[test]
fn new_app_starts_on_course_list() {
    let app = App::new();
    assert_eq!(app.state, AppState::CourseSelect);
    assert!(app.courses.is_empty());
    assert!(app.use_weighted);
    assert_eq!(app.active_tab, 0);
    assert_eq!((app.width, app.height), (80, 24));
    assert!(!app.loading && !app.editing && !app.editing_weights && !app.editing_boundaries);
    assert!(app.course_data.is_none());
}

#[test]
fn courses_loaded_keeps_cursor_on_list() {
    let mut app = App::new();
    app.course_index = 5;
    let act = app.update(AppEvent::CoursesLoaded(Ok(vec![
        Course { name: "a".to_string(), path: "pa".to_string() },
        Course { name: "b".to_string(), path: "pb".to_string() },
    ])));
    assert!(act.is_none());
    assert_eq!(app.course_index, 0);
    assert_eq!(app.courses.len(), 2);
    assert!(!app.loading);
    press(&mut app, KeyCode::Down);
    assert_eq!(app.course_index, 1);
    press(&mut app, KeyCode::Down);
    assert_eq!(app.course_index, 1);
    press(&mut app, KeyCode::Char('k'));
    assert_eq!(app.course_index, 0);
    press(&mut app, KeyCode::Up);
    assert_eq!(app.course_index, 0);
}

#[test]
fn courses_load_error_is_shown() {
    let mut app = App::new();
    app.loading = true;
    let _ = app.update(AppEvent::CoursesLoaded(Err("no python".to_string())));
    assert_eq!(app.error.as_deref(), Some("no python"));
    assert!(!app.loading);
}

#[test]
fn enter_on_course_requests_its_data() {
    let mut app = App::new();
    let _ = app.update(AppEvent::CoursesLoaded(Ok(vec![Course {
        name: "c".to_string(),
        path: "courses/c".to_string(),
    }])));
    match press(&mut app, KeyCode::Enter) {
        Some(Action::LoadCourseData { path, use_weighted }) => {
            assert_eq!(path, "courses/c");
            assert!(use_weighted);
        }
        _ => panic!("expected a course data request"),
    }
    assert!(app.loading);
    assert_eq!(app.loading_msg, "Loading course data (weighted: true)...");
    assert_eq!(app.selected_course_path, "courses/c");
}

#[test]
fn enter_on_empty_course_list_does_nothing() {
    let mut app = App::new();
    assert!(press(&mut app, KeyCode::Enter).is_none());
    assert!(!app.loading);
}

#[test]
fn loading_without_a_course_asks_nothing() {
    let mut app = App::new();
    assert!(app.load_course_data().is_none());
    assert!(app.export_reports().is_none());
    assert!(!app.loading);
}

#[test]
fn course_data_opens_dashboard_on_first_category() {
    let app = loaded_app();
    assert_eq!(app.state, AppState::Dashboard);
    assert!(!app.loading);
    assert_eq!(app.raw_category_index, 0);
    assert_eq!(app.raw_selected_category.as_deref(), Some("homework"));
    assert_eq!(app.get_categories(), vec!["homework".to_string(), "midterm".to_string()]);
}

#[test]
fn course_data_error_is_shown() {
    let mut app = App::new();
    let _ = app.update(AppEvent::CourseDataLoaded(Err("bad json".to_string())));
    assert_eq!(app.error.as_deref(), Some("bad json"));
    assert_eq!(app.state, AppState::CourseSelect);
}

#[test]
fn categories_strip_every_pct_suffix() {
    let mut app = App::new();
    let mut v = sample_view();
    v.summary_columns = vec![
        "Name".to_string(),
        "quiz_pct_pct".to_string(),
        "pct".to_string(),
        "_pct".to_string(),
        "lab_pct".to_string(),
    ];
    app.course_data = Some(v);
    assert_eq!(app.get_categories(), vec!["quiz".to_string(), "".to_string(), "lab".to_string()]);
}

#[test]
fn tab_cycles_through_four_tabs() {
    let mut app = loaded_app();
    let mut seen = vec![];
    for _ in 0..4 {
        press(&mut app, KeyCode::Tab);
        seen.push(app.active_tab);
    }
    assert_eq!(seen, vec![1, 2, 3, 0]);
    press(&mut app, KeyCode::BackTab);
    assert_eq!(app.active_tab, 3);
}

#[test]
fn tab_then_back_tab_returns() {
    let mut app = loaded_app();
    press(&mut app, KeyCode::Tab);
    press(&mut app, KeyCode::Tab);
    let before = app.active_tab;
    press(&mut app, KeyCode::Tab);
    press(&mut app, KeyCode::BackTab);
    assert_eq!(app.active_tab, before);
    assert_eq!((app.cursor_row, app.cursor_col), (0, 0));
}

#[test]
fn tab_resets_cursor_and_selection() {
    let mut app = loaded_app();
    press(&mut app, KeyCode::Down);
    press(&mut app, KeyCode::Right);
    assert_eq!((app.cursor_row, app.cursor_col), (1, 1));
    press(&mut app, KeyCode::Tab);
    assert_eq!((app.cursor_row, app.cursor_col, app.scroll_row_offset, app.scroll_col_offset), (0, 0, 0, 0));
    assert!(!app.raw_right_focused);
    assert_eq!(app.raw_selected_category.as_deref(), Some("homework"));
}

#[test]
fn summary_rows_scroll_after_fifteen() {
    let mut app = loaded_app();
    for _ in 0..15 {
        press(&mut app, KeyCode::Char('j'));
    }
    assert_eq!(app.cursor_row, 15);
    assert_eq!(app.scroll_row_offset, 1);
    for _ in 0..10 {
        press(&mut app, KeyCode::Down);
    }
    assert_eq!(app.cursor_row, 19);
    assert_eq!(app.scroll_row_offset, 5);
    for _ in 0..19 {
        press(&mut app, KeyCode::Up);
    }
    assert_eq!(app.cursor_row, 0);
    assert_eq!(app.scroll_row_offset, 0);
}

#[test]
fn summary_columns_stop_at_last() {
    let mut app = loaded_app();
    for _ in 0..10 {
        press(&mut app, KeyCode::Char('l'));
    }
    assert_eq!(app.cursor_col, 5);
    assert_eq!(app.scroll_col_offset, 0);
    press(&mut app, KeyCode::Char('h'));
    assert_eq!(app.cursor_col, 4);
}

#[test]
fn summary_columns_scroll_after_six() {
    let mut app = loaded_app();
    let mut v = sample_view();
    for i in 0..10 {
        v.summary_columns.push(format!("c{}", i));
    }
    let _ = app.update(AppEvent::CourseDataLoaded(Ok(v)));
    for _ in 0..7 {
        press(&mut app, KeyCode::Right);
    }
    assert_eq!(app.cursor_col, 7);
    assert_eq!(app.scroll_col_offset, 2);
}

#[test]
fn roundup_tab_rows_follow_improved_students() {
    let mut app = loaded_app();
    for _ in 0..3 {
        press(&mut app, KeyCode::Tab);
    }
    assert_eq!(app.active_tab, 3);
    press(&mut app, KeyCode::Down);
    assert_eq!(app.cursor_row, 0);
    press(&mut app, KeyCode::Tab);
    press(&mut app, KeyCode::BackTab);
    press(&mut app, KeyCode::BackTab);
    assert_eq!(app.active_tab, 2);
    press(&mut app, KeyCode::Down);
    assert_eq!(app.cursor_row, 0);
}

#[test]
fn enter_on_summary_shows_hint() {
    let mut app = loaded_app();
    assert!(press(&mut app, KeyCode::Enter).is_none());
    assert!(!app.editing);
    assert_eq!(
        app.info_msg.as_deref(),
        Some("To edit scores, please switch to the 'Raw Details' tab")
    );
}

#[test]
fn raw_details_category_list_navigation() {
    let mut app = loaded_app();
    press(&mut app, KeyCode::Tab);
    assert_eq!(app.active_tab, 1);
    press(&mut app, KeyCode::Down);
    assert_eq!(app.raw_category_index, 1);
    assert_eq!(app.raw_selected_category.as_deref(), Some("midterm"));
    press(&mut app, KeyCode::Down);
    assert_eq!(app.raw_category_index, 1);
    press(&mut app, KeyCode::Up);
    assert_eq!(app.raw_selected_category.as_deref(), Some("homework"));
    assert_eq!(app.cursor_row, 0);
}

#[test]
fn raw_details_focus_moves_between_panels() {
    let mut app = loaded_app();
    press(&mut app, KeyCode::Tab);
    press(&mut app, KeyCode::Right);
    assert!(app.raw_right_focused);
    assert_eq!(app.cursor_col, 0);
    press(&mut app, KeyCode::Right);
    press(&mut app, KeyCode::Right);
    assert_eq!(app.cursor_col, 2);
    assert_eq!(app.scroll_col_offset, 2);
    for _ in 0..5 {
        press(&mut app, KeyCode::Right);
    }
    assert_eq!(app.cursor_col, 4);
    press(&mut app, KeyCode::Left);
    press(&mut app, KeyCode::Left);
    press(&mut app, KeyCode::Left);
    press(&mut app, KeyCode::Left);
    assert_eq!(app.cursor_col, 0);
    press(&mut app, KeyCode::Left);
    assert!(!app.raw_right_focused);
}

#[test]
fn score_edit_writes_new_value() {
    let mut app = loaded_app();
    press(&mut app, KeyCode::Tab);
    press(&mut app, KeyCode::Enter);
    assert!(app.raw_right_focused);
    press(&mut app, KeyCode::Right);
    press(&mut app, KeyCode::Right);
    press(&mut app, KeyCode::Enter);
    assert!(app.editing);
    assert_eq!(app.editing_student_id, "S001");
    assert_eq!(app.editing_column, "hw1");
    assert_eq!(app.editing_original_value, "8.5");
    assert_eq!(first_line(&app), "8.5");
    app.update(AppEvent::Key(backspace()));
    press(&mut app, KeyCode::Char('7'));
    assert_eq!(first_line(&app), "8.7");
    assert!(press(&mut app, KeyCode::Char('q')).is_none());
    assert_eq!(first_line(&app), "8.7q");
    app.update(AppEvent::Key(backspace()));
    match press(&mut app, KeyCode::Enter) {
        Some(Action::UpdateScore { path, student_id, column, value }) => {
            assert_eq!(path, "courses/2026_S1_Physics");
            assert_eq!(student_id, "S001");
            assert_eq!(column, "hw1");
            assert_eq!(value, "8.7");
        }
        _ => panic!("expected a score write"),
    }
    assert!(!app.editing);
    assert!(app.edit_textarea.is_none());
    assert!(app.loading);
    assert_eq!(app.loading_msg, "Saving score to CSV: Student S001's hw1 = 8.7...");
}

#[test]
fn unchanged_score_edit_writes_nothing() {
    let mut app = loaded_app();
    press(&mut app, KeyCode::Tab);
    press(&mut app, KeyCode::Enter);
    for _ in 0..3 {
        press(&mut app, KeyCode::Right);
    }
    press(&mut app, KeyCode::Enter);
    assert_eq!(app.editing_column, "hw2");
    assert_eq!(first_line(&app), "9");
    assert!(press(&mut app, KeyCode::Enter).is_none());
    assert!(!app.editing);
    assert!(!app.loading);
}

#[test]
fn trimmed_value_counts_as_unchanged() {
    let mut app = loaded_app();
    press(&mut app, KeyCode::Tab);
    press(&mut app, KeyCode::Enter);
    for _ in 0..3 {
        press(&mut app, KeyCode::Right);
    }
    press(&mut app, KeyCode::Enter);
    press(&mut app, KeyCode::Char(' '));
    assert_eq!(first_line(&app), "9 ");
    assert!(press(&mut app, KeyCode::Enter).is_none());
    assert!(!app.editing);
}

#[test]
fn esc_cancels_score_edit() {
    let mut app = loaded_app();
    press(&mut app, KeyCode::Tab);
    press(&mut app, KeyCode::Enter);
    press(&mut app, KeyCode::Right);
    press(&mut app, KeyCode::Right);
    press(&mut app, KeyCode::Enter);
    assert!(app.editing);
    assert!(press(&mut app, KeyCode::Esc).is_none());
    assert!(!app.editing);
    assert!(app.edit_textarea.is_none());
    assert_eq!(app.state, AppState::Dashboard);
}

#[test]
fn no_edit_on_identity_or_total_columns() {
    let mut app = loaded_app();
    press(&mut app, KeyCode::Tab);
    press(&mut app, KeyCode::Enter);
    press(&mut app, KeyCode::Right);
    press(&mut app, KeyCode::Enter);
    assert!(!app.editing);
    for _ in 0..3 {
        press(&mut app, KeyCode::Right);
    }
    assert_eq!(app.cursor_col, 4);
    press(&mut app, KeyCode::Enter);
    assert!(!app.editing);
}

#[test]
fn missing_value_edits_from_empty() {
    let mut app = loaded_app();
    press(&mut app, KeyCode::Tab);
    press(&mut app, KeyCode::Enter);
    press(&mut app, KeyCode::Down);
    press(&mut app, KeyCode::Right);
    press(&mut app, KeyCode::Right);
    press(&mut app, KeyCode::Right);
    assert_eq!((app.cursor_row, app.cursor_col), (1, 3));
    press(&mut app, KeyCode::Enter);
    assert!(app.editing);
    assert_eq!(app.editing_student_id, "S002");
    assert_eq!(app.editing_column, "hw2");
    assert_eq!(app.editing_original_value, "");
}

#[test]
fn text_value_edits_as_text() {
    let mut app = loaded_app();
    press(&mut app, KeyCode::Tab);
    press(&mut app, KeyCode::Down);
    press(&mut app, KeyCode::Enter);
    press(&mut app, KeyCode::Right);
    press(&mut app, KeyCode::Right);
    press(&mut app, KeyCode::Enter);
    assert_eq!(app.editing_column, "mid");
    assert_eq!(app.editing_original_value, "EA");
}

#[test]
fn weights_editor_lists_sorted_weights() {
    let mut app = loaded_app();
    assert!(press(&mut app, KeyCode::Char('w')).is_none());
    assert!(app.editing_weights);
    assert_eq!(app.settings_keys, vec!["homework".to_string(), "midterm".to_string()]);
    let texts: Vec<String> =
        app.settings_textareas.iter().map(|t| t.drawing_state().0[0].clone()).collect();
    assert_eq!(texts, vec!["0.60".to_string(), "0.40".to_string()]);
    press(&mut app, KeyCode::Down);
    assert_eq!(app.settings_index, 1);
    press(&mut app, KeyCode::Down);
    assert_eq!(app.settings_index, 1);
    app.update(AppEvent::Key(backspace()));
    press(&mut app, KeyCode::Char('5'));
    assert_eq!(app.settings_values(), vec!["0.60".to_string(), "0.45".to_string()]);
    assert!(matches!(press(&mut app, KeyCode::Enter), Some(Action::CheckSettings)));
    match app.save_config(&vec![true, true]) {
        Some(Action::UpdateConfig { path, target, entries }) => {
            assert_eq!(path, "courses/2026_S1_Physics");
            assert_eq!(target, SettingsTarget::Weights);
            let pairs: Vec<(String, String)> =
                entries.into_iter().map(|e| (e.key, e.text)).collect();
            assert_eq!(
                pairs,
                vec![
                    ("homework".to_string(), "0.60".to_string()),
                    ("midterm".to_string(), "0.45".to_string())
                ]
            );
        }
        _ => panic!("expected a config write"),
    }
    assert!(!app.editing_weights);
    assert!(app.loading);
    assert_eq!(app.loading_msg, "Saving updated configuration...");
}

#[test]
fn invalid_weight_is_reported() {
    let mut app = loaded_app();
    press(&mut app, KeyCode::Char('W'));
    press(&mut app, KeyCode::Char('x'));
    assert!(app.save_config(&vec![false, true]).is_none());
    assert_eq!(
        app.error.as_deref(),
        Some("Invalid weight float value for key 'homework': 0.60x")
    );
    assert!(!app.editing_weights);
    assert!(!app.loading);
}

#[test]
fn boundaries_editor_and_invalid_boundary() {
    let mut app = loaded_app();
    press(&mut app, KeyCode::Char('b'));
    assert!(app.editing_boundaries);
    assert_eq!(app.settings_keys, vec!["A".to_string(), "B".to_string(), "B+".to_string()]);
    assert_eq!(
        app.settings_values(),
        vec!["80.0".to_string(), "70.0".to_string(), "75.0".to_string()]
    );
    assert!(app.save_config(&vec![true, false, false]).is_none());
    assert_eq!(
        app.error.as_deref(),
        Some("Invalid boundary float value for grade 'B': 70.0")
    );
    assert!(!app.editing_boundaries);
}

#[test]
fn boundaries_saved_as_boundaries() {
    let mut app = loaded_app();
    press(&mut app, KeyCode::Char('B'));
    match app.save_config(&vec![true, true, true]) {
        Some(Action::UpdateConfig { target, entries, .. }) => {
            assert_eq!(target, SettingsTarget::Boundaries);
            assert_eq!(entries.len(), 3);
        }
        _ => panic!("expected a config write"),
    }
}

#[test]
fn esc_closes_settings_editor() {
    let mut app = loaded_app();
    press(&mut app, KeyCode::Char('w'));
    assert!(press(&mut app, KeyCode::Esc).is_none());
    assert!(!app.editing_weights && !app.editing_boundaries);
    assert_eq!(app.state, AppState::Dashboard);
}

#[test]
fn weighted_toggle_reloads_course() {
    let mut app = loaded_app();
    match press(&mut app, KeyCode::Char('c')) {
        Some(Action::LoadCourseData { use_weighted, .. }) => assert!(!use_weighted),
        _ => panic!("expected a reload"),
    }
    assert_eq!(app.loading_msg, "Loading course data (weighted: false)...");
    press(&mut app, KeyCode::Char('C'));
    assert!(app.use_weighted);
}

#[test]
fn export_requests_reports() {
    let mut app = loaded_app();
    match press(&mut app, KeyCode::Char('e')) {
        Some(Action::ExportReports { path, use_weighted }) => {
            assert_eq!(path, "courses/2026_S1_Physics");
            assert!(use_weighted);
        }
        _ => panic!("expected an export"),
    }
    assert_eq!(app.loading_msg, "Exporting final grades & copy-friendly scores...");
}

#[test]
fn dashboard_keys_ignored_on_course_list() {
    let mut app = App::new();
    for c in ['c', 'e', 'w', 'b'] {
        assert!(press(&mut app, KeyCode::Char(c)).is_none());
    }
    press(&mut app, KeyCode::Tab);
    assert_eq!(app.active_tab, 0);
    assert!(app.use_weighted);
    assert!(!app.editing_weights && !app.editing_boundaries);
}

#[test]
fn esc_returns_to_course_list() {
    let mut app = loaded_app();
    assert!(matches!(press(&mut app, KeyCode::Esc), Some(Action::LoadCourses)));
    assert_eq!(app.state, AppState::CourseSelect);
    assert!(app.course_data.is_none());
    assert!(app.loading);
    assert_eq!(app.loading_msg, "Scanning directory for courses...");
}

#[test]
fn esc_in_raw_details_steps_back() {
    let mut app = loaded_app();
    press(&mut app, KeyCode::Tab);
    press(&mut app, KeyCode::Enter);
    assert!(press(&mut app, KeyCode::Esc).is_none());
    assert!(!app.raw_right_focused);
    assert_eq!(app.state, AppState::Dashboard);
    assert!(matches!(press(&mut app, KeyCode::Esc), Some(Action::LoadCourses)));
    assert_eq!(app.state, AppState::CourseSelect);
}

#[test]
fn info_message_times_out() {
    let mut app = loaded_app();
    press(&mut app, KeyCode::Enter);
    assert!(app.info_msg.is_some());
    for _ in 0..14 {
        app.update(AppEvent::Tick);
    }
    assert!(app.info_msg.is_some());
    app.update(AppEvent::Tick);
    assert!(app.info_msg.is_none());
    assert_eq!(app.info_msg_ticks, 15);
}

#[test]
fn tick_count_wraps() {
    let mut app = App::new();
    app.info_msg_ticks = usize::MAX;
    app.update(AppEvent::Tick);
    assert_eq!(app.info_msg_ticks, 0);
}

#[test]
fn resize_records_size() {
    let mut app = App::new();
    assert!(app.update(AppEvent::Resize(120, 40)).is_none());
    assert_eq!((app.width, app.height), (120, 40));
}

#[test]
fn score_update_results() {
    let mut app = loaded_app();
    app.loading = true;
    match app.update(AppEvent::ScoreUpdated(Ok(()))) {
        Some(Action::LoadCourseData { path, .. }) => assert_eq!(path, "courses/2026_S1_Physics"),
        _ => panic!("expected a reload"),
    }
    assert_eq!(app.info_msg.as_deref(), Some("Score successfully saved and database updated!"));
    assert!(app.loading);
    let mut app = loaded_app();
    assert!(app.update(AppEvent::ScoreUpdated(Err("locked".to_string()))).is_none());
    assert_eq!(app.error.as_deref(), Some("Failed to update score: locked"));
    assert!(!app.loading);
}

#[test]
fn config_update_results() {
    let mut app = loaded_app();
    assert!(app.update(AppEvent::ConfigUpdated(Ok(()))).is_some());
    assert_eq!(app.info_msg.as_deref(), Some("Configuration successfully updated!"));
    let mut app = loaded_app();
    assert!(app.update(AppEvent::ConfigUpdated(Err("yaml".to_string()))).is_none());
    assert_eq!(app.error.as_deref(), Some("Failed to save config: yaml"));
}

#[test]
fn export_results() {
    let mut app = loaded_app();
    app.loading = true;
    assert!(app.update(AppEvent::ReportsExported(Ok("Saved 2 files".to_string()))).is_none());
    assert_eq!(app.info_msg.as_deref(), Some("Saved 2 files"));
    assert!(!app.loading);
    assert!(app.update(AppEvent::ReportsExported(Err("disk full".to_string()))).is_none());
    assert_eq!(app.error.as_deref(), Some("Export failed: disk full"));
}

#[test]
fn quit_keys() {
    let mut app = loaded_app();
    assert!(app.should_quit(&key(KeyCode::Char('q'))));
    let mut ctrl_c = key(KeyCode::Char('c'));
    ctrl_c.ctrl = true;
    assert!(app.should_quit(&ctrl_c));
    assert!(!app.should_quit(&key(KeyCode::Char('c'))));
    press(&mut app, KeyCode::Char('w'));
    assert!(!app.should_quit(&key(KeyCode::Char('q'))));
    assert!(app.should_quit(&ctrl_c));
}
