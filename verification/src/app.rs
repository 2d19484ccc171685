//! The dashboard's state and how it answers key presses and the results of background work.
//!
//! The dashboard is a state machine: [`App::update`] takes the current state and an event
//! and gives the next state and, where background work is due, the [`Action`] to run.

use vstd::prelude::*;
use vstd::string::*;
use crate::editor::{
    LineEditor, editor_lines, typed_lines, input_view, new_editor, editor_first_line, editor_input,
};
use crate::model::{
    Course, CourseView, Setting, course_categories, find_cell, find_columns, find_setting,
    edit_text, text_or_empty, texts_sorted, setting_keys, categories_from, columns_of,
    find_cell_index, edit_text_of, text_or_empty_of, setting_text, sort_texts,
};
use crate::text::{trimmed, trim, views};

verus! {

broadcast use vstd::seq_lib::group_to_multiset_ensures;

/// Which screen the dashboard shows.
#[derive(Clone, Copy, Debug, PartialEq, Eq, Structural)]
pub enum AppState {
    CourseSelect,
    Dashboard,
}

/// The key of a key press, as far as the dashboard tells keys apart.
#[derive(Clone, Copy, Debug, PartialEq, Eq, Structural)]
pub enum KeyCode {
    Char(char),
    Enter,
    Esc,
    Tab,
    BackTab,
    Up,
    Down,
    Left,
    Right,
    Other,
}

/// A key press: its key, whether Ctrl was held, and the same press as a text field reads it.
pub struct KeyPress {
    pub code: KeyCode,
    pub ctrl: bool,
    pub input: tui_textarea::Input,
}

/// Something that happened: a key press, a new terminal size, a timer tick, or the result
/// of background work.
pub enum AppEvent {
    Key(KeyPress),
    Resize(u16, u16),
    Tick,
    CoursesLoaded(Result<Vec<Course>, String>),
    CourseDataLoaded(Result<CourseView, String>),
    ScoreUpdated(Result<(), String>),
    ConfigUpdated(Result<(), String>),
    ReportsExported(Result<String, String>),
}

/// Which configuration values the settings editor holds.
#[derive(Clone, Copy, Debug, PartialEq, Eq, Structural)]
pub enum SettingsTarget {
    Weights,
    Boundaries,
}

/// Background work that the dashboard asks for.
pub enum Action {
    /// List the course directories.
    LoadCourses,
    /// Load a course's grades, as weighted percentages or raw scores.
    LoadCourseData { path: String, use_weighted: bool },
    /// Write one score of one student.
    UpdateScore { path: String, student_id: String, column: String, value: String },
    /// Tell which of the values in the settings editor ([`App::settings_values`]) are
    /// numbers, and hand the answer to [`App::save_config`].
    CheckSettings,
    /// Write new category weights or grade boundaries.
    UpdateConfig { path: String, target: SettingsTarget, entries: Vec<Setting> },
    /// Write the grade reports.
    ExportReports { path: String, use_weighted: bool },
}

/// The number of table rows that fit on screen.
pub const VISIBLE_ROWS: usize = 15;

/// The number of score columns that fit on screen in the raw details table.
pub const VISIBLE_SCORE_COLUMNS: usize = 5;

/// The number of columns that fit on screen in the summary table.
pub const VISIBLE_COLUMNS: usize = 6;

/// A status message goes away when the tick count reaches a multiple of this.
pub const INFO_MSG_TICKS: usize = 15;

/// The number of tabs of the dashboard.
pub const TAB_COUNT: usize = 4;

/// The state of the dashboard.
pub struct App {
    pub state: AppState,
    pub courses: Vec<Course>,
    pub course_index: usize,
    pub selected_course_path: String,
    pub course_data: Option<CourseView>,
    /// 0: summary, 1: raw details, 2: distribution, 3: rounding.
    pub active_tab: usize,
    pub use_weighted: bool,
    pub loading: bool,
    pub loading_msg: String,
    pub error: Option<String>,
    pub info_msg: Option<String>,
    pub width: u16,
    pub height: u16,
    pub cursor_row: usize,
    pub cursor_col: usize,
    pub scroll_row_offset: usize,
    pub scroll_col_offset: usize,
    pub editing: bool,
    pub edit_textarea: Option<LineEditor>,
    pub editing_student_id: String,
    pub editing_column: String,
    pub editing_original_value: String,
    pub editing_weights: bool,
    pub editing_boundaries: bool,
    pub settings_keys: Vec<String>,
    pub settings_textareas: Vec<LineEditor>,
    pub settings_index: usize,
    pub info_msg_ticks: usize,
    pub raw_selected_category: Option<String>,
    pub raw_selected_student: Option<usize>,
    pub raw_category_index: usize,
    pub raw_right_focused: bool,
}

// ---------------------------------------------------------------------------
// Specifications of the state changes
// ---------------------------------------------------------------------------

/// `"true"` or `"false"`.
pub open spec fn bool_text(b: bool) -> Seq<char> {
    if b {
        "true"@
    } else {
        "false"@
    }
}

/// The scroll offset that keeps row `cursor` among the rows on screen, moving as little
/// as it can from `offset`.
pub open spec fn row_offset_for(cursor: usize, offset: usize) -> usize {
    if cursor < offset {
        cursor
    } else if cursor >= offset + VISIBLE_ROWS {
        (cursor - VISIBLE_ROWS + 1) as usize
    } else {
        offset
    }
}

/// The column scroll offset that keeps column `cursor` on screen. In the raw details
/// table the two identity columns stay in place and only the score columns scroll.
pub open spec fn col_offset_for(tab: usize, cursor: usize, offset: usize) -> usize {
    if tab == 1 {
        if cursor < 2 {
            2
        } else if cursor < offset {
            cursor
        } else if cursor >= offset + VISIBLE_SCORE_COLUMNS {
            (cursor - VISIBLE_SCORE_COLUMNS + 1) as usize
        } else {
            offset
        }
    } else if cursor < offset {
        cursor
    } else if cursor >= offset + VISIBLE_COLUMNS {
        (cursor - VISIBLE_COLUMNS + 1) as usize
    } else {
        offset
    }
}

/// The text that a settings field holds, trimmed.
pub open spec fn field_value(ta: LineEditor) -> Seq<char> {
    trimmed(editor_lines(ta)[0])
}

/// The index of the first `false` in `p`, or its length.
pub open spec fn first_false(p: Seq<bool>) -> int
    decreases p.len(),
{
    if p.len() == 0 {
        0
    } else if !p[0] {
        0
    } else {
        1 + first_false(p.drop_first())
    }
}

impl App {
    /// The text fields are consistent: one per settings key, and each holds a line.
    pub open spec fn wf(&self) -> bool {
        &&& self.settings_keys.len() == self.settings_textareas.len()
        &&& forall|i: int|
            0 <= i < self.settings_textareas.len() ==> editor_lines(
                #[trigger] self.settings_textareas@[i],
            ).len() >= 1
        &&& self.edit_textarea matches Some(t) ==> editor_lines(t).len() >= 1
    }

    /// The number of rows of the table on the active tab.
    pub open spec fn table_rows(&self) -> usize {
        match self.course_data {
            Some(d) => if self.active_tab == 0 {
                d.student_grade_count
            } else if self.active_tab == 1 {
                d.raw_scores.len()
            } else if self.active_tab == 3 {
                d.improved_student_count
            } else {
                0
            },
            None => 0,
        }
    }

    /// The number of columns the cursor can reach on the active tab.
    pub open spec fn table_cols(&self) -> int {
        match self.course_data {
            Some(d) => if self.active_tab == 1 {
                match self.raw_selected_category {
                    Some(c) => find_columns(d.data_mapping@, c@).len() as int + 3,
                    None => 2int,
                }
            } else if self.active_tab == 0 {
                d.summary_columns.len() as int
            } else {
                0
            },
            None => 0,
        }
    }

    /// `self` with the row scroll offset adjusted to the cursor row.
    pub open spec fn row_scrolled(self) -> App {
        App { scroll_row_offset: row_offset_for(self.cursor_row, self.scroll_row_offset), ..self }
    }

    /// `self` with the column scroll offset adjusted to the cursor column.
    pub open spec fn col_scrolled(self) -> App {
        App {
            scroll_col_offset: col_offset_for(
                self.active_tab,
                self.cursor_col,
                self.scroll_col_offset,
            ),
            ..self
        }
    }

    /// `new` is `old` with the selected category brought in line with the category index:
    /// an index past the last category goes back to the first one.
    pub open spec fn synced(old: App, new: App) -> bool {
        let cats = course_categories(old.course_data);
        if cats.len() > 0 {
            let idx = if old.raw_category_index >= cats.len() {
                0
            } else {
                old.raw_category_index
            };
            &&& new == App {
                raw_category_index: idx,
                raw_selected_category: new.raw_selected_category,
                ..old
            }
            &&& new.raw_selected_category matches Some(c) && c@ == cats[idx as int]
        } else {
            new == App { raw_selected_category: None, ..old }
        }
    }

    /// `new` is `old` asking for the list of courses.
    pub open spec fn loading_courses(old: App, new: App) -> bool {
        &&& new == App { loading: true, loading_msg: new.loading_msg, error: None, ..old }
        &&& new.loading_msg@ == "Scanning directory for courses..."@
    }

    /// `new` and `act` are `old` asking for the selected course's data, if a course is
    /// selected.
    pub open spec fn loading_course_data(old: App, new: App, act: Option<Action>) -> bool {
        if old.selected_course_path@.len() == 0 {
            new == old && act is None
        } else {
            &&& new == App { loading: true, loading_msg: new.loading_msg, error: None, ..old }
            &&& new.loading_msg@ == "Loading course data (weighted: "@ + bool_text(
                old.use_weighted,
            ) + ")..."@
            &&& act matches Some(Action::LoadCourseData { path, use_weighted }) && path
                == old.selected_course_path && use_weighted == old.use_weighted
        }
    }

    /// `new` and `act` are `old` asking for the reports to be written, if a course is
    /// selected.
    pub open spec fn exporting(old: App, new: App, act: Option<Action>) -> bool {
        if old.selected_course_path@.len() == 0 {
            new == old && act is None
        } else {
            &&& new == App { loading: true, loading_msg: new.loading_msg, ..old }
            &&& new.loading_msg@ == "Exporting final grades & copy-friendly scores..."@
            &&& act matches Some(Action::ExportReports { path, use_weighted }) && path
                == old.selected_course_path && use_weighted == old.use_weighted
        }
    }

    /// `new` is `old` after the cursor moves up: in the course list, in the settings
    /// editor, through the categories when the category list has the focus, or up a row.
    pub open spec fn moved_up(old: App, new: App) -> bool {
        if old.state == AppState::CourseSelect {
            new == App {
                course_index: if old.course_index > 0 {
                    (old.course_index - 1) as usize
                } else {
                    old.course_index
                },
                ..old
            }
        } else if old.editing_weights || old.editing_boundaries {
            new == App {
                settings_index: if old.settings_index > 0 {
                    (old.settings_index - 1) as usize
                } else {
                    old.settings_index
                },
                ..old
            }
        } else if old.editing {
            new == old
        } else if old.active_tab == 1 && old.raw_selected_student is Some {
            new == old
        } else if old.active_tab == 1 && !old.raw_right_focused {
            if old.raw_category_index > 0 {
                Self::synced(
                    App { raw_category_index: (old.raw_category_index - 1) as usize, ..old },
                    new,
                )
            } else {
                new == old
            }
        } else if old.cursor_row > 0 {
            new == App { cursor_row: (old.cursor_row - 1) as usize, ..old }.row_scrolled()
        } else {
            new == old
        }
    }

    /// `new` is `old` after the cursor moves down, as far as the list or table reaches.
    pub open spec fn moved_down(old: App, new: App) -> bool {
        if old.state == AppState::CourseSelect {
            if old.course_index + 1 < old.courses.len() {
                new == App { course_index: (old.course_index + 1) as usize, ..old }
            } else {
                new == old
            }
        } else if old.editing_weights || old.editing_boundaries {
            if old.settings_index + 1 < old.settings_keys.len() {
                new == App { settings_index: (old.settings_index + 1) as usize, ..old }
            } else {
                new == old
            }
        } else if old.editing {
            new == old
        } else if old.active_tab == 1 && old.raw_selected_student is Some {
            new == old
        } else if old.active_tab == 1 && !old.raw_right_focused {
            if old.raw_category_index + 1 < course_categories(old.course_data).len() {
                Self::synced(
                    App { raw_category_index: (old.raw_category_index + 1) as usize, ..old },
                    new,
                )
            } else {
                new == old
            }
        } else if old.cursor_row + 1 < old.table_rows() {
            new == App { cursor_row: (old.cursor_row + 1) as usize, ..old }.row_scrolled()
        } else {
            new == old
        }
    }

    /// `new` is `old` after an attempt to open the score editor on the cell under the
    /// cursor. Only score cells of the raw details table can be edited; on the summary tab
    /// the attempt is answered with a hint.
    pub open spec fn cell_edit_started(old: App, new: App) -> bool {
        if old.editing || old.loading || old.course_data is None {
            new == old
        } else if old.active_tab == 0 {
            &&& new == App { info_msg: new.info_msg, info_msg_ticks: 0, ..old }
            &&& new.info_msg matches Some(m) && m@
                == "To edit scores, please switch to the 'Raw Details' tab"@
        } else if old.active_tab == 1 {
            let data = old.course_data->0;
            match old.raw_selected_category {
                None => new == old,
                Some(cat) => {
                    let cols = find_columns(data.data_mapping@, cat@);
                    if old.cursor_col < 2 || old.cursor_row >= data.raw_scores.len()
                        || old.cursor_col - 2 >= cols.len() {
                        new == old
                    } else {
                        let col = cols[old.cursor_col - 2];
                        let cells = data.raw_scores@[old.cursor_row as int].cells@;
                        match find_cell(cells, "Student ID"@) {
                            None => new == old,
                            Some(id) => {
                                &&& new == App {
                                    editing: true,
                                    editing_student_id: new.editing_student_id,
                                    editing_column: col,
                                    editing_original_value: new.editing_original_value,
                                    edit_textarea: new.edit_textarea,
                                    ..old
                                }
                                &&& new.editing_student_id@ == text_or_empty(id)
                                &&& new.editing_original_value@ == edit_text(
                                    find_cell(cells, col@),
                                )
                                &&& new.edit_textarea matches Some(t) && editor_lines(t)
                                    == seq![new.editing_original_value@]
                            },
                        }
                    }
                },
            }
        } else {
            new == old
        }
    }

    /// `new` is `old` with the settings editor open on the loaded course's category weights
    /// (`weights`) or grade boundaries: one field per name, the names in code-point order,
    /// each field holding the value's text.
    pub open spec fn settings_opened(old: App, new: App, weights: bool) -> bool {
        match old.course_data {
            None => new == old,
            Some(d) => {
                let source = if weights {
                    d.weights@
                } else {
                    d.grade_boundaries@
                };
                &&& new == App {
                    editing_weights: if weights {
                        true
                    } else {
                        old.editing_weights
                    },
                    editing_boundaries: if weights {
                        old.editing_boundaries
                    } else {
                        true
                    },
                    settings_index: 0,
                    settings_keys: new.settings_keys,
                    settings_textareas: new.settings_textareas,
                    ..old
                }
                &&& new.settings_keys@.to_multiset() == setting_keys(source).to_multiset()
                &&& texts_sorted(views(new.settings_keys@))
                &&& new.settings_textareas.len() == new.settings_keys.len()
                &&& forall|i: int|
                    0 <= i < new.settings_keys.len() ==> find_setting(
                        source,
                        (#[trigger] new.settings_keys@[i])@,
                    ) == Some(editor_lines(new.settings_textareas@[i])[0])
                        && editor_lines(new.settings_textareas@[i]).len() == 1
            },
        }
    }

    /// `new` and `act` are `old` after the score editor is confirmed: an unchanged value
    /// closes the editor; a changed one closes it and asks for the score to be written.
    pub open spec fn score_saved(old: App, new: App, act: Option<Action>) -> bool {
        match old.edit_textarea {
            None => new == old && act is None,
            Some(ta) => {
                let val = field_value(ta);
                if val == old.editing_original_value@ {
                    new == App { editing: false, edit_textarea: None, ..old } && act is None
                } else {
                    &&& new == App {
                        loading: true,
                        loading_msg: new.loading_msg,
                        editing: false,
                        edit_textarea: None,
                        ..old
                    }
                    &&& new.loading_msg@ == "Saving score to CSV: Student "@
                        + old.editing_student_id@ + "'s "@ + old.editing_column@ + " = "@ + val
                        + "..."@
                    &&& act matches Some(
                        Action::UpdateScore { path, student_id, column, value },
                    ) && path == old.selected_course_path && student_id
                        == old.editing_student_id && column == old.editing_column && value@
                        == val
                }
            },
        }
    }

    /// `new` and `act` are `old` after the settings editor is confirmed, where `parses`
    /// tells which field values are numbers. The first value that is not closes the editor
    /// with an error naming its field; otherwise the editor closes and the values are sent
    /// to be written.
    pub open spec fn config_saved(
        old: App,
        new: App,
        parses: Seq<bool>,
        act: Option<Action>,
    ) -> bool {
        let open = old.editing_weights || old.editing_boundaries;
        let bad = first_false(parses);
        if open && bad < parses.len() {
            &&& new == App {
                error: new.error,
                editing_weights: if old.editing_weights {
                    false
                } else {
                    old.editing_weights
                },
                editing_boundaries: if old.editing_weights {
                    old.editing_boundaries
                } else {
                    false
                },
                ..old
            }
            &&& new.error matches Some(e) && e@ == (if old.editing_weights {
                "Invalid weight float value for key '"@
            } else {
                "Invalid boundary float value for grade '"@
            }) + old.settings_keys@[bad]@ + "': "@ + field_value(old.settings_textareas@[bad])
            &&& act is None
        } else {
            &&& new == App {
                loading: true,
                loading_msg: new.loading_msg,
                editing_weights: false,
                editing_boundaries: false,
                ..old
            }
            &&& new.loading_msg@ == "Saving updated configuration..."@
            &&& act matches Some(Action::UpdateConfig { path, target, entries }) && path
                == old.selected_course_path && target == (if old.editing_weights {
                SettingsTarget::Weights
            } else {
                SettingsTarget::Boundaries
            }) && entries.len() == (if open {
                old.settings_keys.len()
            } else {
                0
            }) && forall|i: int|
                0 <= i < entries.len() ==> (#[trigger] entries@[i]).key
                    == old.settings_keys@[i] && entries@[i].text@ == field_value(
                    old.settings_textareas@[i],
                )
        }
    }

    /// `old` one timer tick later: the tick count goes up, wrapping around, and a status
    /// message goes away when the count reaches a multiple of [`INFO_MSG_TICKS`].
    pub open spec fn ticked(old: App) -> App {
        let t = old.info_msg_ticks.wrapping_add(1);
        App {
            info_msg_ticks: t,
            info_msg: if old.info_msg is Some && t % INFO_MSG_TICKS == 0 {
                None
            } else {
                old.info_msg
            },
            ..old
        }
    }

    /// `old` after the course list arrived, or failed to: a cursor past the new list goes
    /// back to its top.
    pub open spec fn courses_loaded(old: App, res: Result<Vec<Course>, String>) -> App {
        match res {
            Ok(list) => App {
                loading: false,
                courses: list,
                course_index: if old.course_index >= list.len() {
                    0
                } else {
                    old.course_index
                },
                ..old
            },
            Err(e) => App { loading: false, error: Some(e), ..old },
        }
    }

    /// `new` is `old` after a course's data arrived, or failed to: new data opens the
    /// dashboard at the top left of the first category.
    pub open spec fn data_loaded(old: App, new: App, res: Result<CourseView, String>) -> bool {
        match res {
            Ok(d) => Self::synced(
                App {
                    loading: false,
                    course_data: Some(d),
                    state: AppState::Dashboard,
                    cursor_row: 0,
                    cursor_col: 0,
                    scroll_row_offset: 0,
                    scroll_col_offset: 0,
                    raw_category_index: 0,
                    raw_right_focused: false,
                    raw_selected_student: None,
                    ..old
                },
                new,
            ),
            Err(e) => new == App { loading: false, error: Some(e), ..old },
        }
    }

    /// `new` and `act` are `old` after a write finished: success shows `done` and reloads
    /// the course; failure shows `failed` followed by the reason.
    pub open spec fn write_finished(
        old: App,
        new: App,
        res: Result<(), String>,
        act: Option<Action>,
        done: Seq<char>,
        failed: Seq<char>,
    ) -> bool {
        match res {
            Ok(_) => {
                &&& Self::loading_course_data(
                    App { loading: false, info_msg: new.info_msg, info_msg_ticks: 0, ..old },
                    new,
                    act,
                )
                &&& new.info_msg matches Some(m) && m@ == done
            },
            Err(e) => {
                &&& new == App { loading: false, error: new.error, ..old }
                &&& new.error matches Some(x) && x@ == failed + e@
                &&& act is None
            },
        }
    }

    /// `new` is `old` after the reports were written, or failed to be.
    pub open spec fn reports_exported(old: App, new: App, res: Result<String, String>) -> bool {
        match res {
            Ok(msg) => new == App { loading: false, info_msg: Some(msg), info_msg_ticks: 0, ..old },
            Err(e) => {
                &&& new == App { loading: false, error: new.error, ..old }
                &&& new.error matches Some(x) && x@ == "Export failed: "@ + e@
            },
        }
    }

    /// The tab after `t`, going round.
    pub open spec fn next_tab(t: usize) -> usize {
        ((t + 1) % (TAB_COUNT as int)) as usize
    }

    /// The tab before `t`, going round.
    pub open spec fn prev_tab(t: usize) -> usize {
        if t == 0 {
            (TAB_COUNT - 1) as usize
        } else {
            (t - 1) as usize
        }
    }

    /// `new` is `old` showing tab `tab`, with the cursor, the scrolling and the raw details
    /// selection back at their start.
    pub open spec fn tab_switched(old: App, new: App, tab: usize) -> bool {
        Self::synced(
            App {
                active_tab: tab,
                cursor_row: 0,
                cursor_col: 0,
                scroll_row_offset: 0,
                scroll_col_offset: 0,
                raw_selected_category: None,
                raw_selected_student: None,
                raw_category_index: 0,
                raw_right_focused: false,
                ..old
            },
            new,
        )
    }

    /// `new` and `act` are `old` after Esc on the dashboard: it steps back out of the
    /// raw details drill-down, or else returns to the course list and reloads it.
    pub open spec fn escaped(old: App, new: App, act: Option<Action>) -> bool {
        if old.state != AppState::Dashboard {
            new == old && act is None
        } else if old.active_tab == 1 && old.raw_selected_student is Some {
            new == App {
                raw_selected_student: None,
                cursor_col: 0,
                scroll_col_offset: 0,
                ..old
            } && act is None
        } else if old.active_tab == 1 && old.raw_right_focused {
            new == App { raw_right_focused: false, ..old } && act is None
        } else {
            Self::loading_courses(
                App { state: AppState::CourseSelect, course_data: None, ..old },
                new,
            ) && act matches Some(Action::LoadCourses)
        }
    }

    /// `new` and `act` are `old` after Enter outside the editors: it opens the selected
    /// course, moves the focus into the raw details table, or opens the score editor.
    pub open spec fn entered(old: App, new: App, act: Option<Action>) -> bool {
        if old.state == AppState::CourseSelect {
            if old.course_index < old.courses.len() {
                Self::loading_course_data(
                    App {
                        selected_course_path: old.courses@[old.course_index as int].path,
                        ..old
                    },
                    new,
                    act,
                )
            } else {
                new == old && act is None
            }
        } else if old.active_tab == 1 {
            if old.raw_selected_student is Some {
                Self::cell_edit_started(old, new) && act is None
            } else if old.raw_right_focused {
                if old.cursor_col >= 2 {
                    Self::cell_edit_started(old, new) && act is None
                } else {
                    new == old && act is None
                }
            } else {
                new == App { raw_right_focused: true, cursor_col: 0, cursor_row: 0, ..old }
                    && act is None
            }
        } else {
            Self::cell_edit_started(old, new) && act is None
        }
    }

    /// `new` and `act` are `old` after a key press outside the editors.
    pub open spec fn navigated(old: App, code: KeyCode, new: App, act: Option<Action>) -> bool {
        let on_dashboard = old.state == AppState::Dashboard;
        match code {
            KeyCode::Char(c) => if c == 'c' || c == 'C' {
                if on_dashboard {
                    Self::loading_course_data(
                        App { use_weighted: !old.use_weighted, ..old },
                        new,
                        act,
                    )
                } else {
                    new == old && act is None
                }
            } else if c == 'e' || c == 'E' {
                if on_dashboard {
                    Self::exporting(old, new, act)
                } else {
                    new == old && act is None
                }
            } else if c == 'w' || c == 'W' {
                if on_dashboard {
                    Self::settings_opened(old, new, true) && act is None
                } else {
                    new == old && act is None
                }
            } else if c == 'b' || c == 'B' {
                if on_dashboard {
                    Self::settings_opened(old, new, false) && act is None
                } else {
                    new == old && act is None
                }
            } else if c == 'k' {
                Self::moved_up(old, new) && act is None
            } else if c == 'j' {
                Self::moved_down(old, new) && act is None
            } else if c == 'h' {
                new == Self::moved_left(old) && act is None
            } else if c == 'l' {
                new == Self::moved_right(old) && act is None
            } else {
                new == old && act is None
            },
            KeyCode::Tab => act is None && if on_dashboard {
                Self::tab_switched(old, new, Self::next_tab(old.active_tab))
            } else {
                new == old
            },
            KeyCode::BackTab => act is None && if on_dashboard {
                Self::tab_switched(old, new, Self::prev_tab(old.active_tab))
            } else {
                new == old
            },
            KeyCode::Up => Self::moved_up(old, new) && act is None,
            KeyCode::Down => Self::moved_down(old, new) && act is None,
            KeyCode::Left => new == Self::moved_left(old) && act is None,
            KeyCode::Right => new == Self::moved_right(old) && act is None,
            KeyCode::Esc => Self::escaped(old, new, act),
            KeyCode::Enter => Self::entered(old, new, act),
            KeyCode::Other => new == old && act is None,
        }
    }

    /// `new` and `act` are `old` after a key press. An open score editor takes every key:
    /// Enter confirms, Esc cancels, and any other key edits its text. An open settings
    /// editor takes every key: Esc cancels, Enter asks for the values to be checked, the
    /// arrows move between fields, and any other key edits the current field. Otherwise
    /// the key navigates.
    pub open spec fn key_handled(old: App, key: KeyPress, new: App, act: Option<Action>) -> bool {
        if old.editing {
            match old.edit_textarea {
                None => new == old && act is None,
                Some(_) => match key.code {
                    KeyCode::Enter => Self::score_saved(old, new, act),
                    KeyCode::Esc => new == App { editing: false, edit_textarea: None, ..old }
                        && act is None,
                    _ => new.edit_textarea matches Some(t) && new == App {
                        edit_textarea: new.edit_textarea,
                        ..old
                    } && editor_lines(t) == typed_lines(old.edit_textarea->0, input_view(key.input))
                        && act is None,
                },
            }
        } else if old.editing_weights || old.editing_boundaries {
            match key.code {
                KeyCode::Esc => new == App {
                    editing_weights: false,
                    editing_boundaries: false,
                    ..old
                } && act is None,
                KeyCode::Enter => new == old && act matches Some(Action::CheckSettings),
                KeyCode::Up => Self::moved_up(old, new) && act is None,
                KeyCode::Down => Self::moved_down(old, new) && act is None,
                _ => act is None && if old.settings_index < old.settings_textareas.len() {
                    &&& new == App { settings_textareas: new.settings_textareas, ..old }
                    &&& new.settings_textareas.len() == old.settings_textareas.len()
                    &&& editor_lines(new.settings_textareas@[old.settings_index as int])
                        == typed_lines(
                        old.settings_textareas@[old.settings_index as int],
                        input_view(key.input),
                    )
                    &&& forall|j: int|
                        0 <= j < old.settings_textareas.len() && j != old.settings_index
                            ==> new.settings_textareas@[j] == old.settings_textareas@[j]
                } else {
                    new == old
                },
            }
        } else {
            Self::navigated(old, key.code, new, act)
        }
    }

    /// `new` and `act` are `old` after `event`; see [`App::update`].
    pub open spec fn updated(old: App, event: AppEvent, new: App, act: Option<Action>) -> bool {
        match event {
            AppEvent::Tick => new == Self::ticked(old) && act is None,
            AppEvent::Resize(w, h) => new == App { width: w, height: h, ..old } && act is None,
            AppEvent::CoursesLoaded(res) => new == Self::courses_loaded(old, res) && act is None,
            AppEvent::CourseDataLoaded(res) => Self::data_loaded(old, new, res) && act is None,
            AppEvent::ScoreUpdated(res) => Self::write_finished(
                old,
                new,
                res,
                act,
                "Score successfully saved and database updated!"@,
                "Failed to update score: "@,
            ),
            AppEvent::ConfigUpdated(res) => Self::write_finished(
                old,
                new,
                res,
                act,
                "Configuration successfully updated!"@,
                "Failed to save config: "@,
            ),
            AppEvent::ReportsExported(res) => Self::reports_exported(old, new, res) && act is None,
            AppEvent::Key(key) => Self::key_handled(old, key, new, act),
        }
    }

    /// Whether the dashboard takes navigation keys: it shows a course and no editor is open.
    pub open spec fn navigating(self) -> bool {
        self.state == AppState::Dashboard && !self.editing && !self.editing_weights
            && !self.editing_boundaries
    }

    /// `old` after the cursor moves left; from the first column of the raw details table
    /// the focus goes back to the category list.
    pub open spec fn moved_left(old: App) -> App {
        if old.navigating() {
            if old.active_tab == 1 {
                if old.raw_right_focused {
                    if old.cursor_col > 0 {
                        App { cursor_col: (old.cursor_col - 1) as usize, ..old }.col_scrolled()
                    } else {
                        App { raw_right_focused: false, ..old }
                    }
                } else {
                    old
                }
            } else if old.cursor_col > 0 {
                App { cursor_col: (old.cursor_col - 1) as usize, ..old }.col_scrolled()
            } else {
                old
            }
        } else {
            old
        }
    }

    /// `old` after the cursor moves right; from the category list the focus goes to the
    /// raw details table.
    pub open spec fn moved_right(old: App) -> App {
        if old.navigating() {
            if old.active_tab == 1 && !old.raw_right_focused {
                App { raw_right_focused: true, cursor_col: 0, ..old }
            } else if old.cursor_col + 1 < old.table_cols() && old.cursor_col < usize::MAX {
                App { cursor_col: (old.cursor_col + 1) as usize, ..old }.col_scrolled()
            } else {
                old
            }
        } else {
            old
        }
    }
}

// ---------------------------------------------------------------------------
// Executable functions
// ---------------------------------------------------------------------------

impl App {
    /// The state at start: the course list, empty, with nothing loaded.
    pub fn new() -> (app: App)
        ensures
            app.wf(),
            app.state == AppState::CourseSelect,
            app.courses@.len() == 0,
            app.course_index == 0,
            app.selected_course_path@.len() == 0,
            app.course_data is None,
            app.active_tab == 0,
            app.use_weighted,
            !app.loading,
            app.loading_msg@.len() == 0,
            app.error is None,
            app.info_msg is None,
            app.width == 80,
            app.height == 24,
            app.cursor_row == 0,
            app.cursor_col == 0,
            app.scroll_row_offset == 0,
            app.scroll_col_offset == 0,
            !app.editing,
            app.edit_textarea is None,
            app.editing_student_id@.len() == 0,
            app.editing_column@.len() == 0,
            app.editing_original_value@.len() == 0,
            !app.editing_weights,
            !app.editing_boundaries,
            app.settings_keys@.len() == 0,
            app.settings_textareas@.len() == 0,
            app.settings_index == 0,
            app.info_msg_ticks == 0,
            app.raw_selected_category is None,
            app.raw_selected_student is None,
            app.raw_category_index == 0,
            !app.raw_right_focused,
    {
        App {
            state: AppState::CourseSelect,
            courses: Vec::new(),
            course_index: 0,
            selected_course_path: String::new(),
            course_data: None,
            active_tab: 0,
            use_weighted: true,
            loading: false,
            loading_msg: String::new(),
            error: None,
            info_msg: None,
            width: 80,
            height: 24,
            cursor_row: 0,
            cursor_col: 0,
            scroll_row_offset: 0,
            scroll_col_offset: 0,
            editing: false,
            edit_textarea: None,
            editing_student_id: String::new(),
            editing_column: String::new(),
            editing_original_value: String::new(),
            editing_weights: false,
            editing_boundaries: false,
            settings_keys: Vec::new(),
            settings_textareas: Vec::new(),
            settings_index: 0,
            info_msg_ticks: 0,
            raw_selected_category: None,
            raw_selected_student: None,
            raw_category_index: 0,
            raw_right_focused: false,
        }
    }

    /// The grading categories of the loaded course: the summary columns that end in
    /// `_pct`, in order, without that suffix. None when no course is loaded.
    pub fn get_categories(&self) -> (r: Vec<String>)
        ensures
            views(r@) == course_categories(self.course_data),
    {
        match &self.course_data {
            Some(d) => categories_from(&d.summary_columns),
            None => Vec::new(),
        }
    }

    /// Selects the category at the category index, going back to the first category when
    /// the index is past the last one; selects none when there are no categories.
    pub fn sync_raw_category(&mut self)
        ensures
            Self::synced(*old(self), *final(self)),
    {
        let cats = self.get_categories();
        if cats.len() > 0 {
            if self.raw_category_index >= cats.len() {
                self.raw_category_index = 0;
            }
            assert(cats@[self.raw_category_index as int]@ == views(
                cats@,
            )[self.raw_category_index as int]);
            self.raw_selected_category = Some(cats[self.raw_category_index].clone());
        } else {
            self.raw_selected_category = None;
        }
    }

    /// Asks for the list of courses.
    pub fn load_courses(&mut self) -> (act: Action)
        ensures
            Self::loading_courses(*old(self), *final(self)),
            act is LoadCourses,
    {
        self.loading = true;
        self.loading_msg = String::from_str("Scanning directory for courses...");
        self.error = None;
        Action::LoadCourses
    }

    /// Asks for the selected course's data, if a course is selected.
    pub fn load_course_data(&mut self) -> (act: Option<Action>)
        ensures
            Self::loading_course_data(*old(self), *final(self), act),
    {
        if self.selected_course_path.as_str().is_empty() {
            return None;
        }
        self.loading = true;
        let mut msg = String::from_str("Loading course data (weighted: ");
        if self.use_weighted {
            msg.append("true");
        } else {
            msg.append("false");
        }
        msg.append(")...");
        self.loading_msg = msg;
        self.error = None;
        Some(
            Action::LoadCourseData {
                path: self.selected_course_path.clone(),
                use_weighted: self.use_weighted,
            },
        )
    }

    /// Asks for the grade reports to be written, if a course is selected.
    pub fn export_reports(&mut self) -> (act: Option<Action>)
        ensures
            Self::exporting(*old(self), *final(self), act),
    {
        if self.selected_course_path.as_str().is_empty() {
            return None;
        }
        self.loading = true;
        self.loading_msg = String::from_str("Exporting final grades & copy-friendly scores...");
        Some(
            Action::ExportReports {
                path: self.selected_course_path.clone(),
                use_weighted: self.use_weighted,
            },
        )
    }

    /// Moves the cursor up: in the course list, in the settings editor, through the
    /// categories when the category list has the focus, or up a table row.
    pub fn move_up(&mut self)
        ensures
            Self::moved_up(*old(self), *final(self)),
    {
        if self.state == AppState::CourseSelect {
            if self.course_index > 0 {
                self.course_index = self.course_index - 1;
            }
        } else if self.editing_weights || self.editing_boundaries {
            if self.settings_index > 0 {
                self.settings_index = self.settings_index - 1;
            }
        } else if !self.editing {
            if self.active_tab == 1 && self.raw_selected_student.is_some() {
                return;
            }
            if self.active_tab == 1 && !self.raw_right_focused {
                if self.raw_category_index > 0 {
                    self.raw_category_index = self.raw_category_index - 1;
                    self.sync_raw_category();
                }
                return;
            }
            if self.cursor_row > 0 {
                self.cursor_row = self.cursor_row - 1;
                self.adjust_scroll_row();
            }
        }
    }

    /// The number of rows of the table on the active tab.
    fn max_rows(&self) -> (r: usize)
        ensures
            r == self.table_rows(),
    {
        match &self.course_data {
            Some(data) => {
                if self.active_tab == 0 {
                    data.student_grade_count
                } else if self.active_tab == 1 {
                    data.raw_scores.len()
                } else if self.active_tab == 3 {
                    data.improved_student_count
                } else {
                    0
                }
            },
            None => 0,
        }
    }

    /// Moves the cursor down, as far as the list or table reaches.
    pub fn move_down(&mut self)
        ensures
            Self::moved_down(*old(self), *final(self)),
    {
        if self.state == AppState::CourseSelect {
            if self.courses.len() > 0 && self.course_index < self.courses.len() - 1 {
                self.course_index = self.course_index + 1;
            }
        } else if self.editing_weights || self.editing_boundaries {
            if self.settings_keys.len() > 0 && self.settings_index < self.settings_keys.len() - 1 {
                self.settings_index = self.settings_index + 1;
            }
        } else if !self.editing {
            if self.active_tab == 1 && self.raw_selected_student.is_some() {
                return;
            }
            if self.active_tab == 1 && !self.raw_right_focused {
                let cats_len = self.get_categories().len();
                if cats_len > 0 && self.raw_category_index < cats_len - 1 {
                    self.raw_category_index = self.raw_category_index + 1;
                    self.sync_raw_category();
                }
                return;
            }
            let max_rows = self.max_rows();
            if max_rows > 0 && self.cursor_row < max_rows - 1 {
                self.cursor_row = self.cursor_row + 1;
                self.adjust_scroll_row();
            }
        }
    }

    /// Moves the cursor left; from the first column of the raw details table the focus
    /// goes back to the category list.
    pub fn move_left(&mut self)
        ensures
            *final(self) == Self::moved_left(*old(self)),
    {
        if self.state == AppState::Dashboard && !self.editing && !self.editing_weights
            && !self.editing_boundaries {
            if self.active_tab == 1 {
                if self.raw_right_focused {
                    if self.cursor_col > 0 {
                        self.cursor_col = self.cursor_col - 1;
                        self.adjust_scroll_col();
                    } else {
                        self.raw_right_focused = false;
                    }
                }
                return;
            }
            if self.cursor_col > 0 {
                self.cursor_col = self.cursor_col - 1;
                self.adjust_scroll_col();
            }
        }
    }

    /// Moves the cursor right; from the category list the focus goes to the raw details
    /// table, and in a table the cursor stops at the last column.
    pub fn move_right(&mut self)
        ensures
            *final(self) == Self::moved_right(*old(self)),
    {
        if self.state == AppState::Dashboard && !self.editing && !self.editing_weights
            && !self.editing_boundaries {
            if self.active_tab == 1 {
                if !self.raw_right_focused {
                    self.raw_right_focused = true;
                    self.cursor_col = 0;
                } else {
                    let can_move = match &self.course_data {
                        Some(data) => match &self.raw_selected_category {
                            Some(cat) => {
                                let n = columns_of(&data.data_mapping, cat).len();
                                self.cursor_col < 2 || self.cursor_col - 2 < n
                            },
                            None => self.cursor_col < 1,
                        },
                        None => false,
                    };
                    if can_move && self.cursor_col < usize::MAX {
                        self.cursor_col = self.cursor_col + 1;
                        self.adjust_scroll_col();
                    }
                }
                return;
            }
            let max_cols = match &self.course_data {
                Some(data) => {
                    if self.active_tab == 0 {
                        data.summary_columns.len()
                    } else {
                        0
                    }
                },
                None => 0,
            };
            if max_cols > 0 && self.cursor_col < max_cols - 1 {
                self.cursor_col = self.cursor_col + 1;
                self.adjust_scroll_col();
            }
        }
    }

    /// Opens the score editor on the cell under the cursor. Only the score cells of the
    /// raw details table can be edited; on the summary tab a hint says so.
    pub fn start_editing_cell(&mut self)
        requires
            old(self).wf(),
        ensures
            Self::cell_edit_started(*old(self), *final(self)),
            final(self).wf(),
    {
        if self.editing || self.loading {
            return;
        }
        if self.course_data.is_none() {
            return;
        }
        if self.active_tab == 0 {
            self.info_msg = Some(
                String::from_str("To edit scores, please switch to the 'Raw Details' tab"),
            );
            self.info_msg_ticks = 0;
            return;
        }
        if self.active_tab == 1 {
            let (student_id, col_name, raw_val) = match (&self.course_data, &self.raw_selected_category) {
                (Some(data), Some(cat)) => {
                    if self.cursor_col < 2 {
                        return;
                    }
                    if self.cursor_row >= data.raw_scores.len() {
                        return;
                    }
                    let sub_cols = columns_of(&data.data_mapping, cat);
                    let sub_idx = self.cursor_col - 2;
                    if sub_idx >= sub_cols.len() {
                        return;
                    }
                    let col_name = sub_cols[sub_idx].clone();
                    let row = &data.raw_scores[self.cursor_row];
                    let id_key = String::from_str("Student ID");
                    let student_id = match find_cell_index(&row.cells, &id_key) {
                        Some(k) => text_or_empty_of(&row.cells[k].value),
                        None => {
                            return;
                        },
                    };
                    let raw_val = match find_cell_index(&row.cells, &col_name) {
                        Some(k) => edit_text_of(&row.cells[k].value),
                        None => String::new(),
                    };
                    (student_id, col_name, raw_val)
                },
                _ => {
                    return;
                },
            };
            let ta = new_editor(raw_val.clone());
            self.editing = true;
            self.editing_student_id = student_id;
            self.editing_column = col_name;
            self.editing_original_value = raw_val;
            self.edit_textarea = Some(ta);
        }
    }

    /// One text field per setting, in code-point order of the names, each holding the
    /// setting's text.
    fn settings_fields(source: &Vec<Setting>) -> (r: (Vec<String>, Vec<LineEditor>))
        ensures
            r.0@.to_multiset() == setting_keys(source@).to_multiset(),
            texts_sorted(views(r.0@)),
            r.1.len() == r.0.len(),
            forall|i: int| 0 <= i < r.1.len() ==> editor_lines(#[trigger] r.1@[i]).len() == 1,
            forall|i: int|
                0 <= i < r.0.len() ==> find_setting(source@, (#[trigger] r.0@[i])@) == Some(
                    editor_lines(r.1@[i])[0],
                ) && editor_lines(r.1@[i]).len() == 1,
    {
        let mut names: Vec<String> = Vec::new();
        let mut i: usize = 0;
        while i < source.len()
            invariant
                i <= source.len(),
                names@ == setting_keys(source@).subrange(0, i as int),
            decreases source.len() - i,
        {
            names.push(source[i].key.clone());
            assert(names@ =~= setting_keys(source@).subrange(0, i + 1));
            i = i + 1;
        }
        assert(names@ =~= setting_keys(source@));
        let keys = sort_texts(&names);
        let mut fields: Vec<LineEditor> = Vec::new();
        let mut k: usize = 0;
        while k < keys.len()
            invariant
                k <= keys.len(),
                fields.len() == k,
                forall|t: int| 0 <= t < k ==> editor_lines(#[trigger] fields@[t]).len() == 1,
                keys@.to_multiset() == setting_keys(source@).to_multiset(),
                forall|t: int|
                    0 <= t < k ==> find_setting(source@, (#[trigger] keys@[t])@) == Some(
                        editor_lines(fields@[t])[0],
                    ) && editor_lines(fields@[t]).len() == 1,
            decreases keys.len() - k,
        {
            proof {
                let key = keys@[k as int];
                assert(keys@.to_multiset().count(key) > 0);
                assert(setting_keys(source@).contains(key));
                let j = choose|j: int|
                    0 <= j < setting_keys(source@).len() && setting_keys(source@)[j] == key;
                assert(source@[j].key@ == key@);
            }
            let text = setting_text(source, &keys[k]);
            fields.push(new_editor(text));
            k = k + 1;
        }
        (keys, fields)
    }

    /// Opens the settings editor on the category weights of the loaded course.
    pub fn start_editing_weights(&mut self)
        requires
            old(self).wf(),
        ensures
            Self::settings_opened(*old(self), *final(self), true),
            final(self).wf(),
    {
        let (keys, fields) = match &self.course_data {
            Some(data) => Self::settings_fields(&data.weights),
            None => {
                return;
            },
        };
        self.editing_weights = true;
        self.settings_index = 0;
        self.settings_keys = keys;
        self.settings_textareas = fields;
    }

    /// Opens the settings editor on the grade boundaries of the loaded course.
    pub fn start_editing_boundaries(&mut self)
        requires
            old(self).wf(),
        ensures
            Self::settings_opened(*old(self), *final(self), false),
            final(self).wf(),
    {
        let (keys, fields) = match &self.course_data {
            Some(data) => Self::settings_fields(&data.grade_boundaries),
            None => {
                return;
            },
        };
        self.editing_boundaries = true;
        self.settings_index = 0;
        self.settings_keys = keys;
        self.settings_textareas = fields;
    }

    /// Closes the score editor; if its value differs from the one it opened with, asks for
    /// the new value to be written.
    pub fn save_edited_score(&mut self) -> (act: Option<Action>)
        requires
            old(self).wf(),
        ensures
            Self::score_saved(*old(self), *final(self), act),
            final(self).wf(),
    {
        let val = match &self.edit_textarea {
            Some(ta) => {
                let line = editor_first_line(ta);
                trim(line.as_str())
            },
            None => {
                return None;
            },
        };
        if val == self.editing_original_value {
            self.editing = false;
            self.edit_textarea = None;
            return None;
        }
        self.loading = true;
        let mut msg = String::from_str("Saving score to CSV: Student ");
        msg.append(self.editing_student_id.as_str());
        msg.append("'s ");
        msg.append(self.editing_column.as_str());
        msg.append(" = ");
        msg.append(val.as_str());
        msg.append("...");
        self.loading_msg = msg;
        self.editing = false;
        self.edit_textarea = None;
        Some(
            Action::UpdateScore {
                path: self.selected_course_path.clone(),
                student_id: self.editing_student_id.clone(),
                column: self.editing_column.clone(),
                value: val,
            },
        )
    }

    /// The values in the settings editor's fields, trimmed, in field order.
    pub fn settings_values(&self) -> (r: Vec<String>)
        requires
            self.wf(),
        ensures
            r.len() == self.settings_textareas.len(),
            forall|i: int|
                0 <= i < r.len() ==> (#[trigger] r@[i])@ == field_value(
                    self.settings_textareas@[i],
                ),
    {
        let mut res: Vec<String> = Vec::new();
        let mut i: usize = 0;
        while i < self.settings_textareas.len()
            invariant
                self.wf(),
                i <= self.settings_textareas.len(),
                res.len() == i,
                forall|t: int|
                    0 <= t < i ==> (#[trigger] res@[t])@ == field_value(
                        self.settings_textareas@[t],
                    ),
            decreases self.settings_textareas.len() - i,
        {
            let line = editor_first_line(&self.settings_textareas[i]);
            res.push(trim(line.as_str()));
            i = i + 1;
        }
        res
    }

    /// Closes the settings editor. `parses` tells, field by field, whether the value is a
    /// number. The first value that is not sets an error naming its field; otherwise the
    /// values are sent to be written.
    pub fn save_config(&mut self, parses: &Vec<bool>) -> (act: Option<Action>)
        requires
            old(self).wf(),
            parses.len() == old(self).settings_keys.len(),
        ensures
            Self::config_saved(*old(self), *final(self), parses@, act),
            final(self).wf(),
    {
        let open = self.editing_weights || self.editing_boundaries;
        let mut entries: Vec<Setting> = Vec::new();
        if open {
            let values = self.settings_values();
            let mut i: usize = 0;
            assert(parses@.skip(0) =~= parses@);
            while i < self.settings_keys.len()
                invariant
                    *self == *old(self),
                    self.editing_weights || self.editing_boundaries,
                    self.wf(),
                    i <= self.settings_keys.len(),
                    parses.len() == self.settings_keys.len(),
                    values.len() == self.settings_keys.len(),
                    forall|t: int|
                        0 <= t < values.len() ==> (#[trigger] values@[t])@ == field_value(
                            self.settings_textareas@[t],
                        ),
                    first_false(parses@) == i + first_false(parses@.skip(i as int)),
                    entries.len() == i,
                    forall|t: int|
                        0 <= t < i ==> (#[trigger] entries@[t]).key == self.settings_keys@[t]
                            && entries@[t].text@ == field_value(self.settings_textareas@[t]),
                decreases self.settings_keys.len() - i,
            {
                if !parses[i] {
                    assert(parses@.skip(i as int)[0] == parses@[i as int]);
                    assert(first_false(parses@) == i);
                    let mut msg = if self.editing_weights {
                        String::from_str("Invalid weight float value for key '")
                    } else {
                        String::from_str("Invalid boundary float value for grade '")
                    };
                    msg.append(self.settings_keys[i].as_str());
                    msg.append("': ");
                    msg.append(values[i].as_str());
                    self.error = Some(msg);
                    if self.editing_weights {
                        self.editing_weights = false;
                    } else {
                        self.editing_boundaries = false;
                    }
                    return None;
                }
                assert(parses@.skip(i as int).drop_first() =~= parses@.skip(i + 1));
                entries.push(
                    Setting { key: self.settings_keys[i].clone(), text: values[i].clone() },
                );
                i = i + 1;
            }
            assert(parses@.skip(i as int) =~= Seq::<bool>::empty());
        }
        self.loading = true;
        self.loading_msg = String::from_str("Saving updated configuration...");
        let editing_w = self.editing_weights;
        self.editing_weights = false;
        self.editing_boundaries = false;
        Some(
            Action::UpdateConfig {
                path: self.selected_course_path.clone(),
                target: if editing_w {
                    SettingsTarget::Weights
                } else {
                    SettingsTarget::Boundaries
                },
                entries,
            },
        )
    }

    /// Whether the program should end on this key press: `q` outside the editors, or
    /// Ctrl+C anywhere.
    pub fn should_quit(&self, key: &KeyPress) -> (r: bool)
        ensures
            r == ((key.code == KeyCode::Char('q') && !self.editing && !self.editing_weights
                && !self.editing_boundaries) || (key.code == KeyCode::Char('c') && key.ctrl)),
    {
        (key.code == KeyCode::Char('q') && !self.editing && !self.editing_weights
            && !self.editing_boundaries) || (key.code == KeyCode::Char('c') && key.ctrl)
    }

    /// Shows tab `tab` with the cursor, the scrolling and the raw details selection back at
    /// their start.
    fn switch_tab(&mut self, tab: usize)
        ensures
            Self::tab_switched(*old(self), *final(self), tab),
    {
        self.active_tab = tab;
        self.cursor_row = 0;
        self.cursor_col = 0;
        self.scroll_row_offset = 0;
        self.scroll_col_offset = 0;
        self.raw_selected_category = None;
        self.raw_selected_student = None;
        self.raw_category_index = 0;
        self.raw_right_focused = false;
        self.sync_raw_category();
    }

    /// Esc on the dashboard: steps back out of the raw details drill-down, or else returns
    /// to the course list.
    fn on_escape(&mut self) -> (act: Option<Action>)
        ensures
            Self::escaped(*old(self), *final(self), act),
    {
        if self.state != AppState::Dashboard {
            return None;
        }
        if self.active_tab == 1 {
            if self.raw_selected_student.is_some() {
                self.raw_selected_student = None;
                self.cursor_col = 0;
                self.scroll_col_offset = 0;
                return None;
            } else if self.raw_right_focused {
                self.raw_right_focused = false;
                return None;
            }
        }
        self.state = AppState::CourseSelect;
        self.course_data = None;
        Some(self.load_courses())
    }

    /// Enter outside the editors: opens the selected course, moves the focus into the raw
    /// details table, or opens the score editor.
    fn on_enter(&mut self) -> (act: Option<Action>)
        requires
            old(self).wf(),
        ensures
            Self::entered(*old(self), *final(self), act),
            final(self).wf(),
    {
        if self.state == AppState::CourseSelect {
            if self.course_index < self.courses.len() {
                self.selected_course_path = self.courses[self.course_index].path.clone();
                return self.load_course_data();
            }
            return None;
        }
        if self.active_tab == 1 {
            if self.raw_selected_student.is_some() {
                self.start_editing_cell();
            } else if self.raw_right_focused {
                if self.cursor_col >= 2 {
                    self.start_editing_cell();
                }
            } else {
                self.raw_right_focused = true;
                self.cursor_col = 0;
                self.cursor_row = 0;
            }
        } else {
            self.start_editing_cell();
        }
        None
    }

    /// A key press outside the editors.
    fn on_navigation_key(&mut self, code: KeyCode) -> (act: Option<Action>)
        requires
            old(self).wf(),
        ensures
            Self::navigated(*old(self), code, *final(self), act),
            final(self).wf(),
    {
        let on_dashboard = self.state == AppState::Dashboard;
        match code {
            KeyCode::Char(c) => {
                if c == 'q' {
                    None
                } else if c == 'c' || c == 'C' {
                    if on_dashboard {
                        self.use_weighted = !self.use_weighted;
                        self.load_course_data()
                    } else {
                        None
                    }
                } else if c == 'e' || c == 'E' {
                    if on_dashboard {
                        self.export_reports()
                    } else {
                        None
                    }
                } else if c == 'w' || c == 'W' {
                    if on_dashboard {
                        self.start_editing_weights();
                    }
                    None
                } else if c == 'b' || c == 'B' {
                    if on_dashboard {
                        self.start_editing_boundaries();
                    }
                    None
                } else if c == 'k' {
                    self.move_up();
                    None
                } else if c == 'j' {
                    self.move_down();
                    None
                } else if c == 'h' {
                    self.move_left();
                    None
                } else if c == 'l' {
                    self.move_right();
                    None
                } else {
                    None
                }
            },
            KeyCode::Tab => {
                if on_dashboard {
                    let next = (self.active_tab % TAB_COUNT + 1) % TAB_COUNT;
                    assert(next == Self::next_tab(self.active_tab)) by (nonlinear_arith)
                        requires
                            next == (self.active_tab % 4 + 1) % 4,
                            TAB_COUNT == 4,
                    ;
                    self.switch_tab(next);
                }
                None
            },
            KeyCode::BackTab => {
                if on_dashboard {
                    let prev = if self.active_tab == 0 {
                        TAB_COUNT - 1
                    } else {
                        self.active_tab - 1
                    };
                    self.switch_tab(prev);
                }
                None
            },
            KeyCode::Up => {
                self.move_up();
                None
            },
            KeyCode::Down => {
                self.move_down();
                None
            },
            KeyCode::Left => {
                self.move_left();
                None
            },
            KeyCode::Right => {
                self.move_right();
                None
            },
            KeyCode::Esc => self.on_escape(),
            KeyCode::Enter => self.on_enter(),
            KeyCode::Other => None,
        }
    }

    /// A key press while the settings editor is open.
    fn on_settings_key(&mut self, key: KeyPress) -> (act: Option<Action>)
        requires
            old(self).wf(),
            !old(self).editing,
            old(self).editing_weights || old(self).editing_boundaries,
        ensures
            Self::key_handled(*old(self), key, *final(self), act),
            final(self).wf(),
    {
        match key.code {
            KeyCode::Esc => {
                self.editing_weights = false;
                self.editing_boundaries = false;
                None
            },
            KeyCode::Enter => Some(Action::CheckSettings),
            KeyCode::Up => {
                self.move_up();
                None
            },
            KeyCode::Down => {
                self.move_down();
                None
            },
            _ => {
                let idx = self.settings_index;
                if idx < self.settings_textareas.len() {
                    editor_input(&mut self.settings_textareas[idx], key.input);
                }
                None
            },
        }
    }

    /// A key press while the score editor is open.
    fn on_editing_key(&mut self, key: KeyPress) -> (act: Option<Action>)
        requires
            old(self).wf(),
            old(self).editing,
        ensures
            Self::key_handled(*old(self), key, *final(self), act),
            final(self).wf(),
    {
        if self.edit_textarea.is_none() {
            return None;
        }
        match key.code {
            KeyCode::Enter => self.save_edited_score(),
            KeyCode::Esc => {
                self.editing = false;
                self.edit_textarea = None;
                None
            },
            _ => {
                match &mut self.edit_textarea {
                    Some(ta) => editor_input(ta, key.input),
                    None => {},
                }
                None
            },
        }
    }

    /// Takes one event and gives the next state and, where background work is due, the
    /// action to run:
    /// - a tick counts towards the timeout of the status message;
    /// - a resize records the terminal size;
    /// - a result of background work is shown, and a successful write reloads the course;
    /// - a key press goes to the open editor, or else navigates (see
    ///   [`App::key_handled`]).
    pub fn update(&mut self, event: AppEvent) -> (act: Option<Action>)
        requires
            old(self).wf(),
        ensures
            Self::updated(*old(self), event, *final(self), act),
            final(self).wf(),
    {
        match event {
            AppEvent::Tick => {
                self.info_msg_ticks = self.info_msg_ticks.wrapping_add(1);
                if self.info_msg.is_some() && self.info_msg_ticks % INFO_MSG_TICKS == 0 {
                    self.info_msg = None;
                }
                None
            },
            AppEvent::Resize(w, h) => {
                self.width = w;
                self.height = h;
                None
            },
            AppEvent::CoursesLoaded(res) => {
                self.loading = false;
                match res {
                    Ok(list) => {
                        self.courses = list;
                        if self.course_index >= self.courses.len() {
                            self.course_index = 0;
                        }
                    },
                    Err(e) => {
                        self.error = Some(e);
                    },
                }
                None
            },
            AppEvent::CourseDataLoaded(res) => {
                self.loading = false;
                match res {
                    Ok(data) => {
                        self.course_data = Some(data);
                        self.state = AppState::Dashboard;
                        self.cursor_row = 0;
                        self.cursor_col = 0;
                        self.scroll_row_offset = 0;
                        self.scroll_col_offset = 0;
                        self.raw_category_index = 0;
                        self.raw_right_focused = false;
                        self.raw_selected_student = None;
                        self.sync_raw_category();
                    },
                    Err(e) => {
                        self.error = Some(e);
                    },
                }
                None
            },
            AppEvent::ScoreUpdated(res) => {
                self.loading = false;
                match res {
                    Ok(_) => {
                        self.info_msg = Some(
                            String::from_str("Score successfully saved and database updated!"),
                        );
                        self.info_msg_ticks = 0;
                        self.load_course_data()
                    },
                    Err(e) => {
                        let mut msg = String::from_str("Failed to update score: ");
                        msg.append(e.as_str());
                        self.error = Some(msg);
                        None
                    },
                }
            },
            AppEvent::ConfigUpdated(res) => {
                self.loading = false;
                match res {
                    Ok(_) => {
                        self.info_msg = Some(String::from_str("Configuration successfully updated!"));
                        self.info_msg_ticks = 0;
                        self.load_course_data()
                    },
                    Err(e) => {
                        let mut msg = String::from_str("Failed to save config: ");
                        msg.append(e.as_str());
                        self.error = Some(msg);
                        None
                    },
                }
            },
            AppEvent::ReportsExported(res) => {
                self.loading = false;
                match res {
                    Ok(msg) => {
                        self.info_msg = Some(msg);
                        self.info_msg_ticks = 0;
                    },
                    Err(e) => {
                        let mut msg = String::from_str("Export failed: ");
                        msg.append(e.as_str());
                        self.error = Some(msg);
                    },
                }
                None
            },
            AppEvent::Key(key) => {
                if self.editing {
                    self.on_editing_key(key)
                } else if self.editing_weights || self.editing_boundaries {
                    self.on_settings_key(key)
                } else {
                    self.on_navigation_key(key.code)
                }
            },
        }
    }

    /// Scrolls the rows so that the cursor row is on screen.
    fn adjust_scroll_row(&mut self)
        ensures
            *final(self) == old(self).row_scrolled(),
    {
        if self.cursor_row < self.scroll_row_offset {
            self.scroll_row_offset = self.cursor_row;
        } else if self.cursor_row - self.scroll_row_offset >= VISIBLE_ROWS {
            self.scroll_row_offset = self.cursor_row - VISIBLE_ROWS + 1;
        }
    }

    /// Scrolls the columns so that the cursor column is on screen.
    fn adjust_scroll_col(&mut self)
        ensures
            *final(self) == old(self).col_scrolled(),
    {
        if self.active_tab == 1 {
            if self.cursor_col < 2 {
                self.scroll_col_offset = 2;
                return;
            }
            if self.cursor_col < self.scroll_col_offset {
                self.scroll_col_offset = self.cursor_col;
            } else if self.cursor_col - self.scroll_col_offset >= VISIBLE_SCORE_COLUMNS {
                self.scroll_col_offset = self.cursor_col - VISIBLE_SCORE_COLUMNS + 1;
            }
            return;
        }
        if self.cursor_col < self.scroll_col_offset {
            self.scroll_col_offset = self.cursor_col;
        } else if self.cursor_col - self.scroll_col_offset >= VISIBLE_COLUMNS {
            self.scroll_col_offset = self.cursor_col - VISIBLE_COLUMNS + 1;
        }
    }
}

} // verus!
