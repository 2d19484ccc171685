//! Properties of the dashboard that hold across events.

use vstd::prelude::*;
use crate::app::{App, AppEvent, AppState, Action, KeyCode, KeyPress, field_value, first_false};
use crate::model::find_columns;
use crate::theme::{Color, ColorValue};
use crate::display::{
    MAX_BAR_LENGTH, bar_split, max_count, lemma_max_count_bounds, lemma_max_count_attained,
};
use crate::theme::{Theme, ColorOverride, theme_overridden, find_override, color_of, theme_keys};

verus! {

/// Tab followed by Shift+Tab shows the tab shown before.
pub proof fn law_tab_then_back_tab(
    a: App,
    b: App,
    c: App,
    k1: KeyPress,
    k2: KeyPress,
    x1: Option<Action>,
    x2: Option<Action>,
)
    requires
        a.active_tab < 4,
        k1.code == KeyCode::Tab,
        k2.code == KeyCode::BackTab,
        App::updated(a, AppEvent::Key(k1), b, x1),
        App::updated(b, AppEvent::Key(k2), c, x2),
    ensures
        c.active_tab == a.active_tab,
{
}

/// Four presses of Tab come back to the tab shown before.
pub proof fn law_four_tabs_cycle(
    s: Seq<App>,
    keys: Seq<KeyPress>,
    acts: Seq<Option<Action>>,
)
    requires
        s.len() == 5,
        keys.len() == 4,
        acts.len() == 4,
        s[0].active_tab < 4,
        forall|i: int| 0 <= i < 4 ==> (#[trigger] keys[i]).code == KeyCode::Tab,
        forall|i: int|
            0 <= i < 4 ==> App::updated(#[trigger] s[i], AppEvent::Key(keys[i]), s[i + 1], acts[i]),
    ensures
        s[4].active_tab == s[0].active_tab,
{
    assert(App::updated(s[0], AppEvent::Key(keys[0]), s[1], acts[0]));
    assert(App::updated(s[1], AppEvent::Key(keys[1]), s[2], acts[1]));
    assert(App::updated(s[2], AppEvent::Key(keys[2]), s[3], acts[2]));
    assert(App::updated(s[3], AppEvent::Key(keys[3]), s[4], acts[3]));
}

/// Whatever happens, the dashboard shows one of its four tabs.
pub proof fn law_tab_in_range(a: App, e: AppEvent, b: App, x: Option<Action>)
    requires
        a.active_tab < 4,
        App::updated(a, e, b, x),
    ensures
        b.active_tab < 4,
{
}

/// Whatever happens, the cursor of the course list stays on the list (or at its top when
/// the list is empty).
pub proof fn law_course_cursor_on_list(a: App, e: AppEvent, b: App, x: Option<Action>)
    requires
        a.course_index == 0 || a.course_index < a.courses.len(),
        App::updated(a, e, b, x),
    ensures
        b.course_index == 0 || b.course_index < b.courses.len(),
{
}

/// A score editor opens only on the raw details tab of a loaded course.
pub proof fn law_scores_edited_on_raw_details(a: App, e: AppEvent, b: App, x: Option<Action>)
    requires
        !a.editing,
        App::updated(a, e, b, x),
        b.editing,
    ensures
        a.state == AppState::Dashboard,
        a.active_tab == 1,
        a.course_data is Some,
{
}

/// Pressing `c` twice on the dashboard switches between weighted and raw scores and back.
pub proof fn law_weighted_toggle_twice(
    a: App,
    b: App,
    c: App,
    k1: KeyPress,
    k2: KeyPress,
    x1: Option<Action>,
    x2: Option<Action>,
)
    requires
        a.navigating(),
        k1.code == KeyCode::Char('c'),
        k2.code == KeyCode::Char('c'),
        App::updated(a, AppEvent::Key(k1), b, x1),
        App::updated(b, AppEvent::Key(k2), c, x2),
    ensures
        b.use_weighted == !a.use_weighted,
        c.use_weighted == a.use_weighted,
{
}

/// Moving down and then up brings the row cursor back, when moving down moved it.
pub proof fn law_down_then_up(a: App, b: App, c: App)
    requires
        App::moved_down(a, b),
        App::moved_up(b, c),
        b.cursor_row == a.cursor_row + 1,
    ensures
        c.cursor_row == a.cursor_row,
{
}

/// Moving down and then up in the course list brings its cursor back, when moving down
/// moved it.
pub proof fn law_course_down_then_up(a: App, b: App, c: App)
    requires
        a.state == AppState::CourseSelect,
        App::moved_down(a, b),
        App::moved_up(b, c),
        b.course_index == a.course_index + 1,
    ensures
        c.course_index == a.course_index,
{
}

/// Confirming the score editor without having changed its value writes nothing and
/// closes the editor.
pub proof fn law_unchanged_score_writes_nothing(a: App, b: App, x: Option<Action>)
    requires
        App::score_saved(a, b, x),
        a.edit_textarea matches Some(t) && field_value(t) == a.editing_original_value@,
    ensures
        x is None,
        !b.editing,
        b.edit_textarea is None,
{
}

/// The `n`-th state of the dashboard when only timer ticks arrive.
pub open spec fn after_ticks(a: App, n: nat) -> App
    decreases n,
{
    if n == 0 {
        a
    } else {
        App::ticked(after_ticks(a, (n - 1) as nat))
    }
}

proof fn lemma_ticks_before_timeout(a: App, n: nat)
    requires
        a.info_msg_ticks == 0,
        n < 15,
    ensures
        after_ticks(a, n).info_msg_ticks == n,
        after_ticks(a, n).info_msg == a.info_msg,
    decreases n,
{
    if n > 0 {
        lemma_ticks_before_timeout(a, (n - 1) as nat);
    }
}

/// A status message shown at tick count 0 stays for 14 ticks and is gone after the 15th.
pub proof fn law_status_message_timeout(a: App, n: nat)
    requires
        a.info_msg is Some,
        a.info_msg_ticks == 0,
        n <= 15,
    ensures
        n < 15 ==> after_ticks(a, n).info_msg == a.info_msg,
        n == 15 ==> after_ticks(a, n).info_msg is None,
{
    if n < 15 {
        lemma_ticks_before_timeout(a, n);
    } else {
        lemma_ticks_before_timeout(a, 14);
        assert(15usize % 15 == 0);
    }
}

/// A theme file without entries leaves the theme as it is.
pub proof fn law_no_overrides_keep_theme(t: Theme, e: Seq<ColorOverride>)
    requires
        e.len() == 0,
    ensures
        theme_overridden(t, e) == t,
{
}

/// After a score or the configuration was written, the dashboard asks for the selected
/// course again, so that the grades shown are computed anew.
pub proof fn law_reload_after_write(a: App, e: AppEvent, b: App, x: Option<Action>)
    requires
        e matches AppEvent::ScoreUpdated(Ok(_)) || e matches AppEvent::ConfigUpdated(Ok(_)),
        a.selected_course_path@.len() > 0,
        App::updated(a, e, b, x),
    ensures
        x matches Some(Action::LoadCourseData { path, use_weighted }) && path
            == a.selected_course_path && use_weighted == a.use_weighted,
        b.loading,
{
}

/// A theme file whose entries for the theme are missing or do not read as colours leaves
/// the theme as it is.
pub proof fn law_unreadable_overrides_keep_theme(t: Theme, e: Seq<ColorOverride>)
    requires
        forall|i: int|
            0 <= i < theme_keys().len() ==> match find_override(e, #[trigger] theme_keys()[i]) {
                Some(v) => color_of(v) is None,
                None => true,
            },
    ensures
        theme_overridden(t, e) == t,
{
    assert(theme_keys()[0] == "bg"@);
    assert(theme_keys()[1] == "fg"@);
    assert(theme_keys()[2] == "panel_bg"@);
    assert(theme_keys()[3] == "border"@);
    assert(theme_keys()[4] == "border_focus"@);
    assert(theme_keys()[5] == "active_tab"@);
    assert(theme_keys()[6] == "inactive_tab"@);
    assert(theme_keys()[7] == "warning"@);
    assert(theme_keys()[8] == "success"@);
    assert(theme_keys()[9] == "info"@);
    assert(theme_keys()[10] == "highlight"@);
    assert(theme_keys()[11] == "key_accent"@);
    assert(theme_keys()[12] == "purple"@);
    assert(theme_keys()[13] == "alt_row"@);
    assert(theme_keys()[14] == "title"@);
    assert(theme_keys()[15] == "grade_a"@);
    assert(theme_keys()[16] == "grade_bplus"@);
    assert(theme_keys()[17] == "grade_b"@);
    assert(theme_keys()[18] == "grade_cplus"@);
    assert(theme_keys()[19] == "grade_c"@);
    assert(theme_keys()[20] == "grade_dplus"@);
    assert(theme_keys()[21] == "grade_d"@);
    assert(theme_keys()[22] == "grade_f"@);
}

/// The score editor opens on the score column under the cursor. The category's score
/// columns follow the ID and name columns, so it is the category's column
/// `cursor_col - 2`, however far the table is scrolled.
pub proof fn law_editor_opens_on_cursor_column(a: App, b: App)
    requires
        !a.editing,
        App::cell_edit_started(a, b),
        b.editing,
    ensures
        a.active_tab == 1,
        a.course_data is Some,
        a.raw_selected_category is Some,
        2 <= a.cursor_col,
        a.cursor_col - 2 < find_columns(
            a.course_data->0.data_mapping@,
            a.raw_selected_category->0@,
        ).len(),
        b.editing_column == find_columns(
            a.course_data->0.data_mapping@,
            a.raw_selected_category->0@,
        )[a.cursor_col - 2],
{
}

/// Two dashboards that differ only in how far the table is scrolled open the score
/// editor on the same column.
pub proof fn law_scroll_keeps_edited_column(a1: App, b1: App, a2: App, b2: App)
    requires
        !a1.editing,
        a2 == (App { scroll_col_offset: a2.scroll_col_offset, ..a1 }),
        App::cell_edit_started(a1, b1),
        App::cell_edit_started(a2, b2),
        b1.editing,
    ensures
        b2.editing,
        b2.editing_column == b1.editing_column,
        b2.editing_student_id@ == b1.editing_student_id@,
{
}

/// Enter on the course list opens the highlighted course: the dashboard asks for the
/// data of the course under the cursor and remembers its path.
pub proof fn law_enter_opens_highlighted_course(a: App, k: KeyPress, b: App, x: Option<Action>)
    requires
        a.state == AppState::CourseSelect,
        !a.editing,
        !a.editing_weights,
        !a.editing_boundaries,
        k.code == KeyCode::Enter,
        a.course_index < a.courses.len(),
        a.courses@[a.course_index as int].path@.len() > 0,
        App::updated(a, AppEvent::Key(k), b, x),
    ensures
        b.selected_course_path == a.courses@[a.course_index as int].path,
        b.loading,
        x matches Some(Action::LoadCourseData { path, use_weighted }) && path
            == a.courses@[a.course_index as int].path && use_weighted == a.use_weighted,
{
}

/// `first_false` finds the first value that is not a number.
proof fn lemma_first_false_found(p: Seq<bool>, i: int)
    requires
        0 <= i < p.len(),
        !p[i],
    ensures
        0 <= first_false(p) <= i,
        !p[first_false(p)],
        forall|k: int| 0 <= k < first_false(p) ==> p[k],
    decreases p.len(),
{
    if p[0] {
        let q = p.drop_first();
        assert(q[i - 1] == p[i]);
        lemma_first_false_found(q, i - 1);
        assert(!p[first_false(p)]) by {
            assert(q[first_false(q)] == p[first_false(q) + 1]);
        }
        assert forall|k: int| 0 <= k < first_false(p) implies p[k] by {
            if k > 0 {
                assert(q[k - 1] == p[k]);
            }
        }
    }
}

/// With every value a number, `first_false` finds none.
proof fn lemma_first_false_none(p: Seq<bool>)
    requires
        forall|k: int| 0 <= k < p.len() ==> p[k],
    ensures
        first_false(p) == p.len(),
    decreases p.len(),
{
    if p.len() > 0 {
        let q = p.drop_first();
        assert forall|k: int| 0 <= k < q.len() implies q[k] by {
            assert(q[k] == p[k + 1]);
        }
        lemma_first_false_none(q);
    }
}

/// Saving the settings editor writes nothing while any value is not a number: the
/// editor closes with an error naming the first field whose value is not one. The
/// values are sent to be written exactly when every one of them is a number.
pub proof fn law_config_needs_every_value_a_number(
    a: App,
    b: App,
    p: Seq<bool>,
    x: Option<Action>,
)
    requires
        a.editing_weights || a.editing_boundaries,
        App::config_saved(a, b, p, x),
    ensures
        (exists|i: int| 0 <= i < p.len() && !p[i]) ==> {
            &&& x is None
            &&& exists|j: int|
                #![trigger p[j]]
                {
                    &&& 0 <= j < p.len()
                    &&& !p[j]
                    &&& forall|k: int| 0 <= k < j ==> p[k]
                    &&& b.error matches Some(e) && e@ == (if a.editing_weights {
                        "Invalid weight float value for key '"@
                    } else {
                        "Invalid boundary float value for grade '"@
                    }) + a.settings_keys@[j]@ + "': "@ + field_value(a.settings_textareas@[j])
                }
        },
        (forall|i: int| 0 <= i < p.len() ==> p[i]) ==> x matches Some(
            Action::UpdateConfig { .. },
        ),
{
    if exists|i: int| 0 <= i < p.len() && !p[i] {
        let i = choose|i: int| 0 <= i < p.len() && !p[i];
        lemma_first_false_found(p, i);
        let j = first_false(p);
        assert(0 <= j < p.len() && !p[j]);
    }
    if forall|i: int| 0 <= i < p.len() ==> p[i] {
        lemma_first_false_none(p);
    }
}

/// Theme entry `new` (formerly `old`) is read from the theme file's member named `name`:
/// a colour that member gives is taken, and without such a member it stays as it was.
pub open spec fn read_from(new: Color, old: Color, e: Seq<ColorOverride>, name: Seq<char>) -> bool {
    &&& find_override(e, name) is None ==> new == old
    &&& forall|v: ColorValue|
        find_override(e, name) == Some(v) && (#[trigger] color_of(v)) is Some ==> Some(new)
            == color_of(v)
}

/// Each entry of the theme is read from the theme file's member of its own name.
pub proof fn law_each_entry_read_by_its_own_name(t: Theme, e: Seq<ColorOverride>)
    ensures
        read_from(theme_overridden(t, e).bg, t.bg, e, "bg"@),
        read_from(theme_overridden(t, e).fg, t.fg, e, "fg"@),
        read_from(theme_overridden(t, e).panel_bg, t.panel_bg, e, "panel_bg"@),
        read_from(theme_overridden(t, e).border, t.border, e, "border"@),
        read_from(theme_overridden(t, e).border_focus, t.border_focus, e, "border_focus"@),
        read_from(theme_overridden(t, e).active_tab, t.active_tab, e, "active_tab"@),
        read_from(theme_overridden(t, e).inactive_tab, t.inactive_tab, e, "inactive_tab"@),
        read_from(theme_overridden(t, e).warning, t.warning, e, "warning"@),
        read_from(theme_overridden(t, e).success, t.success, e, "success"@),
        read_from(theme_overridden(t, e).info, t.info, e, "info"@),
        read_from(theme_overridden(t, e).highlight, t.highlight, e, "highlight"@),
        read_from(theme_overridden(t, e).key_accent, t.key_accent, e, "key_accent"@),
        read_from(theme_overridden(t, e).purple, t.purple, e, "purple"@),
        read_from(theme_overridden(t, e).alt_row, t.alt_row, e, "alt_row"@),
        read_from(theme_overridden(t, e).title, t.title, e, "title"@),
        read_from(theme_overridden(t, e).grade_a, t.grade_a, e, "grade_a"@),
        read_from(theme_overridden(t, e).grade_bplus, t.grade_bplus, e, "grade_bplus"@),
        read_from(theme_overridden(t, e).grade_b, t.grade_b, e, "grade_b"@),
        read_from(theme_overridden(t, e).grade_cplus, t.grade_cplus, e, "grade_cplus"@),
        read_from(theme_overridden(t, e).grade_c, t.grade_c, e, "grade_c"@),
        read_from(theme_overridden(t, e).grade_dplus, t.grade_dplus, e, "grade_dplus"@),
        read_from(theme_overridden(t, e).grade_d, t.grade_d, e, "grade_d"@),
        read_from(theme_overridden(t, e).grade_f, t.grade_f, e, "grade_f"@),
{
}

/// The largest count of the distribution chart fills its whole bar, whatever the other
/// counts.
pub proof fn law_largest_count_fills_bar(counts: Seq<usize>, i: int)
    requires
        0 <= i < counts.len(),
        counts[i] > 0,
        forall|j: int| 0 <= j < counts.len() ==> counts[j] <= counts[i],
    ensures
        bar_split(counts[i], max_count(counts)) == (MAX_BAR_LENGTH, 0usize),
{
    lemma_max_count_bounds(counts);
    lemma_max_count_attained(counts);
    let m = max_count(counts);
    assert(m == counts[i]);
    let c = counts[i] as int;
    assert(c * 35 / c == 35) by (nonlinear_arith)
        requires
            c > 0,
    ;
}

/// Each bar of the distribution chart has all its cells, filled or empty; a larger count
/// never has a shorter bar; and a count of nothing has an empty bar.
pub proof fn law_bars_follow_counts(counts: Seq<usize>, i: int, j: int)
    requires
        0 <= i < counts.len(),
        0 <= j < counts.len(),
    ensures
        bar_split(counts[i], max_count(counts)).0 <= MAX_BAR_LENGTH,
        bar_split(counts[i], max_count(counts)).0 + bar_split(counts[i], max_count(counts)).1
            == MAX_BAR_LENGTH,
        counts[i] <= counts[j] ==> bar_split(counts[i], max_count(counts)).0 <= bar_split(
            counts[j],
            max_count(counts),
        ).0,
        counts[i] == 0 ==> bar_split(counts[i], max_count(counts)) == (0usize, MAX_BAR_LENGTH),
{
    lemma_max_count_bounds(counts);
    let m = max_count(counts) as int;
    let ci = counts[i] as int;
    let cj = counts[j] as int;
    if m > 0 {
        assert(ci * 35 / m <= 35) by (nonlinear_arith)
            requires
                0 <= ci <= m,
                m > 0,
        ;
        assert(cj * 35 / m <= 35) by (nonlinear_arith)
            requires
                0 <= cj <= m,
                m > 0,
        ;
        assert(ci <= cj ==> ci * 35 / m <= cj * 35 / m) by (nonlinear_arith)
            requires
                0 <= ci,
                m > 0,
        ;
        assert(ci == 0 ==> ci * 35 / m == 0) by (nonlinear_arith)
            requires
                m > 0,
        ;
    }
}

} // verus!
