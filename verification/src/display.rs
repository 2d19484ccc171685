//! Layout decisions of the dashboard's screens: column widths, scroll windows, bar
//! lengths, and the colour families of categories and grades.

use vstd::prelude::*;
use vstd::string::*;
use crate::app::{App, AppState};
use crate::text::{
    contains, contains_text, format_thai_name, lowercase, name_layout, to_lower, to_upper,
    trim, trimmed, uppercase, views,
};

verus! {

/// The colour family of a grading category.
#[derive(Clone, Copy, Debug, PartialEq, Eq, Structural)]
pub enum CategoryTone {
    Coursework,
    Attendance,
    Midterm,
    Final,
    Other,
}

/// The colour family of a letter grade.
#[derive(Clone, Copy, Debug, PartialEq, Eq, Structural)]
pub enum GradeBand {
    A,
    B,
    C,
    D,
    F,
    Other,
}

/// How good a grade is, for colouring the grade that a score edit would give.
#[derive(Clone, Copy, Debug, PartialEq, Eq, Structural)]
pub enum GradeSignal {
    Excellent,
    Good,
    Fair,
    Poor,
    Failing,
}

/// How good a grade is: the trimmed, uppercased grade A, A+, A- (or PASSED, P) is
/// excellent, B, B+, B- good, C, C+, C- fair, D, D+, D- poor, and anything else failing.
pub open spec fn grade_signal_of(g: Seq<char>) -> GradeSignal {
    let u = uppercase(trimmed(g));
    if u == "A"@ || u == "A+"@ || u == "A-"@ || u == "PASSED"@ || u == "P"@ {
        GradeSignal::Excellent
    } else if u == "B"@ || u == "B+"@ || u == "B-"@ {
        GradeSignal::Good
    } else if u == "C"@ || u == "C+"@ || u == "C-"@ {
        GradeSignal::Fair
    } else if u == "D"@ || u == "D+"@ || u == "D-"@ {
        GradeSignal::Poor
    } else {
        GradeSignal::Failing
    }
}

/// Whether a text equals a literal.
fn is_text(s: &String, lit: &str) -> (r: bool)
    ensures
        r == (s@ == lit@),
{
    *s == String::from_str(lit)
}

/// How good a grade is; see [`grade_signal_of`].
pub fn grade_signal(g: &str) -> (r: GradeSignal)
    ensures
        r == grade_signal_of(g@),
{
    let t = trim(g);
    let u = to_upper(t.as_str());
    if is_text(&u, "A") || is_text(&u, "A+") || is_text(&u, "A-") || is_text(&u, "PASSED")
        || is_text(&u, "P") {
        GradeSignal::Excellent
    } else if is_text(&u, "B") || is_text(&u, "B+") || is_text(&u, "B-") {
        GradeSignal::Good
    } else if is_text(&u, "C") || is_text(&u, "C+") || is_text(&u, "C-") {
        GradeSignal::Fair
    } else if is_text(&u, "D") || is_text(&u, "D+") || is_text(&u, "D-") {
        GradeSignal::Poor
    } else {
        GradeSignal::Failing
    }
}

/// The colour family of a category, by the words its lowercased name contains.
pub open spec fn category_tone_of(cat: Seq<char>) -> CategoryTone {
    let l = lowercase(cat);
    if contains(l, "homework"@) || contains(l, "hw"@) || contains(l, "project"@) {
        CategoryTone::Coursework
    } else if contains(l, "attendance"@) || contains(l, "att"@) {
        CategoryTone::Attendance
    } else if contains(l, "midterm"@) || contains(l, "mid"@) {
        CategoryTone::Midterm
    } else if contains(l, "final"@) {
        CategoryTone::Final
    } else {
        CategoryTone::Other
    }
}

/// The colour family of a grade: by its first letter for A to D, `F` for exactly "F",
/// and none of these otherwise.
pub open spec fn grade_band_of(g: Seq<char>) -> GradeBand {
    if g.len() > 0 && g[0] == 'A' {
        GradeBand::A
    } else if g.len() > 0 && g[0] == 'B' {
        GradeBand::B
    } else if g.len() > 0 && g[0] == 'C' {
        GradeBand::C
    } else if g.len() > 0 && g[0] == 'D' {
        GradeBand::D
    } else if g == seq!['F'] {
        GradeBand::F
    } else {
        GradeBand::Other
    }
}

/// The colour family of a grading category, by the words its lowercased name contains:
/// homework or projects, attendance, the midterm, the final, or another category.
pub fn category_tone(cat: &str) -> (r: CategoryTone)
    ensures
        r == category_tone_of(cat@),
{
    let lower = to_lower(cat);
    let l = lower.as_str();
    if contains_text(l, "homework") || contains_text(l, "hw") || contains_text(l, "project") {
        CategoryTone::Coursework
    } else if contains_text(l, "attendance") || contains_text(l, "att") {
        CategoryTone::Attendance
    } else if contains_text(l, "midterm") || contains_text(l, "mid") {
        CategoryTone::Midterm
    } else if contains_text(l, "final") {
        CategoryTone::Final
    } else {
        CategoryTone::Other
    }
}

/// The colour family of a grade: by its first letter for A to D, `F` for exactly "F".
pub fn grade_band(g: &str) -> (r: GradeBand)
    ensures
        r == grade_band_of(g@),
{
    let n = g.unicode_len();
    if n > 0 {
        let c = g.get_char(0);
        if c == 'A' {
            return GradeBand::A;
        } else if c == 'B' {
            return GradeBand::B;
        } else if c == 'C' {
            return GradeBand::C;
        } else if c == 'D' {
            return GradeBand::D;
        }
    }
    if n == 1 && g.get_char(0) == 'F' {
        assert(g@ =~= seq!['F']);
        GradeBand::F
    } else {
        GradeBand::Other
    }
}

/// The length of the longest bar of the grade distribution chart.
pub const MAX_BAR_LENGTH: usize = 35;

/// The filled and empty cells of a bar of `count` when the largest count is `max`.
pub open spec fn bar_split(count: usize, max: usize) -> (usize, usize) {
    let filled = if max > 0 {
        (count * MAX_BAR_LENGTH / (max as int)) as usize
    } else {
        0
    };
    (filled, (MAX_BAR_LENGTH - filled) as usize)
}

/// The largest of the counts, 0 for none.
pub open spec fn max_count(counts: Seq<usize>) -> usize
    decreases counts.len(),
{
    if counts.len() == 0 {
        0
    } else {
        let m = max_count(counts.drop_last());
        if counts.last() > m {
            counts.last()
        } else {
            m
        }
    }
}

/// No count exceeds the largest.
pub(crate) proof fn lemma_max_count_bounds(counts: Seq<usize>)
    ensures
        forall|i: int| 0 <= i < counts.len() ==> counts[i] <= max_count(counts),
    decreases counts.len(),
{
    if counts.len() > 0 {
        lemma_max_count_bounds(counts.drop_last());
        assert forall|i: int| 0 <= i < counts.len() implies counts[i] <= max_count(counts) by {
            if i < counts.len() - 1 {
                assert(counts.drop_last()[i] == counts[i]);
            }
        }
    }
}

/// The largest count is one of the counts.
pub(crate) proof fn lemma_max_count_attained(counts: Seq<usize>)
    requires
        counts.len() > 0,
    ensures
        exists|i: int| 0 <= i < counts.len() && counts[i] == max_count(counts),
    decreases counts.len(),
{
    let last = counts.len() - 1;
    if counts.len() == 1 {
        assert(counts.drop_last().len() == 0);
        assert(max_count(counts.drop_last()) == 0);
        assert(counts[last] == max_count(counts));
    } else {
        let rest = counts.drop_last();
        lemma_max_count_attained(rest);
        let k = choose|i: int| 0 <= i < rest.len() && rest[i] == max_count(rest);
        if counts[last] > max_count(rest) {
            assert(counts[last] == max_count(counts));
        } else {
            assert(counts[k] == max_count(counts));
        }
    }
}

/// The bars of the grade distribution chart: for each count, its filled and empty cells,
/// the largest count filling all [`MAX_BAR_LENGTH`] cells.
pub fn bar_lengths(counts: &Vec<usize>) -> (r: Vec<(usize, usize)>)
    requires
        forall|i: int| 0 <= i < counts.len() ==> counts@[i] <= usize::MAX / MAX_BAR_LENGTH,
    ensures
        r.len() == counts.len(),
        forall|i: int|
            0 <= i < counts.len() ==> #[trigger] r@[i] == bar_split(
                counts@[i],
                max_count(counts@),
            ),
{
    let mut max: usize = 0;
    let mut i: usize = 0;
    while i < counts.len()
        invariant
            i <= counts.len(),
            max == max_count(counts@.subrange(0, i as int)),
        decreases counts.len() - i,
    {
        assert(counts@.subrange(0, i + 1).drop_last() =~= counts@.subrange(0, i as int));
        if counts[i] > max {
            max = counts[i];
        }
        i = i + 1;
    }
    assert(counts@.subrange(0, counts.len() as int) =~= counts@);
    proof {
        lemma_max_count_bounds(counts@);
    }
    let mut res: Vec<(usize, usize)> = Vec::new();
    let mut k: usize = 0;
    while k < counts.len()
        invariant
            k <= counts.len(),
            max == max_count(counts@),
            forall|i: int| 0 <= i < counts.len() ==> counts@[i] <= max,
            forall|i: int| 0 <= i < counts.len() ==> counts@[i] <= usize::MAX / MAX_BAR_LENGTH,
            res.len() == k,
            forall|i: int| 0 <= i < k ==> #[trigger] res@[i] == bar_split(counts@[i], max),
        decreases counts.len() - k,
    {
        let c = counts[k];
        let filled = if max > 0 {
            assert(c * MAX_BAR_LENGTH / (max as int) <= MAX_BAR_LENGTH) by (nonlinear_arith)
                requires
                    c <= max,
                    max > 0,
            ;
            c * MAX_BAR_LENGTH / max
        } else {
            0
        };
        res.push((filled, MAX_BAR_LENGTH - filled));
        k = k + 1;
    }
    res
}

/// The first and last-but-one score column shown in the raw details table, given the
/// column scroll offset and the number of score columns: the two identity columns stay
/// in place, and at most five score columns follow. The first can lie past the last when
/// the scroll offset is out of date.
pub fn sub_column_window(scroll_col_offset: usize, n: usize) -> (r: (usize, usize))
    ensures
        r.0 == (if scroll_col_offset >= 2 {
            scroll_col_offset - 2
        } else {
            0
        }),
        r.1 == (if r.0 + 5 < n {
            r.0 + 5
        } else {
            n as int
        }),
{
    let start = if scroll_col_offset >= 2 {
        scroll_col_offset - 2
    } else {
        0
    };
    let end = if start < n && n - start > 5 {
        start + 5
    } else {
        n
    };
    (start, end)
}

/// The width of each score column of the summary table, so that the table fills the
/// panel: the identity, name and grade columns take 12, `name_width` and 7 cells, and the
/// other columns share the rest, one cell apart, each at least 6 wide.
pub open spec fn score_column_width_of(inner_width: u16, n_cols: usize, name_width: usize) -> int {
    let n_other = if n_cols >= 3 {
        n_cols - 3
    } else {
        0
    };
    let spacings = if n_cols >= 1 {
        n_cols - 1
    } else {
        0
    };
    let fixed = 12 + name_width + 7;
    if n_other > 0 && inner_width > fixed + spacings {
        let w = (inner_width - fixed - spacings) / (n_other as int);
        if w > 6 {
            w
        } else {
            6
        }
    } else {
        6
    }
}

/// The width of each score column of the summary table; see [`score_column_width_of`].
pub fn score_column_width(inner_width: u16, n_cols: usize, name_width: usize) -> (r: u16)
    ensures
        r == score_column_width_of(inner_width, n_cols, name_width),
{
    let n_other = if n_cols >= 3 {
        n_cols - 3
    } else {
        0
    };
    let spacings = if n_cols >= 1 {
        n_cols - 1
    } else {
        0
    };
    let inner = inner_width as usize;
    if n_other > 0 && name_width <= inner && spacings <= inner && 19 < inner - name_width
        && spacings < inner - name_width - 19 {
        let w = (inner - name_width - 19 - spacings) / n_other;
        assert(w <= inner) by (nonlinear_arith)
            requires
                w == (inner - name_width - 19 - spacings) / (n_other as int),
                n_other > 0,
                inner >= name_width + 19 + spacings,
        ;
        if w > 6 {
            w as u16
        } else {
            6
        }
    } else {
        6
    }
}

/// The width of the name column of the summary table: the longest laid-out name in
/// characters, 20 when there is no name, and at least 8.
pub open spec fn name_column_width_of(names: Seq<Seq<char>>) -> int
    decreases names.len(),
{
    if names.len() == 0 {
        20
    } else {
        longest_layout(names)
    }
}

/// The largest length of a laid-out name, at least 8.
pub open spec fn longest_layout(names: Seq<Seq<char>>) -> int
    decreases names.len(),
{
    if names.len() == 0 {
        8
    } else {
        let rest = longest_layout(names.drop_last());
        let l = name_layout(names.last(), 18).len() as int;
        if l > rest {
            l
        } else {
            rest
        }
    }
}

/// The width of the name column of the summary table; see [`name_column_width_of`].
pub fn name_column_width(names: &Vec<String>) -> (r: usize)
    ensures
        r == name_column_width_of(views(names@)),
{
    if names.len() == 0 {
        return 20;
    }
    let mut best: usize = 8;
    let mut i: usize = 0;
    while i < names.len()
        invariant
            i <= names.len(),
            best == longest_layout(views(names@).subrange(0, i as int)),
        decreases names.len() - i,
    {
        let laid = format_thai_name(names[i].as_str(), 18);
        let l = laid.as_str().unicode_len();
        let ghost prefix = views(names@).subrange(0, i + 1);
        assert(prefix.drop_last() =~= views(names@).subrange(0, i as int));
        assert(prefix.last() == names@[i as int]@);
        if l > best {
            best = l;
        }
        i = i + 1;
    }
    assert(views(names@).subrange(0, names.len() as int) =~= views(names@));
    best
}

/// Which part of the raw details tab has the focus.
#[derive(Clone, Copy, Debug, PartialEq, Eq, Structural)]
pub enum RawFocus {
    Categories,
    Table,
    Student,
}

/// What the status line at the bottom shows.
#[derive(Clone, Copy, Debug, PartialEq, Eq, Structural)]
pub enum Footer {
    /// The status message.
    Info,
    /// The error message.
    Error,
    /// The keys of the course list.
    CourseList,
    /// The keys of the score editor.
    ScoreEditor,
    /// The keys of the settings editor.
    SettingsEditor,
    /// The keys of the dashboard: those of the raw details tab where it is shown, and the
    /// settings keys where they apply.
    Dashboard { raw: Option<RawFocus>, settings_keys: bool },
}

/// What the status line shows: a status message first, then an error, then the keys
/// that apply where the focus is.
pub open spec fn footer_of(a: App) -> Footer {
    if a.info_msg is Some {
        Footer::Info
    } else if a.error is Some {
        Footer::Error
    } else if a.state == AppState::CourseSelect {
        Footer::CourseList
    } else if a.editing {
        Footer::ScoreEditor
    } else if a.editing_weights || a.editing_boundaries {
        Footer::SettingsEditor
    } else {
        Footer::Dashboard {
            raw: if a.active_tab == 1 {
                Some(
                    if a.raw_selected_student is Some {
                        RawFocus::Student
                    } else if a.raw_right_focused {
                        RawFocus::Table
                    } else {
                        RawFocus::Categories
                    },
                )
            } else {
                None
            },
            settings_keys: a.active_tab == 0 || a.active_tab == 1,
        }
    }
}

/// What the status line shows; see [`footer_of`].
pub fn footer(a: &App) -> (r: Footer)
    ensures
        r == footer_of(*a),
{
    if a.info_msg.is_some() {
        Footer::Info
    } else if a.error.is_some() {
        Footer::Error
    } else if a.state == AppState::CourseSelect {
        Footer::CourseList
    } else if a.editing {
        Footer::ScoreEditor
    } else if a.editing_weights || a.editing_boundaries {
        Footer::SettingsEditor
    } else {
        let raw = if a.active_tab == 1 {
            Some(
                if a.raw_selected_student.is_some() {
                    RawFocus::Student
                } else if a.raw_right_focused {
                    RawFocus::Table
                } else {
                    RawFocus::Categories
                },
            )
        } else {
            None
        };
        Footer::Dashboard { raw, settings_keys: a.active_tab == 0 || a.active_tab == 1 }
    }
}

/// What the student panel of the raw details tab shows of the cell under the cursor.
#[derive(Clone, Copy, Debug, PartialEq, Eq, Structural)]
pub enum CellLine {
    /// The student's total over the category's columns.
    Total,
    /// The score in the category's column with this index.
    Column(usize),
    /// Nothing: the cursor is on the ID or name column, or past the table.
    Nothing,
}

/// The cell line for a cursor in table column `cursor_col` of a category with `n` score
/// columns: the columns after ID and name are its score columns, then its total.
pub open spec fn cell_line_of(cursor_col: usize, n: usize) -> CellLine {
    if cursor_col < 2 {
        CellLine::Nothing
    } else if cursor_col == n + 2 {
        CellLine::Total
    } else if cursor_col - 2 < n {
        CellLine::Column((cursor_col - 2) as usize)
    } else {
        CellLine::Nothing
    }
}

/// The cell line for a cursor in table column `cursor_col`; see [`cell_line_of`].
pub fn cell_line(cursor_col: usize, n: usize) -> (r: CellLine)
    ensures
        r == cell_line_of(cursor_col, n),
{
    if cursor_col < 2 {
        CellLine::Nothing
    } else if cursor_col - 2 == n {
        CellLine::Total
    } else if cursor_col - 2 < n {
        CellLine::Column(cursor_col - 2)
    } else {
        CellLine::Nothing
    }
}

/// The first `n` characters of `s`, or all of them when it is shorter.
pub fn take_chars(s: &str, n: usize) -> (r: String)
    ensures
        r@ == (if s@.len() <= n {
            s@
        } else {
            s@.take(n as int)
        }),
{
    let len = s.unicode_len();
    if len <= n {
        assert(s@.subrange(0, len as int) =~= s@);
        s.substring_char(0, len).to_owned()
    } else {
        s.substring_char(0, n).to_owned()
    }
}

/// A column name shortened for the student panel: longer than 16 characters, it keeps its
/// first 15 and ends in an ellipsis.
pub fn short_column_label(name: &str) -> (r: String)
    ensures
        r@ == (if name@.len() > 16 {
            name@.take(15) + seq!['…']
        } else {
            name@
        }),
{
    if name.unicode_len() > 16 {
        let mut res = take_chars(name, 15);
        proof {
            reveal_strlit("…");
            assert("…"@ =~= seq!['…']);
        }
        res.append("…");
        res
    } else {
        String::from_str(name)
    }
}

/// The frame of the loading spinner at a tick count.
pub fn spinner_frame(ticks: usize) -> (r: usize)
    ensures
        r == ticks % 4,
        r < 4,
{
    ticks % 4
}

} // verus!
