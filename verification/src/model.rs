//! The course data that the dashboard navigates and edits, as plain values.

use vstd::prelude::*;
use vstd::string::*;
use crate::text::{ends_with, ends_with_text, strip_suffixes, strip_suffixes_text, views};

verus! {

broadcast use vstd::seq_lib::group_to_multiset_ensures;

/// A course directory that can be opened.
#[derive(Clone, Debug)]
pub struct Course {
    pub name: String,
    pub path: String,
}

/// The answer to a request for the list of courses.
#[derive(Clone, Debug)]
pub struct CourseListResponse {
    pub status: String,
    pub courses: Vec<Course>,
    pub message: Option<String>,
}

/// How many students hold a grade before and after rounding.
#[derive(Clone, Debug)]
pub struct RoundupDist {
    pub grade: String,
    pub original: usize,
    pub rounded: usize,
    pub change: isize,
}

/// One bar of a score histogram.
#[derive(Clone, Debug)]
pub struct HistogramBin {
    pub label: String,
    pub count: usize,
}

/// The answer to a request that changes or exports data.
#[derive(Clone, Debug)]
pub struct GenericResponse {
    pub status: String,
    pub message: String,
}

/// A value in a student's score record.
#[derive(Clone, Debug)]
pub enum CellValue {
    /// A text value.
    Text(String),
    /// A whole number that fits in `i64`, in decimal.
    Integer(String),
    /// A number with a fractional representation, written as Rust writes an `f64` with `{}`.
    Real(String),
    /// Anything else: no value, a truth value, a number beyond `i64`, a list or a map.
    Other,
}

/// One named value of a score record.
#[derive(Clone, Debug)]
pub struct ScoreCell {
    pub column: String,
    pub value: CellValue,
}

/// A student's row of raw scores, with its values by column name.
#[derive(Clone, Debug)]
pub struct ScoreRecord {
    pub cells: Vec<ScoreCell>,
}

/// The score columns that make up one grading category.
#[derive(Clone, Debug)]
pub struct CategoryColumns {
    pub category: String,
    pub columns: Vec<String>,
}

/// A configuration value and the text that the editor starts from.
#[derive(Clone, Debug)]
pub struct Setting {
    pub key: String,
    pub text: String,
}

/// What the dashboard's logic reads of a loaded course.
#[derive(Clone, Debug)]
pub struct CourseView {
    /// The columns of the summary table; a category's percentage column ends in `_pct`.
    pub summary_columns: Vec<String>,
    /// The score columns of each category.
    pub data_mapping: Vec<CategoryColumns>,
    /// The raw score rows, one per student.
    pub raw_scores: Vec<ScoreRecord>,
    /// The number of rows of the summary table.
    pub student_grade_count: usize,
    /// The number of students whose grade rounding improved.
    pub improved_student_count: usize,
    /// The category weights, each written with two decimals.
    pub weights: Vec<Setting>,
    /// The lowest score of each letter grade, each written with one decimal.
    pub grade_boundaries: Vec<Setting>,
}

// ---------------------------------------------------------------------------
// Specifications
// ---------------------------------------------------------------------------

/// The suffix that marks a category's percentage column.
pub open spec fn pct_suffix() -> Seq<char> {
    seq!['_', 'p', 'c', 't']
}

/// The categories named by the percentage columns among `cols`, in order.
pub open spec fn categories_of(cols: Seq<Seq<char>>) -> Seq<Seq<char>>
    decreases cols.len(),
{
    if cols.len() == 0 {
        Seq::empty()
    } else {
        let rest = categories_of(cols.drop_last());
        if ends_with(cols.last(), pct_suffix()) {
            rest.push(strip_suffixes(cols.last(), pct_suffix()))
        } else {
            rest
        }
    }
}

/// The categories of a loaded course; none when no course is loaded.
pub open spec fn course_categories(data: Option<CourseView>) -> Seq<Seq<char>> {
    match data {
        Some(d) => categories_of(views(d.summary_columns@)),
        None => Seq::empty(),
    }
}

/// The value of the first cell named `column`.
pub open spec fn find_cell(cells: Seq<ScoreCell>, column: Seq<char>) -> Option<CellValue>
    decreases cells.len(),
{
    if cells.len() == 0 {
        None
    } else if cells[0].column@ == column {
        Some(cells[0].value)
    } else {
        find_cell(cells.drop_first(), column)
    }
}

/// The score columns of the first category named `category`; none when there is no such
/// category.
pub open spec fn find_columns(mapping: Seq<CategoryColumns>, category: Seq<char>) -> Seq<String>
    decreases mapping.len(),
{
    if mapping.len() == 0 {
        Seq::empty()
    } else if mapping[0].category@ == category {
        mapping[0].columns@
    } else {
        find_columns(mapping.drop_first(), category)
    }
}

/// The text of the first setting named `key`.
pub open spec fn find_setting(settings: Seq<Setting>, key: Seq<char>) -> Option<Seq<char>>
    decreases settings.len(),
{
    if settings.len() == 0 {
        None
    } else if settings[0].key@ == key {
        Some(settings[0].text@)
    } else {
        find_setting(settings.drop_first(), key)
    }
}

/// The text that a score editor starts from: a text value as it is, a number as written,
/// and nothing for any other value or a missing one.
pub open spec fn edit_text(v: Option<CellValue>) -> Seq<char> {
    match v {
        Some(CellValue::Text(s)) => s@,
        Some(CellValue::Integer(t)) => t@,
        Some(CellValue::Real(t)) => t@,
        _ => Seq::empty(),
    }
}

/// A value read as text: a text value as it is, and nothing for any other value.
pub open spec fn text_or_empty(v: CellValue) -> Seq<char> {
    match v {
        CellValue::Text(s) => s@,
        _ => Seq::empty(),
    }
}

/// Code-point order on texts: `a` comes before `b`.
pub open spec fn lex_lt(a: Seq<char>, b: Seq<char>) -> bool
    decreases a.len(),
{
    if a.len() == 0 {
        b.len() > 0
    } else if b.len() == 0 {
        false
    } else if a[0] == b[0] {
        lex_lt(a.drop_first(), b.drop_first())
    } else {
        (a[0] as int) < (b[0] as int)
    }
}

/// `a` comes before `b` or equals it.
pub open spec fn lex_le(a: Seq<char>, b: Seq<char>) -> bool {
    a == b || lex_lt(a, b)
}

/// The texts are in code-point order.
pub open spec fn texts_sorted(v: Seq<Seq<char>>) -> bool {
    forall|i: int, j: int| 0 <= i < j < v.len() ==> lex_le(#[trigger] v[i], #[trigger] v[j])
}

/// The keys of settings.
pub open spec fn setting_keys(settings: Seq<Setting>) -> Seq<String> {
    settings.map_values(|s: Setting| s.key)
}

// ---------------------------------------------------------------------------
// Order lemmas
// ---------------------------------------------------------------------------

/// Code-point order is transitive.
pub proof fn lemma_lex_transitive(a: Seq<char>, b: Seq<char>, c: Seq<char>)
    requires
        lex_lt(a, b),
        lex_lt(b, c),
    ensures
        lex_lt(a, c),
    decreases a.len(),
{
    if a.len() > 0 && b.len() > 0 && c.len() > 0 && a[0] == b[0] && b[0] == c[0] {
        lemma_lex_transitive(a.drop_first(), b.drop_first(), c.drop_first());
    }
}

/// No text comes before itself.
pub proof fn lemma_lex_irreflexive(a: Seq<char>)
    ensures
        !lex_lt(a, a),
    decreases a.len(),
{
    if a.len() > 0 {
        lemma_lex_irreflexive(a.drop_first());
    }
}

/// Any two texts are equal or one comes before the other, and never both ways.
pub proof fn lemma_lex_total(a: Seq<char>, b: Seq<char>)
    ensures
        a == b || lex_lt(a, b) || lex_lt(b, a),
        !(lex_lt(a, b) && lex_lt(b, a)),
    decreases a.len(),
{
    if a.len() > 0 && b.len() > 0 {
        lemma_lex_total(a.drop_first(), b.drop_first());
        if a[0] == b[0] {
            if a.drop_first() == b.drop_first() {
                assert(a =~= seq![a[0]] + a.drop_first());
                assert(b =~= seq![b[0]] + b.drop_first());
            }
        } else {
            assert((a[0] as int) != (b[0] as int));
        }
    } else if a.len() == 0 && b.len() == 0 {
        assert(a =~= b);
    }
}

// ---------------------------------------------------------------------------
// Executable functions
// ---------------------------------------------------------------------------

/// Whether `a` comes before `b` in code-point order.
pub fn text_lt(a: &str, b: &str) -> (r: bool)
    ensures
        r == lex_lt(a@, b@),
{
    let n = a.unicode_len();
    let m = b.unicode_len();
    let mut k: usize = 0;
    assert(a@.skip(0) =~= a@);
    assert(b@.skip(0) =~= b@);
    while k < n && k < m
        invariant
            k <= n,
            k <= m,
            n == a@.len(),
            m == b@.len(),
            lex_lt(a@, b@) == lex_lt(a@.skip(k as int), b@.skip(k as int)),
        decreases n - k,
    {
        let x = a.get_char(k);
        let y = b.get_char(k);
        if x != y {
            return (x as u32) < (y as u32);
        }
        assert(a@.skip(k as int).drop_first() =~= a@.skip(k + 1));
        assert(b@.skip(k as int).drop_first() =~= b@.skip(k + 1));
        k = k + 1;
    }
    k < m
}

/// The texts of `keys` in code-point order.
pub fn sort_texts(keys: &Vec<String>) -> (r: Vec<String>)
    ensures
        r@.to_multiset() == keys@.to_multiset(),
        texts_sorted(views(r@)),
{
    let mut res: Vec<String> = Vec::new();
    let mut i: usize = 0;
    while i < keys.len()
        invariant
            i <= keys.len(),
            res@.to_multiset() == keys@.subrange(0, i as int).to_multiset(),
            texts_sorted(views(res@)),
        decreases keys.len() - i,
    {
        let x = keys[i].clone();
        let mut pos: usize = 0;
        while pos < res.len()
            invariant
                pos <= res.len(),
                forall|t: int| 0 <= t < pos ==> lex_le(#[trigger] res@[t]@, x@),
            ensures
                pos <= res.len(),
                forall|t: int| 0 <= t < pos ==> lex_le(#[trigger] res@[t]@, x@),
                pos < res.len() ==> lex_lt(x@, res@[pos as int]@),
            decreases res.len() - pos,
        {
            if text_lt(x.as_str(), res[pos].as_str()) {
                break;
            }
            proof {
                lemma_lex_total(x@, res@[pos as int]@);
            }
            pos = pos + 1;
        }
        let ghost old_res = res@;
        proof {
            assert forall|t: int| pos <= t < old_res.len() implies lex_lt(
                x@,
                #[trigger] old_res[t]@,
            ) by {
                assert(lex_lt(x@, old_res[pos as int]@));
                if t > pos {
                    assert(lex_le(views(old_res)[pos as int], views(old_res)[t]));
                    if old_res[pos as int]@ != old_res[t]@ {
                        lemma_lex_transitive(x@, old_res[pos as int]@, old_res[t]@);
                    }
                }
            }
        }
        res.insert(pos, x);
        proof {
            assert(keys@.subrange(0, i + 1) =~= keys@.subrange(0, i as int).push(keys@[i as int]));
            assert forall|a: int, b: int| 0 <= a < b < res@.len() implies lex_le(
                #[trigger] views(res@)[a],
                #[trigger] views(res@)[b],
            ) by {
                if a < pos && b < pos {
                    assert(lex_le(views(old_res)[a], views(old_res)[b]));
                } else if a < pos && b == pos {
                } else if a < pos && b > pos {
                    assert(lex_le(old_res[a]@, x@));
                    assert(lex_lt(x@, old_res[b - 1]@));
                    if old_res[a]@ != x@ {
                        lemma_lex_transitive(old_res[a]@, x@, old_res[b - 1]@);
                    }
                } else if a == pos {
                    assert(lex_lt(x@, old_res[b - 1]@));
                } else {
                    assert(lex_le(views(old_res)[a - 1], views(old_res)[b - 1]));
                }
            }
        }
        i = i + 1;
    }
    assert(keys@.subrange(0, keys.len() as int) =~= keys@);
    res
}

/// The position of the first cell named `column`.
pub fn find_cell_index(cells: &Vec<ScoreCell>, column: &String) -> (r: Option<usize>)
    ensures
        match r {
            Some(i) => i < cells.len() && find_cell(cells@, column@) == Some(cells@[i as int].value),
            None => find_cell(cells@, column@) is None,
        },
{
    let mut i: usize = 0;
    assert(cells@.skip(0) =~= cells@);
    while i < cells.len()
        invariant
            i <= cells.len(),
            find_cell(cells@, column@) == find_cell(cells@.skip(i as int), column@),
        decreases cells.len() - i,
    {
        if cells[i].column == *column {
            return Some(i);
        }
        assert(cells@.skip(i as int).drop_first() =~= cells@.skip(i + 1));
        i = i + 1;
    }
    None
}

/// The score columns of the first category named `category`, or none.
pub fn columns_of(mapping: &Vec<CategoryColumns>, category: &String) -> (r: Vec<String>)
    ensures
        r@ == find_columns(mapping@, category@),
{
    let mut i: usize = 0;
    assert(mapping@.skip(0) =~= mapping@);
    while i < mapping.len()
        invariant
            i <= mapping.len(),
            find_columns(mapping@, category@) == find_columns(mapping@.skip(i as int), category@),
        decreases mapping.len() - i,
    {
        if mapping[i].category == *category {
            return mapping[i].columns.clone();
        }
        assert(mapping@.skip(i as int).drop_first() =~= mapping@.skip(i + 1));
        i = i + 1;
    }
    Vec::new()
}

/// A setting named `key` exists among `settings`.
pub open spec fn has_setting(settings: Seq<Setting>, key: Seq<char>) -> bool {
    exists|j: int| 0 <= j < settings.len() && (#[trigger] settings[j]).key@ == key
}

/// The text of the first setting named `key`, which exists.
pub fn setting_text(settings: &Vec<Setting>, key: &String) -> (r: String)
    requires
        has_setting(settings@, key@),
    ensures
        find_setting(settings@, key@) == Some(r@),
{
    let mut i: usize = 0;
    assert(settings@.skip(0) =~= settings@);
    while i < settings.len()
        invariant
            i <= settings.len(),
            find_setting(settings@, key@) == find_setting(settings@.skip(i as int), key@),
            exists|j: int| i <= j < settings.len() && (#[trigger] settings@[j]).key@ == key@,
        decreases settings.len() - i,
    {
        if settings[i].key == *key {
            return settings[i].text.clone();
        }
        assert(settings@.skip(i as int).drop_first() =~= settings@.skip(i + 1));
        i = i + 1;
    }
    String::new()
}

/// The categories named by the percentage columns of a summary table, in order, each
/// without its `_pct` suffixes.
pub fn categories_from(cols: &Vec<String>) -> (r: Vec<String>)
    ensures
        views(r@) == categories_of(views(cols@)),
{
    let mut res: Vec<String> = Vec::new();
    let mut i: usize = 0;
    proof {
        reveal_strlit("_pct");
        assert("_pct"@ =~= pct_suffix());
    }
    while i < cols.len()
        invariant
            i <= cols.len(),
            "_pct"@ == pct_suffix(),
            views(res@) == categories_of(views(cols@).subrange(0, i as int)),
        decreases cols.len() - i,
    {
        let ghost prefix = views(cols@).subrange(0, i + 1);
        assert(prefix.drop_last() =~= views(cols@).subrange(0, i as int));
        assert(prefix.last() == cols@[i as int]@);
        if ends_with_text(cols[i].as_str(), "_pct") {
            let c = strip_suffixes_text(cols[i].as_str(), "_pct");
            proof {
                assert(views(res@.push(c)) =~= views(res@).push(c@));
            }
            res.push(c);
        }
        i = i + 1;
    }
    assert(views(cols@).subrange(0, cols.len() as int) =~= views(cols@));
    res
}

/// The text that a score editor starts from for a value; see [`edit_text`].
pub fn edit_text_of(v: &CellValue) -> (r: String)
    ensures
        r@ == edit_text(Some(*v)),
{
    match v {
        CellValue::Text(s) => s.clone(),
        CellValue::Integer(t) => t.clone(),
        CellValue::Real(t) => t.clone(),
        CellValue::Other => String::new(),
    }
}

/// A value read as text; see [`text_or_empty`].
pub fn text_or_empty_of(v: &CellValue) -> (r: String)
    ensures
        r@ == text_or_empty(*v),
{
    match v {
        CellValue::Text(s) => s.clone(),
        _ => String::new(),
    }
}

} // verus!
