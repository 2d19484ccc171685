//! The colour theme: its default palette and how a theme file overrides it.

use vstd::prelude::*;
use vstd::string::*;
use vstd::utf8::encode_utf8;

verus! {

/// A terminal colour: an entry of the 256-colour palette, or red, green and blue.
#[derive(Clone, Copy, Debug, PartialEq, Eq, Structural)]
pub enum Color {
    Indexed(u8),
    Rgb(u8, u8, u8),
}

/// The colours of the interface.
#[derive(Clone, Copy, Debug, PartialEq, Eq, Structural)]
pub struct Theme {
    pub bg: Color,
    pub fg: Color,
    pub panel_bg: Color,
    pub border: Color,
    pub border_focus: Color,
    pub active_tab: Color,
    pub inactive_tab: Color,
    pub warning: Color,
    pub success: Color,
    pub info: Color,
    pub highlight: Color,
    pub key_accent: Color,
    pub purple: Color,
    pub alt_row: Color,
    pub title: Color,
    pub grade_a: Color,
    pub grade_bplus: Color,
    pub grade_b: Color,
    pub grade_cplus: Color,
    pub grade_c: Color,
    pub grade_dplus: Color,
    pub grade_d: Color,
    pub grade_f: Color,
}

/// A colour as a theme file writes it: a palette number, a `#rrggbb` text, a list of
/// three numbers, or something else. A number is kept as it reads as a `u64`, and is
/// absent when it does not (a negative or fractional number).
#[derive(Clone, Debug)]
pub enum ColorValue {
    Number(Option<u64>),
    Text(String),
    List(Vec<Option<u64>>),
    Other,
}

/// A colour that a theme file sets for the theme entry named `key`.
#[derive(Clone, Debug)]
pub struct ColorOverride {
    pub key: String,
    pub value: ColorValue,
}

/// The Monokai Pro palette.
pub fn monokai_pro() -> (t: Theme)
    ensures
        t == monokai_pro_spec(),
{
    Theme {
        bg: Color::Indexed(235),
        fg: Color::Indexed(252),
        panel_bg: Color::Indexed(233),
        border: Color::Indexed(243),
        border_focus: Color::Indexed(197),
        active_tab: Color::Indexed(81),
        inactive_tab: Color::Indexed(243),
        warning: Color::Indexed(208),
        success: Color::Indexed(114),
        info: Color::Indexed(81),
        highlight: Color::Indexed(237),
        key_accent: Color::Indexed(221),
        purple: Color::Indexed(141),
        alt_row: Color::Indexed(234),
        title: Color::Indexed(197),
        grade_a: Color::Indexed(33),
        grade_bplus: Color::Indexed(37),
        grade_b: Color::Indexed(82),
        grade_cplus: Color::Indexed(154),
        grade_c: Color::Indexed(226),
        grade_dplus: Color::Indexed(214),
        grade_d: Color::Indexed(208),
        grade_f: Color::Indexed(160),
    }
}

/// The Monokai Pro palette.
pub open spec fn monokai_pro_spec() -> Theme {
    Theme {
        bg: Color::Indexed(235),
        fg: Color::Indexed(252),
        panel_bg: Color::Indexed(233),
        border: Color::Indexed(243),
        border_focus: Color::Indexed(197),
        active_tab: Color::Indexed(81),
        inactive_tab: Color::Indexed(243),
        warning: Color::Indexed(208),
        success: Color::Indexed(114),
        info: Color::Indexed(81),
        highlight: Color::Indexed(237),
        key_accent: Color::Indexed(221),
        purple: Color::Indexed(141),
        alt_row: Color::Indexed(234),
        title: Color::Indexed(197),
        grade_a: Color::Indexed(33),
        grade_bplus: Color::Indexed(37),
        grade_b: Color::Indexed(82),
        grade_cplus: Color::Indexed(154),
        grade_c: Color::Indexed(226),
        grade_dplus: Color::Indexed(214),
        grade_d: Color::Indexed(208),
        grade_f: Color::Indexed(160),
    }
}

// ---------------------------------------------------------------------------
// Reading colours
// ---------------------------------------------------------------------------

/// The value of a hexadecimal digit byte.
pub open spec fn hex_digit(b: u8) -> Option<int> {
    if 48 <= b <= 57 {
        Some(b - 48)
    } else if 97 <= b <= 102 {
        Some(b - 87)
    } else if 65 <= b <= 70 {
        Some(b - 55)
    } else {
        None
    }
}

/// Two bytes read as an unsigned hexadecimal number, as `u8::from_str_radix(_, 16)`
/// reads them: an optional `+` sign, then digits only.
pub open spec fn hex_pair(b0: u8, b1: u8) -> Option<u8> {
    if b0 == 43 {
        match hex_digit(b1) {
            Some(d) => Some(d as u8),
            None => None,
        }
    } else {
        match (hex_digit(b0), hex_digit(b1)) {
            (Some(h), Some(l)) => Some((16 * h + l) as u8),
            _ => None,
        }
    }
}

/// Whether the UTF-8 bytes of a text have the shape `#` and six more bytes.
pub open spec fn hex_shaped(bytes: Seq<u8>) -> bool {
    bytes.len() == 7 && bytes[0] == 35
}

/// The colour a `#rrggbb` text stands for.
pub open spec fn text_color(b: Seq<u8>) -> Option<Color> {
    if hex_shaped(b) {
        match (hex_pair(b[1], b[2]), hex_pair(b[3], b[4]), hex_pair(b[5], b[6])) {
            (Some(r), Some(g), Some(bl)) => Some(Color::Rgb(r, g, bl)),
            _ => None,
        }
    } else {
        None
    }
}

/// The colour a theme file value stands for: a palette number up to 255, a `#rrggbb`
/// text, or a list of three numbers (each taken modulo 256).
pub open spec fn color_of(v: ColorValue) -> Option<Color> {
    match v {
        ColorValue::Number(n) => match n {
            Some(i) => if i <= 255 {
                Some(Color::Indexed(i as u8))
            } else {
                None
            },
            None => None,
        },
        ColorValue::Text(s) => text_color(encode_utf8(s@)),
        ColorValue::List(items) => if items.len() == 3 {
            match (items@[0], items@[1], items@[2]) {
                (Some(r), Some(g), Some(b)) => Some(
                    Color::Rgb((r % 256) as u8, (g % 256) as u8, (b % 256) as u8),
                ),
                _ => None,
            }
        } else {
            None
        },
        ColorValue::Other => None,
    }
}

/// Reads a hexadecimal digit byte.
fn hex_digit_exec(b: u8) -> (r: Option<u8>)
    ensures
        match hex_digit(b) {
            Some(d) => r == Some(d as u8),
            None => r is None,
        },
{
    if 48 <= b && b <= 57 {
        Some(b - 48)
    } else if 97 <= b && b <= 102 {
        Some(b - 87)
    } else if 65 <= b && b <= 70 {
        Some(b - 55)
    } else {
        None
    }
}

/// Reads two bytes as an unsigned hexadecimal number with an optional `+` sign.
fn hex_pair_exec(b0: u8, b1: u8) -> (r: Option<u8>)
    ensures
        r == hex_pair(b0, b1),
{
    if b0 == 43 {
        hex_digit_exec(b1)
    } else {
        match (hex_digit_exec(b0), hex_digit_exec(b1)) {
            (Some(h), Some(l)) => {
                assert(16 * h + l < 256);
                Some(16 * h + l)
            },
            _ => None,
        }
    }
}

/// The colour that a theme file value stands for; see [`color_of`].
pub fn parse_json_color(v: &ColorValue) -> (r: Option<Color>)
    ensures
        r == color_of(*v),
{
    match v {
        ColorValue::Number(n) => match n {
            Some(i) => if *i <= 255 {
                Some(Color::Indexed(*i as u8))
            } else {
                None
            },
            None => None,
        },
        ColorValue::Text(s) => {
            let b = s.as_str().as_bytes();
            if b.len() == 7 && b[0] == 35 {
                let r = match hex_pair_exec(b[1], b[2]) {
                    Some(x) => x,
                    None => {
                        return None;
                    },
                };
                let g = match hex_pair_exec(b[3], b[4]) {
                    Some(x) => x,
                    None => {
                        return None;
                    },
                };
                let bl = match hex_pair_exec(b[5], b[6]) {
                    Some(x) => x,
                    None => {
                        return None;
                    },
                };
                Some(Color::Rgb(r, g, bl))
            } else {
                None
            }
        },
        ColorValue::List(items) => {
            if items.len() == 3 {
                match (items[0], items[1], items[2]) {
                    (Some(r), Some(g), Some(b)) => Some(
                        Color::Rgb((r % 256) as u8, (g % 256) as u8, (b % 256) as u8),
                    ),
                    _ => None,
                }
            } else {
                None
            }
        },
        ColorValue::Other => None,
    }
}

// ---------------------------------------------------------------------------
// Overriding the theme
// ---------------------------------------------------------------------------

/// The value of the first override for `key`.
pub open spec fn find_override(entries: Seq<ColorOverride>, key: Seq<char>) -> Option<ColorValue>
    decreases entries.len(),
{
    if entries.len() == 0 {
        None
    } else if entries[0].key@ == key {
        Some(entries[0].value)
    } else {
        find_override(entries.drop_first(), key)
    }
}

/// `c` overridden by the first entry for `key`, when that entry reads as a colour.
pub open spec fn overridden(c: Color, entries: Seq<ColorOverride>, key: Seq<char>) -> Color {
    match find_override(entries, key) {
        Some(v) => match color_of(v) {
            Some(x) => x,
            None => c,
        },
        None => c,
    }
}

/// The names of the theme entries a theme file can set.
pub open spec fn theme_keys() -> Seq<Seq<char>> {
    seq![
        "bg"@, "fg"@, "panel_bg"@, "border"@, "border_focus"@, "active_tab"@,
        "inactive_tab"@, "warning"@, "success"@, "info"@, "highlight"@, "key_accent"@,
        "purple"@, "alt_row"@, "title"@, "grade_a"@, "grade_bplus"@, "grade_b"@,
        "grade_cplus"@, "grade_c"@, "grade_dplus"@, "grade_d"@, "grade_f"@,
    ]
}

/// `t` with each entry overridden by the theme file's colour for it.
pub open spec fn theme_overridden(t: Theme, e: Seq<ColorOverride>) -> Theme {
    Theme {
        bg: overridden(t.bg, e, "bg"@),
        fg: overridden(t.fg, e, "fg"@),
        panel_bg: overridden(t.panel_bg, e, "panel_bg"@),
        border: overridden(t.border, e, "border"@),
        border_focus: overridden(t.border_focus, e, "border_focus"@),
        active_tab: overridden(t.active_tab, e, "active_tab"@),
        inactive_tab: overridden(t.inactive_tab, e, "inactive_tab"@),
        warning: overridden(t.warning, e, "warning"@),
        success: overridden(t.success, e, "success"@),
        info: overridden(t.info, e, "info"@),
        highlight: overridden(t.highlight, e, "highlight"@),
        key_accent: overridden(t.key_accent, e, "key_accent"@),
        purple: overridden(t.purple, e, "purple"@),
        alt_row: overridden(t.alt_row, e, "alt_row"@),
        title: overridden(t.title, e, "title"@),
        grade_a: overridden(t.grade_a, e, "grade_a"@),
        grade_bplus: overridden(t.grade_bplus, e, "grade_bplus"@),
        grade_b: overridden(t.grade_b, e, "grade_b"@),
        grade_cplus: overridden(t.grade_cplus, e, "grade_cplus"@),
        grade_c: overridden(t.grade_c, e, "grade_c"@),
        grade_dplus: overridden(t.grade_dplus, e, "grade_dplus"@),
        grade_d: overridden(t.grade_d, e, "grade_d"@),
        grade_f: overridden(t.grade_f, e, "grade_f"@),
    }
}

/// The position of the first override for `key`.
fn find_override_index(entries: &Vec<ColorOverride>, key: &str) -> (r: Option<usize>)
    ensures
        match r {
            Some(i) => i < entries.len() && find_override(entries@, key@) == Some(
                entries@[i as int].value,
            ),
            None => find_override(entries@, key@) is None,
        },
{
    let wanted = String::from_str(key);
    let mut i: usize = 0;
    assert(entries@.skip(0) =~= entries@);
    while i < entries.len()
        invariant
            i <= entries.len(),
            wanted@ == key@,
            find_override(entries@, key@) == find_override(entries@.skip(i as int), key@),
        decreases entries.len() - i,
    {
        if entries[i].key == wanted {
            return Some(i);
        }
        assert(entries@.skip(i as int).drop_first() =~= entries@.skip(i + 1));
        i = i + 1;
    }
    None
}

/// The colour of the first override for `key` that reads as one.
fn override_for(entries: &Vec<ColorOverride>, key: &str, current: Color) -> (r: Color)
    ensures
        r == overridden(current, entries@, key@),
{
    match find_override_index(entries, key) {
        Some(i) => match parse_json_color(&entries[i].value) {
            Some(c) => c,
            None => current,
        },
        None => current,
    }
}

impl Theme {
    /// Overrides each entry of the theme for which a theme file gives a colour; values that
    /// do not read as colours leave their entry as it is.
    pub fn apply_overrides(&mut self, entries: &Vec<ColorOverride>)
        ensures
            *final(self) == theme_overridden(*old(self), entries@),
    {
        self.bg = override_for(entries, "bg", self.bg);
        self.fg = override_for(entries, "fg", self.fg);
        self.panel_bg = override_for(entries, "panel_bg", self.panel_bg);
        self.border = override_for(entries, "border", self.border);
        self.border_focus = override_for(entries, "border_focus", self.border_focus);
        self.active_tab = override_for(entries, "active_tab", self.active_tab);
        self.inactive_tab = override_for(entries, "inactive_tab", self.inactive_tab);
        self.warning = override_for(entries, "warning", self.warning);
        self.success = override_for(entries, "success", self.success);
        self.info = override_for(entries, "info", self.info);
        self.highlight = override_for(entries, "highlight", self.highlight);
        self.key_accent = override_for(entries, "key_accent", self.key_accent);
        self.purple = override_for(entries, "purple", self.purple);
        self.alt_row = override_for(entries, "alt_row", self.alt_row);
        self.title = override_for(entries, "title", self.title);
        self.grade_a = override_for(entries, "grade_a", self.grade_a);
        self.grade_bplus = override_for(entries, "grade_bplus", self.grade_bplus);
        self.grade_b = override_for(entries, "grade_b", self.grade_b);
        self.grade_cplus = override_for(entries, "grade_cplus", self.grade_cplus);
        self.grade_c = override_for(entries, "grade_c", self.grade_c);
        self.grade_dplus = override_for(entries, "grade_dplus", self.grade_dplus);
        self.grade_d = override_for(entries, "grade_d", self.grade_d);
        self.grade_f = override_for(entries, "grade_f", self.grade_f);
    }
}

// ---------------------------------------------------------------------------
// Reading a theme file
// ---------------------------------------------------------------------------

/// The entries of a theme file's text as `serde_json` reads them: each member of the
/// JSON object, its name and its value as a [`ColorValue`]; none when the text is not
/// JSON or not an object.
pub uninterp spec fn theme_file_entries(text: Seq<char>) -> Option<Seq<ColorOverride>>;

/// Calls `serde_json::from_str` for a `serde_json::Value` and, for an object, converts
/// each member one for one: a number by `as_u64`, a string, an array by `as_u64` on each
/// item, anything else as `Other`. What it reads is named `theme_file_entries`.
#[verifier::external_body]
fn read_theme_entries(text: &str) -> (r: Option<Vec<ColorOverride>>)
    ensures
        match r {
            Some(v) => theme_file_entries(text@) == Some(v@),
            None => theme_file_entries(text@) is None,
        },
{
    match serde_json::from_str::<serde_json::Value>(text) {
        Ok(serde_json::Value::Object(m)) => Some(m.iter().map(|(k, v)| ColorOverride {
            key: k.clone(),
            value: match v {
                serde_json::Value::Number(n) => ColorValue::Number(n.as_u64()),
                serde_json::Value::String(s) => ColorValue::Text(s.clone()),
                serde_json::Value::Array(a) => ColorValue::List(a.iter().map(|x| x.as_u64()).collect()),
                _ => ColorValue::Other,
            },
        }).collect()),
        _ => None,
    }
}

/// The theme a theme file's text gives: the Monokai Pro palette with each entry
/// overridden by the file's colour for it, where it has one that reads as a colour; none
/// when the text is not a JSON object.
pub fn theme_from_text(text: &str) -> (r: Option<Theme>)
    ensures
        match theme_file_entries(text@) {
            Some(e) => r == Some(theme_overridden(monokai_pro_spec(), e)),
            None => r is None,
        },
{
    match read_theme_entries(text) {
        Some(entries) => {
            let mut t = monokai_pro();
            t.apply_overrides(&entries);
            Some(t)
        },
        None => None,
    }
}

} // verus!
