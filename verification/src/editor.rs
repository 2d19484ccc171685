//! The text fields the dashboard edits values in, backed by `tui_textarea`.

use vstd::prelude::*;
use crate::text::views;

verus! {

/// A one-value text field: a `tui_textarea::TextArea`. Verus sees none of it; the
/// functions below are the only ones that touch it, and the terminal front end draws it
/// from [`LineEditor::drawing_state`].
#[verifier::external_body]
pub struct LineEditor {
    area: tui_textarea::TextArea<'static>,
}

/// The keys of `tui_textarea`. Verus reads the variants, so that a key can be viewed as
/// a [`KeyView`].
#[verifier::external_type_specification]
pub struct ExKey(tui_textarea::Key);

/// A backend-neutral key input of `tui_textarea`: its key and its Ctrl, Alt and Shift
/// modifiers. Verus reads the fields, so that an input can be viewed as an [`InputView`].
#[verifier::external_type_specification]
pub struct ExInput(tui_textarea::Input);

/// A key that a text field reads.
pub enum KeyView {
    Char(char),
    F(u8),
    Backspace,
    Enter,
    Left,
    Right,
    Up,
    Down,
    Tab,
    Delete,
    Home,
    End,
    PageUp,
    PageDown,
    Esc,
    Copy,
    Cut,
    Paste,
    MouseScrollDown,
    MouseScrollUp,
    Null,
}

/// A key input that a text field reads: the key and whether Ctrl, Alt and Shift were held.
pub struct InputView {
    pub key: KeyView,
    pub ctrl: bool,
    pub alt: bool,
    pub shift: bool,
}

/// A key of `tui_textarea` as a plain value.
pub open spec fn key_view(k: tui_textarea::Key) -> KeyView {
    match k {
        tui_textarea::Key::Char(c) => KeyView::Char(c),
        tui_textarea::Key::F(n) => KeyView::F(n),
        tui_textarea::Key::Backspace => KeyView::Backspace,
        tui_textarea::Key::Enter => KeyView::Enter,
        tui_textarea::Key::Left => KeyView::Left,
        tui_textarea::Key::Right => KeyView::Right,
        tui_textarea::Key::Up => KeyView::Up,
        tui_textarea::Key::Down => KeyView::Down,
        tui_textarea::Key::Tab => KeyView::Tab,
        tui_textarea::Key::Delete => KeyView::Delete,
        tui_textarea::Key::Home => KeyView::Home,
        tui_textarea::Key::End => KeyView::End,
        tui_textarea::Key::PageUp => KeyView::PageUp,
        tui_textarea::Key::PageDown => KeyView::PageDown,
        tui_textarea::Key::Esc => KeyView::Esc,
        tui_textarea::Key::Copy => KeyView::Copy,
        tui_textarea::Key::Cut => KeyView::Cut,
        tui_textarea::Key::Paste => KeyView::Paste,
        tui_textarea::Key::MouseScrollDown => KeyView::MouseScrollDown,
        tui_textarea::Key::MouseScrollUp => KeyView::MouseScrollUp,
        _ => KeyView::Null,
    }
}

/// A key input of `tui_textarea` as a plain value.
pub open spec fn input_view(i: tui_textarea::Input) -> InputView {
    InputView { key: key_view(i.key), ctrl: i.ctrl, alt: i.alt, shift: i.shift }
}

/// The lines of text that an editor holds.
pub uninterp spec fn editor_lines(ta: LineEditor) -> Seq<Seq<char>>;

/// The lines of text that an editor holds after it has read a key input, by the key
/// bindings of `TextArea::input`. What they are depends on the whole editor (its text,
/// cursor, selection, yank buffer and history) and on the input alone.
pub uninterp spec fn typed_lines(ta: LineEditor, input: InputView) -> Seq<Seq<char>>;

/// Calls `TextArea::new` on a single line. `new` keeps the lines it is given (it adds an
/// empty line only to an empty vector).
#[verifier::external_body]
fn editor_with_line(text: String) -> (ta: LineEditor)
    ensures
        editor_lines(ta) == seq![text@],
{
    LineEditor { area: tui_textarea::TextArea::new(vec![text]) }
}

/// Calls `TextArea::move_cursor(CursorMove::End)`, which moves the cursor to the end of
/// its line and leaves the text as it is. Where the cursor stands is not stated.
#[verifier::external_body]
fn editor_cursor_to_end(ta: &mut LineEditor)
    ensures
        editor_lines(*final(ta)) == editor_lines(*old(ta)),
{
    ta.area.move_cursor(tui_textarea::CursorMove::End);
}

/// A text field that holds `text`, with the cursor at its end.
pub(crate) fn new_editor(text: String) -> (ta: LineEditor)
    ensures
        editor_lines(ta) == seq![text@],
{
    let mut ta = editor_with_line(text);
    editor_cursor_to_end(&mut ta);
    ta
}

/// Calls `TextArea::lines` and clones the first line. Every editing operation of
/// `tui_textarea` keeps at least one line, so the first one exists.
#[verifier::external_body]
pub(crate) fn editor_first_line(ta: &LineEditor) -> (line: String)
    requires
        editor_lines(*ta).len() >= 1,
    ensures
        line@ == editor_lines(*ta)[0],
{
    ta.area.lines()[0].clone()
}

/// Calls `TextArea::input`, which edits the editor by the default key bindings of
/// `tui_textarea`: a deterministic function of the editor and the input, named
/// `typed_lines` for the lines it leaves. Every edit keeps at least one line.
#[verifier::external_body]
pub(crate) fn editor_input(ta: &mut LineEditor, input: tui_textarea::Input)
    requires
        editor_lines(*old(ta)).len() >= 1,
    ensures
        editor_lines(*final(ta)) == typed_lines(*old(ta), input_view(input)),
        editor_lines(*final(ta)).len() >= 1,
{
    ta.area.input(input);
}

/// Calls `TextArea::lines` and clones every line.
#[verifier::external_body]
fn editor_all_lines(ta: &LineEditor) -> (lines: Vec<String>)
    ensures
        views(lines@) == editor_lines(*ta),
{
    ta.area.lines().to_vec()
}

/// Calls `TextArea::cursor`: the row and the character column of the cursor. Nothing is
/// stated of them.
#[verifier::external_body]
fn editor_cursor(ta: &LineEditor) -> (cursor: (usize, usize)) {
    ta.area.cursor()
}

impl LineEditor {
    /// What a field shows: its lines and the position (row, character column) of its
    /// cursor. The field itself cannot be changed through it.
    pub fn drawing_state(&self) -> (r: (Vec<String>, (usize, usize)))
        ensures
            views(r.0@) == editor_lines(*self),
    {
        (editor_all_lines(self), editor_cursor(self))
    }
}

} // verus!
