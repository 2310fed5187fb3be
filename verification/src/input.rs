//! The single-line text inputs, held as `ratatui_textarea::TextArea` values.
use vstd::prelude::*;
use ratatui_textarea::TextArea;
use crate::text::{trimmed_spec, trimmed_text};
use crate::warpgate::opt_view;

verus! {

/// A single-line text input. Verus does not read the text area inside; the names below say
/// what it holds. The text area is public so that the terminal front end can style and draw it.
#[verifier::external_body]
pub struct TextInput {
    pub text_area: TextArea<'static>,
}

/// The lines of text a text area holds.
pub uninterp spec fn text_area_lines(t: TextInput) -> Seq<Seq<char>>;

/// The cursor of a text area: a line index and a character position within that line.
pub uninterp spec fn text_area_cursor(t: TextInput) -> (nat, nat);

/// Where an ongoing selection started, if one is ongoing.
pub uninterp spec fn text_area_selection(t: TextInput) -> Option<(nat, nat)>;

/// A text area always holds a line and its cursor always sits within the text.
pub open spec fn text_area_wf(t: TextInput) -> bool {
    let lines = text_area_lines(t);
    let (row, col) = text_area_cursor(t);
    &&& lines.len() >= 1
    &&& row < lines.len()
    &&& col <= lines[row as int].len()
}

/// The first line of a text area, or the empty text where it has none.
pub open spec fn first_line_spec(lines: Seq<Seq<char>>) -> Seq<char> {
    if lines.len() > 0 {
        lines[0]
    } else {
        Seq::empty()
    }
}

/// Where `select_all` leaves the cursor: the end of the text, as far as a jump to the
/// position `(u16::MAX, u16::MAX)` reaches.
pub open spec fn select_all_cursor(lines: Seq<Seq<char>>) -> (nat, nat) {
    let row: nat = if lines.len() - 1 <= 65535 { (lines.len() - 1) as nat } else { 65535 };
    let len = lines[row as int].len();
    let col: nat = if len <= 65535 { len } else { 65535 };
    (row, col)
}

/// `line` with `c` inserted before the character at `col`.
pub open spec fn insert_char_spec(line: Seq<char>, col: nat, c: char) -> Seq<char> {
    line.subrange(0, col as int).push(c) + line.subrange(col as int, line.len() as int)
}

/// `line` without the character just before `col`.
pub open spec fn remove_before_spec(line: Seq<char>, col: nat) -> Seq<char> {
    line.subrange(0, col - 1) + line.subrange(col as int, line.len() as int)
}

/// A key that edits or moves within a text input.
#[derive(Clone, Copy, Debug, PartialEq, Eq)]
pub enum EditKey {
    Char(char),
    Left,
    Right,
    Backspace,
}

/// Whether the text area wraps long lines (`TextArea::wrap_mode` other than `WrapMode::None`).
pub uninterp spec fn text_area_wraps(t: TextInput) -> bool;

/// The character a text area draws in place of each character of its text, if any
/// (`TextArea::mask_char`).
pub uninterp spec fn text_area_mask(t: TextInput) -> Option<char>;

/// A character drawn one column wide (printable ASCII), or a tab.
pub open spec fn plain_char(c: char) -> bool {
    (' ' <= c && c <= '~') || c == '\t'
}

/// The text area draws every character of its text at least one column wide and does not wrap,
/// so that its screen positions follow its character positions. A mask draws every character
/// as the mask, which here is printable ASCII or `●`, one column wide.
pub open spec fn plain_layout(t: TextInput) -> bool {
    let lines = text_area_lines(t);
    &&& !text_area_wraps(t)
    &&& match text_area_mask(t) {
        Some(m) => (' ' <= m && m <= '~') || m == '\u{25CF}',
        None => forall|r: int, i: int| 0 <= r < lines.len() && 0 <= i < lines[r].len()
            ==> plain_char(#[trigger] lines[r][i]),
    }
}

/// Where one step back (`forward` false) or forward moves the cursor: along the line, or across
/// to the end of the previous line or the start of the next; `None` at the very start or end.
pub open spec fn stepped_cursor(lines: Seq<Seq<char>>, cursor: (nat, nat), forward: bool) -> Option<(nat, nat)> {
    let (row, col) = cursor;
    if forward {
        if col < lines[row as int].len() {
            Some((row, col + 1))
        } else if row + 1 < lines.len() {
            Some(((row + 1) as nat, 0nat))
        } else {
            None
        }
    } else {
        if col > 0 {
            Some((row, (col - 1) as nat))
        } else if row > 0 {
            Some(((row - 1) as nat, lines[row - 1].len()))
        } else {
            None
        }
    }
}

/// The characters that the text area's key map binds when typed with Alt (and without
/// Control): word and paragraph moves, word deletions, jumps to the top or bottom, and a page
/// up.
pub open spec fn alt_bound_char(c: char) -> bool {
    c == 'h' || c == 'd' || c == '<' || c == '>' || c == 'f' || c == 'b' || c == ']' || c == 'n'
        || c == '[' || c == 'p' || c == 'v'
}

/// `lines` with line `p.0` broken in two before position `p`.
pub open spec fn split_line(lines: Seq<Seq<char>>, p: (nat, nat)) -> Seq<Seq<char>> {
    let line = lines[p.0 as int];
    lines.subrange(0, p.0 as int) + seq![line.subrange(0, p.1 as int), line.subrange(p.1 as int, line.len() as int)]
        + lines.subrange(p.0 as int + 1, lines.len() as int)
}

/// Position `a` comes before position `b` in the text.
pub open spec fn pos_before(a: (nat, nat), b: (nat, nat)) -> bool {
    a.0 < b.0 || (a.0 == b.0 && a.1 < b.1)
}

/// Position `p` lies within the text.
pub open spec fn within_text(lines: Seq<Seq<char>>, p: (nat, nat)) -> bool {
    p.0 < lines.len() && p.1 <= lines[p.0 as int].len()
}

/// No text is selected: no selection is ongoing, or it starts where the cursor is.
pub open spec fn no_selected_text(t: TextInput) -> bool {
    match text_area_selection(t) {
        Some(s) => s == text_area_cursor(t),
        None => true,
    }
}

/// The selected text, from its first position to the one after its last, where a selection
/// that starts within the text covers any.
pub open spec fn selected_span(t: TextInput) -> Option<((nat, nat), (nat, nat))> {
    let cursor = text_area_cursor(t);
    match text_area_selection(t) {
        Some(s) => if s != cursor && within_text(text_area_lines(t), s) {
            if pos_before(s, cursor) { Some((s, cursor)) } else { Some((cursor, s)) }
        } else {
            None
        },
        None => None,
    }
}

/// `lines` with the text from `s` up to `e` removed: the part of line `s.0` before `s` joined
/// to the part of line `e.0` from `e`.
pub open spec fn delete_span(lines: Seq<Seq<char>>, s: (nat, nat), e: (nat, nat)) -> Seq<Seq<char>> {
    let joined = lines[s.0 as int].subrange(0, s.1 as int) + lines[e.0 as int].subrange(e.1 as int, lines[e.0 as int].len() as int);
    lines.subrange(0, s.0 as int) + seq![joined] + lines.subrange(e.0 as int + 1, lines.len() as int)
}

/// The whole text is selected: the selection starts at the very beginning and the cursor sits
/// at the very end.
pub open spec fn whole_text_selected(t: TextInput) -> bool {
    let lines = text_area_lines(t);
    &&& text_area_selection(t) == Some((0nat, 0nat))
    &&& text_area_cursor(t) == ((lines.len() - 1) as nat, lines[lines.len() - 1].len())
}

/// With the whole text selected, either there is no text (and so nothing selected), or the
/// selected span is all of it, and removing it leaves one empty line.
pub proof fn lemma_whole_text_span(t: TextInput)
    requires
        text_area_wf(t),
        whole_text_selected(t),
    ensures
        no_selected_text(t) ==> text_area_lines(t) == seq![Seq::<char>::empty()] && text_area_cursor(t) == (0nat, 0nat),
        !no_selected_text(t) ==> selected_span(t) == Some(((0nat, 0nat), text_area_cursor(t)))
            && delete_span(text_area_lines(t), (0nat, 0nat), text_area_cursor(t)) == seq![Seq::<char>::empty()],
{
    let lines = text_area_lines(t);
    let last = lines.len() - 1;
    if no_selected_text(t) {
        assert(lines.len() == 1);
        assert(lines[0].len() == 0);
        assert(lines[0] =~= Seq::<char>::empty());
        assert(lines =~= seq![Seq::<char>::empty()]);
    } else {
        let d = delete_span(lines, (0nat, 0nat), text_area_cursor(t));
        assert(lines[last].subrange(lines[last].len() as int, lines[last].len() as int) =~= Seq::<char>::empty());
        assert(lines[0].subrange(0, 0) =~= Seq::<char>::empty());
        assert(lines.subrange(0, 0) =~= Seq::<Seq<char>>::empty());
        assert(lines.subrange(last + 1, lines.len() as int) =~= Seq::<Seq<char>>::empty());
        assert(d =~= seq![Seq::<char>::empty()]);
    }
}

/// What `TextArea::input` does with a key, as far as this library relies on it.
pub open spec fn text_input_effect(
    old: TextInput,
    new: TextInput,
    key: EditKey,
    ctrl: bool,
    alt: bool,
    shift: bool,
) -> bool {
    let lines = text_area_lines(old);
    let (row, col) = text_area_cursor(old);
    &&& text_area_wf(new)
    &&& text_area_wraps(new) == text_area_wraps(old)
    &&& text_area_mask(new) == text_area_mask(old)
    &&& (key is Left || key is Right) ==> text_area_lines(new) == lines
    &&& ((key is Left || key is Right) && !ctrl && !alt && plain_layout(old)) ==> match stepped_cursor(lines, (row, col), key is Right) {
        Some(p) => {
            &&& text_area_cursor(new) == p
            &&& text_area_selection(new) == if shift {
                if text_area_selection(old) is None { Some((row, col)) } else { text_area_selection(old) }
            } else {
                None
            }
        },
        None => {
            &&& text_area_cursor(new) == (row, col)
            &&& text_area_selection(new) == text_area_selection(old)
        },
    }
    &&& ((key is Left || key is Right) && alt && !ctrl) ==> {
        &&& text_area_cursor(new) == (row, col)
        &&& text_area_selection(new) == text_area_selection(old)
    }
    &&& key matches EditKey::Char(c) ==> ((alt && !ctrl && !alt_bound_char(c)) ==> {
        &&& text_area_lines(new) == lines
        &&& text_area_cursor(new) == (row, col)
        &&& text_area_selection(new) == text_area_selection(old)
    })
    &&& key matches EditKey::Char(c) ==> (
        (!ctrl && !alt && (c == '\n' || c == '\r') && no_selected_text(old)) ==> {
            &&& text_area_lines(new) == split_line(lines, (row, col))
            &&& text_area_cursor(new) == ((row + 1) as nat, 0nat)
            &&& text_area_selection(new) is None
        })
    &&& key matches EditKey::Char(c) ==> (
        (!ctrl && !alt && c != '\n' && c != '\r' && no_selected_text(old)) ==> {
            &&& text_area_lines(new) == lines.update(row as int, insert_char_spec(lines[row as int], col, c))
            &&& text_area_cursor(new) == (row, col + 1)
            &&& text_area_selection(new) is None
        })
    &&& (key is Backspace && !ctrl && !alt && no_selected_text(old) && col > 0) ==> {
        &&& text_area_lines(new) == lines.update(row as int, remove_before_spec(lines[row as int], col))
        &&& text_area_cursor(new) == (row, (col - 1) as nat)
        &&& text_area_selection(new) is None
    }
    &&& (key is Backspace && !ctrl && !alt && no_selected_text(old) && col == 0 && row == 0)
        ==> {
        &&& text_area_lines(new) == lines
        &&& text_area_cursor(new) == (row, col)
        &&& text_area_selection(new) is None
    }
    &&& selected_span(old) matches Some(span) ==> ((!ctrl && !alt) ==> {
        let d = delete_span(lines, span.0, span.1);
        &&& key matches EditKey::Char(c) ==> ((c == '\n' || c == '\r') ==> {
            &&& text_area_lines(new) == split_line(d, span.0)
            &&& text_area_cursor(new) == ((span.0.0 + 1) as nat, 0nat)
            &&& text_area_selection(new) is None
        })
        &&& key matches EditKey::Char(c) ==> ((c != '\n' && c != '\r') ==> {
            &&& text_area_lines(new) == d.update(span.0.0 as int, insert_char_spec(d[span.0.0 as int], span.0.1, c))
            &&& text_area_cursor(new) == (span.0.0, span.0.1 + 1)
            &&& text_area_selection(new) is None
        })
        &&& key is Backspace ==> {
            &&& text_area_lines(new) == d
            &&& text_area_cursor(new) == span.0
            &&& text_area_selection(new) is None
        }
    })
}

/// Calls `TextArea::new` with the one line `value`: the text area holds that line, with the
/// cursor at its start and nothing selected; it does not wrap and has no mask.
#[verifier::external_body]
pub(crate) fn new_text_area(value: &str) -> (t: TextInput)
    ensures
        text_area_lines(t) == seq![value@],
        text_area_cursor(t) == (0nat, 0nat),
        text_area_selection(t) is None,
        !text_area_wraps(t),
        text_area_mask(t) is None,
{
    TextInput { text_area: TextArea::new(vec![value.to_string()]) }
}

/// Calls `TextArea::set_mask_char`: from now on the text area draws `mask` in place of each
/// character; the text, the cursor, the selection and the wrapping stay as they were.
#[verifier::external_body]
pub(crate) fn set_mask(text_area: &mut TextInput, mask: char)
    requires
        text_area_wf(*old(text_area)),
    ensures
        text_area_wf(*final(text_area)),
        text_area_mask(*final(text_area)) == Some(mask),
        text_area_lines(*final(text_area)) == text_area_lines(*old(text_area)),
        text_area_cursor(*final(text_area)) == text_area_cursor(*old(text_area)),
        text_area_selection(*final(text_area)) == text_area_selection(*old(text_area)),
        text_area_wraps(*final(text_area)) == text_area_wraps(*old(text_area)),
{
    text_area.text_area.set_mask_char(mask);
}

/// Calls `TextArea::lines` and takes the first line, or the empty string where there is none.
#[verifier::external_body]
pub fn first_line(text_area: &TextInput) -> (line: String)
    ensures
        line@ == first_line_spec(text_area_lines(*text_area)),
{
    text_area.text_area.lines().first().map_or(String::new(), |line| line.clone())
}

/// The trimmed first line of a single-line input, or `None` where the user left it blank.
pub fn trimmed_line(text_area: &TextInput) -> (r: Option<String>)
    ensures
        opt_view(r) == trimmed_spec(first_line_spec(text_area_lines(*text_area))),
{
    let line = first_line(text_area);
    trimmed_text(line.as_str())
}

/// Calls `TextArea::select_all`: the text stays, the selection starts at the very beginning and
/// the cursor jumps to the end, clamped to `u16::MAX` lines and columns.
#[verifier::external_body]
pub(crate) fn text_area_select_all(text_area: &mut TextInput)
    requires
        text_area_wf(*old(text_area)),
    ensures
        text_area_wf(*final(text_area)),
        text_area_wraps(*final(text_area)) == text_area_wraps(*old(text_area)),
        text_area_mask(*final(text_area)) == text_area_mask(*old(text_area)),
        text_area_lines(*final(text_area)) == text_area_lines(*old(text_area)),
        text_area_selection(*final(text_area)) == Some((0nat, 0nat)),
        text_area_cursor(*final(text_area)) == select_all_cursor(text_area_lines(*old(text_area))),
{
    text_area.text_area.select_all()
}

/// Calls `TextArea::cut`: the selection ends, and the selected text, if any, is removed, with
/// the cursor left where it started. Without selected text nothing else changes. A selection
/// that starts outside the text removes text in a way not stated here.
#[verifier::external_body]
pub(crate) fn text_area_cut(text_area: &mut TextInput)
    requires
        text_area_wf(*old(text_area)),
    ensures
        text_area_wf(*final(text_area)),
        text_area_wraps(*final(text_area)) == text_area_wraps(*old(text_area)),
        text_area_mask(*final(text_area)) == text_area_mask(*old(text_area)),
        text_area_selection(*final(text_area)) is None,
        no_selected_text(*old(text_area)) ==> {
            &&& text_area_lines(*final(text_area)) == text_area_lines(*old(text_area))
            &&& text_area_cursor(*final(text_area)) == text_area_cursor(*old(text_area))
        },
        selected_span(*old(text_area)) matches Some(span) ==> {
            &&& text_area_lines(*final(text_area)) == delete_span(text_area_lines(*old(text_area)), span.0, span.1)
            &&& text_area_cursor(*final(text_area)) == span.0
        },
{
    text_area.text_area.cut();
}

/// Calls `TextArea::input` with the key and its modifiers. The default key map of the text area
/// decides what happens; `text_input_effect` states what this library sends it: typing a
/// character or a line break, deleting the one before the cursor, either over selected text
/// (which goes first), moving one step left or right (extending the selection with Shift), and
/// that Alt with the arrows or with a character the key map does not bind changes nothing. Where
/// a move goes is stated for text drawn one column per character without wrapping (screen
/// positions decide it otherwise); deleting at the start of a later line, the word moves reached
/// with Control, and the Alt bindings (`alt_bound_char`, Alt with Backspace) are left unstated.
#[verifier::external_body]
pub(crate) fn text_area_input(text_area: &mut TextInput, key: EditKey, ctrl: bool, alt: bool, shift: bool)
    requires
        text_area_wf(*old(text_area)),
    ensures
        text_input_effect(*old(text_area), *final(text_area), key, ctrl, alt, shift),
{
    let key = match key {
        EditKey::Char(c) => ratatui_textarea::Key::Char(c),
        EditKey::Left => ratatui_textarea::Key::Left,
        EditKey::Right => ratatui_textarea::Key::Right,
        EditKey::Backspace => ratatui_textarea::Key::Backspace,
    };
    text_area.text_area.input(ratatui_textarea::Input { key, ctrl, alt, shift });
}

/// Empties a text area: select everything, then cut it.
pub fn clear_text_area(text_area: &mut TextInput)
    requires
        text_area_wf(*old(text_area)),
    ensures
        text_area_wf(*final(text_area)),
        text_area_wraps(*final(text_area)) == text_area_wraps(*old(text_area)),
        text_area_mask(*final(text_area)) == text_area_mask(*old(text_area)),
        text_area_selection(*final(text_area)) is None,
        text_area_lines(*old(text_area)).len() <= 65536
            && text_area_lines(*old(text_area)).last().len() <= 65535 ==> {
            &&& text_area_lines(*final(text_area)) == seq![Seq::<char>::empty()]
            &&& text_area_cursor(*final(text_area)) == (0nat, 0nat)
        },
{
    text_area_select_all(text_area);
    proof {
        let t = *text_area;
        let lines = text_area_lines(t);
        if lines.len() <= 65536 && lines.last().len() <= 65535 {
            assert(whole_text_selected(t));
            lemma_whole_text_span(t);
        }
    }
    text_area_cut(text_area);
}

} // verus!
