//! The status line: a mode tag, the file field and the cursor's position.

use vstd::prelude::*;
use crate::mode::{mode_label, Mode};
use crate::screen::{Color, CommandView, StyledTextView};
use crate::text::{decimal, padded, push_char, push_decimal};

verus! {

/// The label of the file field.
pub const FILE_LABEL: &'static str = " src/main.rs ";

/// The width of the file field on a terminal `terminal_width` cells wide,
/// beside a file label of `label_len` and a mode tag of `mode_len` cells:
/// what the two leave of the width, and nothing where they leave nothing.
pub open spec fn field_width(terminal_width: int, label_len: int, mode_len: int) -> int {
    if terminal_width >= label_len + mode_len {
        terminal_width - label_len - mode_len
    } else {
        0
    }
}

/// The width of the file field: `terminal_width - label_len - mode_len`, and
/// 0 on a terminal narrower than the two together.
pub fn file_field_width(terminal_width: u16, label_len: usize, mode_len: usize) -> (width: usize)
    ensures
        width == field_width(terminal_width as int, label_len as int, mode_len as int),
        terminal_width >= label_len + mode_len ==> width == terminal_width - label_len - mode_len,
        terminal_width < label_len + mode_len ==> width == 0,
{
    let total = terminal_width as usize;
    if total < label_len {
        0
    } else if total - label_len < mode_len {
        0
    } else {
        total - label_len - mode_len
    }
}

/// The position tag: column and row in decimal, with a colon between them
/// and a space on either side.
pub open spec fn position_label(column: nat, row: nat) -> Seq<char> {
    seq![' '] + decimal(column) + seq![':'] + decimal(row) + seq![' ']
}

/// Writes the position tag of a cursor at `column`, `row`.
pub fn position_tag(column: u16, row: u16) -> (tag: String)
    ensures
        tag@ == position_label(column as nat, row as nat),
{
    let mut tag = String::new();
    push_char(&mut tag, ' ');
    push_decimal(&mut tag, column);
    push_char(&mut tag, ':');
    push_decimal(&mut tag, row);
    push_char(&mut tag, ' ');
    assert(tag@ == position_label(column as nat, row as nat));
    tag
}

/// The row of the status line on a terminal of `rows` rows: the last one.
pub open spec fn status_row(rows: u16) -> u16 {
    if rows == 0 {
        0
    } else {
        (rows - 1) as u16
    }
}

/// A tag of the status line: black on blue, bold.
pub open spec fn tag_style(text: Seq<char>) -> StyledTextView {
    StyledTextView { text, foreground: Color::Black, background: Color::Blue, bold: true }
}

/// The file field of the status line: white on slate, bold.
pub open spec fn field_style(text: Seq<char>) -> StyledTextView {
    StyledTextView {
        text,
        foreground: Color::White,
        background: Color::Rgb { r: 67, g: 70, b: 89 },
        bold: true,
    }
}

/// The three fields of the status line, from left to right, on a terminal
/// `columns` cells wide: the mode tag, the file label padded to the width of
/// the file field, and the position tag.
pub open spec fn status_fields(mode: Mode, column: u16, row: u16, columns: u16) -> Seq<
    StyledTextView,
> {
    let width = field_width(columns as int, FILE_LABEL@.len() as int, mode_label(mode).len() as int);
    seq![
        tag_style(mode_label(mode)),
        field_style(padded(FILE_LABEL@, width as nat)),
        tag_style(position_label(column as nat, row as nat)),
    ]
}

/// The commands that draw the status line on a terminal of `columns` by
/// `rows` cells: go to the last row, clear it, and print the three fields.
pub open spec fn status_line(mode: Mode, column: u16, row: u16, columns: u16, rows: u16) -> Seq<
    CommandView,
> {
    let fields = status_fields(mode, column, row, columns);
    seq![
        CommandView::MoveTo { column: 0, row: status_row(rows) },
        CommandView::ClearCurrentLine,
        CommandView::PrintStyled(fields[0]),
        CommandView::PrintStyled(fields[1]),
        CommandView::PrintStyled(fields[2]),
    ]
}

} // verus!
