use icode::buffer::Buffer;
use icode::editor::Editor;
use icode::mode::Mode;
use icode::screen::{Color, Command, StyledText};
use icode::session::{close_session, open_session, TITLE};
use icode::status::{file_field_width, position_tag, FILE_LABEL};
use icode::text::{pad_right, push_decimal};

fn editor_at(cx: u16, cy: u16, mode: Mode) -> Editor {
    let mut editor = Editor::new(Buffer::from_file("notes.txt", "hello\nworld"));
    editor.cx = cx;
    editor.cy = cy;
    editor.mode = mode;
    editor
}

fn tag(text: &str) -> Command {
    Command::PrintStyled(StyledText {
        text: text.to_string(),
        foreground: Color::Black,
        background: Color::Blue,
        bold: true,
    })
}

fn field(text: &str) -> Command {
    Command::PrintStyled(StyledText {
        text: text.to_string(),
        foreground: Color::White,
        background: Color::Rgb { r: 67, g: 70, b: 89 },
        bold: true,
    })
}

fn decimal(n: u16) -> String {
    let mut out = String::new();
    push_decimal(&mut out, n);
    out
}

#[test]
fn middle_field_takes_what_the_labels_leave() {
    assert_eq!(file_field_width(80, 13, 8), 59);
    assert_eq!(file_field_width(22, 13, 8), 1);
    assert_eq!(file_field_width(21, 13, 8), 0);
    assert_eq!(file_field_width(u16::MAX, 13, 8), 65514);
    assert_eq!(file_field_width(100, 0, 0), 100);
}

#[test]
fn middle_field_is_empty_on_a_narrow_terminal() {
    assert_eq!(file_field_width(20, 13, 8), 0);
    assert_eq!(file_field_width(12, 13, 8), 0);
    assert_eq!(file_field_width(0, 13, 8), 0);
    assert_eq!(file_field_width(10, usize::MAX, usize::MAX), 0);
    assert_eq!(file_field_width(10, 4, usize::MAX), 0);
}

#[test]
fn middle_field_width_for_every_terminal_width() {
    for width in 0..=u16::MAX {
        let expected = if width >= 21 { width as usize - 21 } else { 0 };
        assert_eq!(file_field_width(width, 13, 8), expected);
    }
}

#[test]
fn decimal_numerals() {
    assert_eq!(decimal(0), "0");
    assert_eq!(decimal(7), "7");
    assert_eq!(decimal(9), "9");
    assert_eq!(decimal(10), "10");
    assert_eq!(decimal(99), "99");
    assert_eq!(decimal(100), "100");
    assert_eq!(decimal(4096), "4096");
    assert_eq!(decimal(65535), "65535");
}

#[test]
fn decimal_numerals_agree_with_the_standard_library() {
    for n in 0..=u16::MAX {
        assert_eq!(decimal(n), n.to_string());
    }
}

#[test]
fn numeral_is_appended_to_what_is_there() {
    let mut out = String::from("row ");
    push_decimal(&mut out, 42);
    assert_eq!(out, "row 42");
}

#[test]
fn padding_fills_with_spaces_on_the_right() {
    assert_eq!(pad_right("ab", 5), "ab   ");
    assert_eq!(pad_right("", 3), "   ");
    assert_eq!(pad_right("é", 3), "é  ");
}

#[test]
fn padding_never_shortens() {
    assert_eq!(pad_right("abcdef", 3), "abcdef");
    assert_eq!(pad_right("abc", 3), "abc");
    assert_eq!(pad_right("abc", 0), "abc");
    assert_eq!(pad_right("", 0), "");
}

#[test]
fn position_tag_shows_column_then_row() {
    assert_eq!(position_tag(0, 0), " 0:0 ");
    assert_eq!(position_tag(12, 7), " 12:7 ");
    assert_eq!(position_tag(u16::MAX, u16::MAX), " 65535:65535 ");
}

#[test]
fn mode_labels() {
    assert_eq!(Mode::Normal.label(), " NORMAL ");
    assert_eq!(Mode::Insert.label(), " INSERT ");
    assert_eq!(FILE_LABEL, " src/main.rs ");
}

#[test]
fn move_cursor_goes_to_the_cursor() {
    assert_eq!(editor_at(12, 7, Mode::Normal).move_cursor(), Command::MoveTo { column: 12, row: 7 });
    assert_eq!(editor_at(0, 0, Mode::Insert).move_cursor(), Command::MoveTo { column: 0, row: 0 });
}

#[test]
fn buffer_is_drawn_line_by_line_from_the_top() {
    let editor = editor_at(3, 1, Mode::Normal);
    assert_eq!(
        editor.draw_buffer(),
        vec![
            Command::ClearAll,
            Command::MoveTo { column: 0, row: 0 },
            Command::Print("hello".to_string()),
            Command::MoveTo { column: 0, row: 1 },
            Command::Print("world".to_string()),
            Command::MoveTo { column: 0, row: 0 },
        ]
    );
}

#[test]
fn lines_are_drawn_on_their_own_rows_wherever_the_cursor_is() {
    let at_origin = editor_at(0, 0, Mode::Normal).draw_buffer();
    let elsewhere = editor_at(40, 20, Mode::Insert).draw_buffer();
    assert_eq!(at_origin, elsewhere);
}

#[test]
fn empty_buffer_is_a_cleared_screen() {
    let editor = Editor::new(Buffer::from_file("empty", ""));
    assert_eq!(
        editor.draw_buffer(),
        vec![Command::ClearAll, Command::MoveTo { column: 0, row: 0 }]
    );
}

#[test]
fn lines_past_the_last_row_are_not_drawn() {
    let text = "x\n".repeat(70000);
    let editor = Editor::new(Buffer::from_file("long", &text));
    assert_eq!(editor.buffer.lines.len(), 70000);
    let commands = editor.draw_buffer();
    assert_eq!(commands.len(), 2 + 2 * 65536);
    assert_eq!(commands[1], Command::MoveTo { column: 0, row: 0 });
    assert_eq!(commands[2 * 65535 + 1], Command::MoveTo { column: 0, row: u16::MAX });
    assert_eq!(commands[2 * 65535 + 2], Command::Print("x".to_string()));
    assert_eq!(commands[2 * 65536 + 1], Command::MoveTo { column: 0, row: 0 });
}

#[test]
fn status_line_in_normal_mode() {
    let editor = editor_at(12, 7, Mode::Normal);
    let mut file = String::from(" src/main.rs ");
    file.push_str(&" ".repeat(46));
    assert_eq!(file.len(), 59);
    assert_eq!(
        editor.draw_status_line(Some((80, 24))),
        vec![
            Command::MoveTo { column: 0, row: 23 },
            Command::ClearCurrentLine,
            tag(" NORMAL "),
            field(&file),
            tag(" 12:7 "),
            Command::MoveTo { column: 12, row: 7 },
        ]
    );
}

#[test]
fn status_line_in_insert_mode() {
    let editor = editor_at(0, 0, Mode::Insert);
    assert_eq!(
        editor.draw_status_line(Some((40, 10))),
        vec![
            Command::MoveTo { column: 0, row: 9 },
            Command::ClearCurrentLine,
            tag(" INSERT "),
            field(" src/main.rs       "),
            tag(" 0:0 "),
            Command::MoveTo { column: 0, row: 0 },
        ]
    );
}

#[test]
fn status_line_on_a_narrow_terminal_keeps_the_whole_label() {
    for columns in [0, 1, 13, 20, 21, 34] {
        let editor = editor_at(1, 2, Mode::Normal);
        assert_eq!(
            editor.draw_status_line(Some((columns, 5))),
            vec![
                Command::MoveTo { column: 0, row: 4 },
                Command::ClearCurrentLine,
                tag(" NORMAL "),
                field(" src/main.rs "),
                tag(" 1:2 "),
                Command::MoveTo { column: 1, row: 2 },
            ]
        );
    }
}

#[test]
fn status_line_on_a_terminal_without_rows() {
    let editor = editor_at(1, 2, Mode::Normal);
    let commands = editor.draw_status_line(Some((80, 0)));
    assert_eq!(commands[0], Command::MoveTo { column: 0, row: 0 });
    let commands = editor.draw_status_line(Some((80, 1)));
    assert_eq!(commands[0], Command::MoveTo { column: 0, row: 0 });
}

#[test]
fn status_line_is_left_out_without_a_size() {
    let editor = editor_at(12, 7, Mode::Insert);
    assert_eq!(editor.draw_status_line(None), vec![Command::MoveTo { column: 12, row: 7 }]);
}

#[test]
fn frame_is_buffer_then_status_line() {
    let editor = editor_at(2, 1, Mode::Normal);
    let mut expected = editor.draw_buffer();
    expected.extend(editor.draw_status_line(Some((80, 24))));
    assert_eq!(editor.draw_frame(Some((80, 24))), expected);
    assert_eq!(expected.len(), 12);
    assert_eq!(expected[11], Command::MoveTo { column: 2, row: 1 });
}

#[test]
fn frame_without_a_size_ends_at_the_cursor() {
    let editor = editor_at(2, 1, Mode::Normal);
    assert_eq!(
        editor.draw_frame(None),
        vec![
            Command::ClearAll,
            Command::MoveTo { column: 0, row: 0 },
            Command::Print("hello".to_string()),
            Command::MoveTo { column: 0, row: 1 },
            Command::Print("world".to_string()),
            Command::MoveTo { column: 0, row: 0 },
            Command::MoveTo { column: 2, row: 1 },
        ]
    );
}

#[test]
fn session_is_opened_and_closed_in_mirror_order() {
    assert_eq!(TITLE, "Icode Editor");
    assert_eq!(
        open_session(),
        vec![
            Command::EnableRawMode,
            Command::EnterAlternateScreen,
            Command::SetTitle("Icode Editor".to_string()),
        ]
    );
    assert_eq!(
        close_session(),
        vec![Command::LeaveAlternateScreen, Command::DisableRawMode]
    );
}
