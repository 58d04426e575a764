//! The editor: a buffer, a cursor and a mode, and what each key does to them.

use vstd::prelude::*;
use crate::buffer::Buffer;
use crate::cursor::{lemma_walk_stays_on_grid, Direction, Position};
use crate::keys::{direction_of, Event, Key};
use crate::mode::Mode;
use crate::screen::{Color, Command, CommandView, StyledText, command_views};
use crate::status::{file_field_width, position_tag, status_line, FILE_LABEL};
use crate::text::pad_right;

verus! {

/// What the caller is to do after a key or another event has been handled.
#[derive(Clone, Copy, Debug, PartialEq, Eq, Structural)]
pub enum Reaction {
    /// Close the terminal session and end the process with `exit_code`.
    Quit { exit_code: i32 },
    /// Show the cursor at its position: one `Command::MoveTo`.
    MoveCursor,
    /// The mode has changed; nothing to do before the next frame.
    ModeChanged,
    /// The event means nothing to the editor.
    Ignored,
}

/// What keys change: where the cursor is, and the mode.
pub struct State {
    pub position: Position,
    pub mode: Mode,
}

/// The state after `key` has been read as a command: an arrow key or one of
/// `k`, `j`, `h`, `l` moves the cursor by one cell, `i` enters insert mode,
/// and every other key, `q` among them, leaves the state as it is.
pub open spec fn normal_step(state: State, key: Key) -> State {
    if direction_of(key) is Some {
        State { position: state.position.moved(direction_of(key)->0), ..state }
    } else if key == Key::Char('i') {
        State { mode: Mode::Insert, ..state }
    } else {
        state
    }
}

/// What the caller is to do after `key` has been read as a command: quit
/// with exit code 0 after `q`, show the cursor after a move.
pub open spec fn normal_reaction(key: Key) -> Reaction {
    if key == Key::Char('q') {
        Reaction::Quit { exit_code: 0 }
    } else if direction_of(key) is Some {
        Reaction::MoveCursor
    } else if key == Key::Char('i') {
        Reaction::ModeChanged
    } else {
        Reaction::Ignored
    }
}

/// The state after `key` has been read as text: a character moves the
/// cursor one cell to the right, Enter to the start of the next row,
/// Backspace one cell to the left, where there is one. Esc returns to normal
/// mode, and every other key leaves the state as it is.
pub open spec fn insert_step(state: State, key: Key) -> State {
    match key {
        Key::Char(_) => State { position: state.position.moved(Direction::Right), ..state },
        Key::Enter => State { position: state.position.next_line(), ..state },
        Key::Backspace => State { position: state.position.moved(Direction::Left), ..state },
        Key::Esc => State { mode: Mode::Normal, ..state },
        _ => state,
    }
}

/// What the caller is to do after `key` has been read as text.
pub open spec fn insert_reaction(key: Key) -> Reaction {
    match key {
        Key::Char(_) | Key::Enter | Key::Backspace => Reaction::MoveCursor,
        Key::Esc => Reaction::ModeChanged,
        _ => Reaction::Ignored,
    }
}

/// The state after `key`, read as the mode of `state` reads it.
pub open spec fn step(state: State, key: Key) -> State {
    match state.mode {
        Mode::Normal => normal_step(state, key),
        Mode::Insert => insert_step(state, key),
    }
}

/// What the caller is to do after `key` in `mode`.
pub open spec fn reaction_to(mode: Mode, key: Key) -> Reaction {
    match mode {
        Mode::Normal => normal_reaction(key),
        Mode::Insert => insert_reaction(key),
    }
}

/// The state after `event`: a key is read as the mode of `state` reads it,
/// and no other event changes anything.
pub open spec fn after_event(state: State, event: Event) -> State {
    match event {
        Event::Key(key) => step(state, key),
        Event::Other => state,
    }
}

/// What the caller is to do after `event` in `mode`.
pub open spec fn reaction_to_event(mode: Mode, event: Event) -> Reaction {
    match event {
        Event::Key(key) => reaction_to(mode, key),
        Event::Other => Reaction::Ignored,
    }
}

/// `key` is the one key that leaves `mode`: `i` in normal mode, Esc in
/// insert mode.
pub open spec fn leaves_mode(mode: Mode, key: Key) -> bool {
    match mode {
        Mode::Normal => key == Key::Char('i'),
        Mode::Insert => key == Key::Esc,
    }
}

/// The state after the keys of `keys`, in order.
pub open spec fn after_keys(state: State, keys: Seq<Key>) -> State
    decreases keys.len(),
{
    if keys.len() == 0 {
        state
    } else {
        step(after_keys(state, keys.drop_last()), keys.last())
    }
}

/// How many lines of a buffer of `total` lines a frame shows: all that have
/// a row of their own, rows being counted in a `u16`.
pub open spec fn shown_lines(total: nat) -> nat {
    if total <= u16::MAX {
        total
    } else {
        (u16::MAX + 1) as nat
    }
}

/// The commands that put the first `count` of `lines` on the screen, each on
/// the row of its index: a move to the start of the row, then the line.
pub open spec fn lines_drawn(lines: Seq<Seq<char>>, count: nat) -> Seq<CommandView> {
    Seq::new(
        2 * count,
        |k: int|
            if k % 2 == 0 {
                CommandView::MoveTo { column: 0, row: (k / 2) as u16 }
            } else {
                CommandView::Print(lines[k / 2])
            },
    )
}

/// The commands that draw the buffer: clear the screen, put every line on
/// its own row from row 0 down, and go to the top left cell.
pub open spec fn buffer_frame(lines: Seq<Seq<char>>) -> Seq<CommandView> {
    seq![CommandView::ClearAll] + lines_drawn(lines, shown_lines(lines.len())) + seq![
        CommandView::MoveTo { column: 0, row: 0 },
    ]
}

/// The commands that draw the status line and put the cursor back. Where
/// the size of the terminal is not known, the status line is left out.
pub open spec fn status_frame(mode: Mode, cx: u16, cy: u16, size: Option<(u16, u16)>) -> Seq<
    CommandView,
> {
    let back = seq![CommandView::MoveTo { column: cx, row: cy }];
    match size {
        Some((columns, rows)) => status_line(mode, cx, cy, columns, rows) + back,
        None => back,
    }
}

/// The commands of one frame: the buffer, then the status line.
pub open spec fn frame(
    lines: Seq<Seq<char>>,
    mode: Mode,
    cx: u16,
    cy: u16,
    size: Option<(u16, u16)>,
) -> Seq<CommandView> {
    buffer_frame(lines) + status_frame(mode, cx, cy, size)
}

/// The editor.
#[derive(Debug, PartialEq, Eq)]
pub struct Editor {
    /// The text being shown.
    pub buffer: Buffer,
    /// The column of the cursor.
    pub cx: u16,
    /// The row of the cursor.
    pub cy: u16,
    /// The mode keys are read in.
    pub mode: Mode,
}

impl Editor {
    /// Where the cursor is, and the mode.
    pub open spec fn state(&self) -> State {
        State {
            position: Position { column: self.cx as int, row: self.cy as int },
            mode: self.mode,
        }
    }

    /// An editor on `buffer`, in normal mode, with the cursor in the top
    /// left cell.
    pub fn new(buffer: Buffer) -> (editor: Editor)
        ensures
            editor.buffer == buffer,
            editor.cx == 0,
            editor.cy == 0,
            editor.mode == Mode::Normal,
    {
        Editor { buffer, cx: 0, cy: 0, mode: Mode::Normal }
    }

    /// The command that shows the cursor where it is.
    pub fn move_cursor(&self) -> (command: Command)
        ensures
            command@ == (CommandView::MoveTo { column: self.cx, row: self.cy }),
    {
        Command::MoveTo { column: self.cx, row: self.cy }
    }

    /// The commands that draw the buffer.
    pub fn draw_buffer(&self) -> (commands: Vec<Command>)
        ensures
            command_views(commands@) == buffer_frame(self.buffer@.lines),
    {
        let mut commands: Vec<Command> = Vec::new();
        commands.push(Command::ClearAll);
        let total = self.buffer.lines.len();
        let mut index: usize = 0;
        while index < total && index <= u16::MAX as usize
            invariant
                total == self.buffer.lines@.len(),
                index <= total,
                index <= u16::MAX + 1,
                command_views(commands@) == seq![CommandView::ClearAll] + lines_drawn(
                    self.buffer@.lines,
                    index as nat,
                ),
            decreases total - index,
        {
            let ghost before = command_views(commands@);
            let line = self.buffer.lines[index].clone();
            assert(line@ == self.buffer@.lines[index as int]);
            commands.push(Command::MoveTo { column: 0, row: index as u16 });
            commands.push(Command::Print(line));
            proof {
                let after = seq![CommandView::ClearAll] + lines_drawn(
                    self.buffer@.lines,
                    (index + 1) as nat,
                );
                assert(command_views(commands@) == before.push(
                    CommandView::MoveTo { column: 0, row: index as u16 },
                ).push(CommandView::Print(line@)));
                assert(command_views(commands@) =~= after);
            }
            index = index + 1;
        }
        commands.push(Command::MoveTo { column: 0, row: 0 });
        assert(command_views(commands@) == buffer_frame(self.buffer@.lines));
        commands
    }

    /// The commands that draw the status line on a terminal of
    /// `size.0` columns and `size.1` rows, and put the cursor back where it
    /// is. With no size, the status line is left out of the frame.
    pub fn draw_status_line(&self, size: Option<(u16, u16)>) -> (commands: Vec<Command>)
        ensures
            command_views(commands@) == status_frame(self.mode, self.cx, self.cy, size),
    {
        let mut commands: Vec<Command> = Vec::new();
        match size {
            Some((columns, rows)) => {
                let label = self.mode.label();
                let width = file_field_width(
                    columns,
                    FILE_LABEL.unicode_len(),
                    label.unicode_len(),
                );
                let last_row: u16 = if rows == 0 {
                    0
                } else {
                    rows - 1
                };
                let mode_tag = StyledText {
                    text: label.to_owned(),
                    foreground: Color::Black,
                    background: Color::Blue,
                    bold: true,
                };
                let file_field = StyledText {
                    text: pad_right(FILE_LABEL, width),
                    foreground: Color::White,
                    background: Color::Rgb { r: 67, g: 70, b: 89 },
                    bold: true,
                };
                let position = StyledText {
                    text: position_tag(self.cx, self.cy),
                    foreground: Color::Black,
                    background: Color::Blue,
                    bold: true,
                };
                commands.push(Command::MoveTo { column: 0, row: last_row });
                commands.push(Command::ClearCurrentLine);
                commands.push(Command::PrintStyled(mode_tag));
                commands.push(Command::PrintStyled(file_field));
                commands.push(Command::PrintStyled(position));
            },
            None => {},
        }
        commands.push(self.move_cursor());
        assert(command_views(commands@) == status_frame(self.mode, self.cx, self.cy, size));
        commands
    }

    /// The commands of one frame, to be carried out before the next event
    /// is waited for: the buffer, then the status line on a terminal of
    /// `size`, if the size is known.
    pub fn draw_frame(&self, size: Option<(u16, u16)>) -> (commands: Vec<Command>)
        ensures
            command_views(commands@) == frame(self.buffer@.lines, self.mode, self.cx, self.cy, size),
    {
        let mut commands = self.draw_buffer();
        let mut status = self.draw_status_line(size);
        commands.append(&mut status);
        assert(command_views(commands@) == frame(
            self.buffer@.lines,
            self.mode,
            self.cx,
            self.cy,
            size,
        ));
        commands
    }

    /// Handles `key` as a command.
    pub fn handle_normal_event(&mut self, key: Key) -> (reaction: Reaction)
        ensures
            final(self).state() == normal_step(old(self).state(), key),
            final(self).buffer == old(self).buffer,
            reaction == normal_reaction(key),
    {
        match key {
            Key::Char('q') => Reaction::Quit { exit_code: 0 },
            Key::Up | Key::Char('k') => {
                self.cy = self.cy.saturating_sub(1);
                Reaction::MoveCursor
            },
            Key::Down | Key::Char('j') => {
                self.cy = self.cy.saturating_add(1);
                Reaction::MoveCursor
            },
            Key::Left | Key::Char('h') => {
                self.cx = self.cx.saturating_sub(1);
                Reaction::MoveCursor
            },
            Key::Right | Key::Char('l') => {
                self.cx = self.cx.saturating_add(1);
                Reaction::MoveCursor
            },
            Key::Char('i') => {
                self.mode = Mode::Insert;
                Reaction::ModeChanged
            },
            _ => Reaction::Ignored,
        }
    }

    /// Handles `key` as text.
    pub fn handle_insert_event(&mut self, key: Key) -> (reaction: Reaction)
        ensures
            final(self).state() == insert_step(old(self).state(), key),
            final(self).buffer == old(self).buffer,
            reaction == insert_reaction(key),
    {
        match key {
            Key::Char(_) => {
                self.cx = self.cx.saturating_add(1);
                Reaction::MoveCursor
            },
            Key::Enter => {
                self.cx = 0;
                self.cy = self.cy.saturating_add(1);
                Reaction::MoveCursor
            },
            Key::Backspace => {
                self.cx = self.cx.saturating_sub(1);
                Reaction::MoveCursor
            },
            Key::Esc => {
                self.mode = Mode::Normal;
                Reaction::ModeChanged
            },
            _ => Reaction::Ignored,
        }
    }

    /// Handles `key` as the current mode reads it.
    pub fn handle_keyboard_event(&mut self, key: Key) -> (reaction: Reaction)
        ensures
            final(self).state() == step(old(self).state(), key),
            final(self).buffer == old(self).buffer,
            reaction == reaction_to(old(self).mode, key),
            reaction is Quit <==> old(self).mode == Mode::Normal && key == Key::Char('q'),
            reaction is Quit ==> reaction == (Reaction::Quit { exit_code: 0 }),
            final(self).mode != old(self).mode <==> leaves_mode(old(self).mode, key),
    {
        match self.mode {
            Mode::Normal => self.handle_normal_event(key),
            Mode::Insert => self.handle_insert_event(key),
        }
    }

    /// Handles one event of the terminal: a key as the current mode reads
    /// it, and nothing else.
    pub fn handle_event(&mut self, event: Event) -> (reaction: Reaction)
        ensures
            final(self).state() == after_event(old(self).state(), event),
            final(self).buffer == old(self).buffer,
            reaction == reaction_to_event(old(self).mode, event),
    {
        match event {
            Event::Key(key) => self.handle_keyboard_event(key),
            Event::Other => Reaction::Ignored,
        }
    }
}

/// The directions of keys that all move the cursor in normal mode.
pub open spec fn directions_of(keys: Seq<Key>) -> Seq<Direction> {
    keys.map_values(|key: Key| direction_of(key)->0)
}

/// In normal mode, keys that move the cursor walk it along their
/// directions and change nothing else, and however many they are, the
/// cursor stays on the grid: its column and row are never negative.
pub proof fn lemma_moves_walk_the_cursor(state: State, keys: Seq<Key>)
    requires
        state.mode == Mode::Normal,
        state.position.on_grid(),
        forall|i: int| 0 <= i < keys.len() ==> direction_of(#[trigger] keys[i]) is Some,
    ensures
        after_keys(state, keys).mode == Mode::Normal,
        after_keys(state, keys).position == state.position.walked(directions_of(keys)),
        after_keys(state, keys).position.on_grid(),
        after_keys(state, keys).position.column >= 0,
        after_keys(state, keys).position.row >= 0,
    decreases keys.len(),
{
    if keys.len() > 0 {
        lemma_moves_walk_the_cursor(state, keys.drop_last());
        assert(direction_of(keys.last()) is Some);
        assert(directions_of(keys).drop_last() == directions_of(keys.drop_last()));
    }
    lemma_walk_stays_on_grid(state.position, directions_of(keys));
}

/// In normal mode `q` asks to quit with exit code 0, wherever the cursor
/// is, and leaves the state as it is.
pub proof fn lemma_quit_key_quits(state: State)
    requires
        state.mode == Mode::Normal,
    ensures
        reaction_to(state.mode, Key::Char('q')) == (Reaction::Quit { exit_code: 0 }),
        step(state, Key::Char('q')) == state,
{
}

/// Only `q` in normal mode asks to quit.
pub proof fn lemma_only_quit_key_quits(mode: Mode, key: Key)
    ensures
        reaction_to(mode, key) is Quit <==> mode == Mode::Normal && key == Key::Char('q'),
{
}

/// The mode changes on exactly two keys: from normal to insert on `i`, and
/// from insert to normal on Esc. No other key changes it.
pub proof fn lemma_mode_changes_on_its_key_only(state: State, key: Key)
    ensures
        step(state, key).mode != state.mode <==> leaves_mode(state.mode, key),
        state.mode == Mode::Normal ==> (step(state, key).mode == Mode::Insert <==> key == Key::Char(
            'i',
        )),
        state.mode == Mode::Insert ==> (step(state, key).mode == Mode::Normal <==> key
            == Key::Esc),
{
}

/// A key that changes the mode leaves the cursor where it is.
pub proof fn lemma_mode_change_keeps_cursor(state: State, key: Key)
    requires
        leaves_mode(state.mode, key),
    ensures
        step(state, key).position == state.position,
{
}

} // verus!
