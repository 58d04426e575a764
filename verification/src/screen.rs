//! What the editor asks of the terminal: commands, as plain values.
//!
//! The library performs none of them. It builds the list for a frame or for
//! a reaction to a key, and the program around it carries the list out, in
//! order, on the terminal.

use vstd::prelude::*;

verus! {

/// A colour of the terminal.
#[derive(Clone, Copy, Debug, PartialEq, Eq, Structural)]
pub enum Color {
    Black,
    Blue,
    White,
    /// A colour by its red, green and blue parts.
    Rgb { r: u8, g: u8, b: u8 },
}

/// A piece of text with the colours and weight it is printed in.
#[derive(Debug, PartialEq, Eq)]
pub struct StyledText {
    pub text: String,
    pub foreground: Color,
    pub background: Color,
    pub bold: bool,
}

/// A `StyledText` with its text as a sequence of characters.
pub struct StyledTextView {
    pub text: Seq<char>,
    pub foreground: Color,
    pub background: Color,
    pub bold: bool,
}

impl View for StyledText {
    type V = StyledTextView;

    open spec fn view(&self) -> StyledTextView {
        StyledTextView {
            text: self.text@,
            foreground: self.foreground,
            background: self.background,
            bold: self.bold,
        }
    }
}

/// One thing for the terminal to do.
#[derive(Debug, PartialEq, Eq)]
pub enum Command {
    /// Deliver keys one by one, unbuffered and without echo.
    EnableRawMode,
    /// Give the terminal back its line discipline.
    DisableRawMode,
    /// Switch to the alternate screen.
    EnterAlternateScreen,
    /// Switch back from the alternate screen.
    LeaveAlternateScreen,
    /// Set the title of the terminal window.
    SetTitle(String),
    /// Clear the whole screen.
    ClearAll,
    /// Clear the line the cursor is on.
    ClearCurrentLine,
    /// Move the cursor to a cell; the top left cell is column 0, row 0.
    MoveTo { column: u16, row: u16 },
    /// Print text at the cursor.
    Print(String),
    /// Print styled text at the cursor.
    PrintStyled(StyledText),
}

/// A `Command` with its texts as sequences of characters.
pub enum CommandView {
    EnableRawMode,
    DisableRawMode,
    EnterAlternateScreen,
    LeaveAlternateScreen,
    SetTitle(Seq<char>),
    ClearAll,
    ClearCurrentLine,
    MoveTo { column: u16, row: u16 },
    Print(Seq<char>),
    PrintStyled(StyledTextView),
}

impl View for Command {
    type V = CommandView;

    open spec fn view(&self) -> CommandView {
        match self {
            Command::EnableRawMode => CommandView::EnableRawMode,
            Command::DisableRawMode => CommandView::DisableRawMode,
            Command::EnterAlternateScreen => CommandView::EnterAlternateScreen,
            Command::LeaveAlternateScreen => CommandView::LeaveAlternateScreen,
            Command::SetTitle(title) => CommandView::SetTitle(title@),
            Command::ClearAll => CommandView::ClearAll,
            Command::ClearCurrentLine => CommandView::ClearCurrentLine,
            Command::MoveTo { column, row } => CommandView::MoveTo { column: *column, row: *row },
            Command::Print(text) => CommandView::Print(text@),
            Command::PrintStyled(styled) => CommandView::PrintStyled(styled@),
        }
    }
}

/// The views of a list of commands, in order.
pub open spec fn command_views(commands: Seq<Command>) -> Seq<CommandView> {
    commands.map_values(|command: Command| command@)
}

} // verus!
