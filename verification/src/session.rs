//! The terminal session: how it is opened before the first frame, and how
//! it is closed on every way out.

use vstd::prelude::*;
use crate::screen::{Command, CommandView, command_views};

verus! {

/// The title of the terminal window.
pub const TITLE: &'static str = "Icode Editor";

/// The commands that open the session: raw mode, the alternate screen, and
/// the window's title.
pub open spec fn opening() -> Seq<CommandView> {
    seq![
        CommandView::EnableRawMode,
        CommandView::EnterAlternateScreen,
        CommandView::SetTitle(TITLE@),
    ]
}

/// The commands that close the session: they undo `opening`, last first.
pub open spec fn closing() -> Seq<CommandView> {
    seq![CommandView::LeaveAlternateScreen, CommandView::DisableRawMode]
}

/// The commands to carry out before the first frame.
pub fn open_session() -> (commands: Vec<Command>)
    ensures
        command_views(commands@) == opening(),
{
    let mut commands: Vec<Command> = Vec::new();
    commands.push(Command::EnableRawMode);
    commands.push(Command::EnterAlternateScreen);
    commands.push(Command::SetTitle(TITLE.to_owned()));
    assert(command_views(commands@) == opening());
    commands
}

/// The commands to carry out before the process ends.
pub fn close_session() -> (commands: Vec<Command>)
    ensures
        command_views(commands@) == closing(),
{
    let mut commands: Vec<Command> = Vec::new();
    commands.push(Command::LeaveAlternateScreen);
    commands.push(Command::DisableRawMode);
    assert(command_views(commands@) == closing());
    commands
}

} // verus!
