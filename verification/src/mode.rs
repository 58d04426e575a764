//! The two modes of the editor.

use vstd::prelude::*;

verus! {

/// How the editor reads keys: as commands, or as text.
#[derive(Clone, Copy, Debug, PartialEq, Eq, Structural)]
pub enum Mode {
    /// Keys are commands: they move the cursor, change mode or quit.
    Normal,
    /// Keys are text.
    Insert,
}

/// The tag that the status line shows for `mode`.
pub open spec fn mode_label(mode: Mode) -> Seq<char> {
    match mode {
        Mode::Normal => " NORMAL "@,
        Mode::Insert => " INSERT "@,
    }
}

impl Mode {
    /// The tag that the status line shows for this mode.
    pub fn label(&self) -> (label: &'static str)
        ensures
            label@ == mode_label(*self),
    {
        match self {
            Mode::Normal => " NORMAL ",
            Mode::Insert => " INSERT ",
        }
    }
}

} // verus!
