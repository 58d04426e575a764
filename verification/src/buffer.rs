//! The text being edited: the lines of a file.

use vstd::prelude::*;
use crate::lines::{line_views, lines_of, split_lines};

verus! {

/// The lines of a file, and the name of the file they came from.
#[derive(Debug, PartialEq, Eq)]
pub struct Buffer {
    /// The name of the file, if the buffer came from one.
    pub file: Option<String>,
    /// The lines, in order, each without its ending.
    pub lines: Vec<String>,
}

/// A `Buffer` as sequences of characters.
pub struct BufferView {
    pub file: Option<Seq<char>>,
    pub lines: Seq<Seq<char>>,
}

impl View for Buffer {
    type V = BufferView;

    open spec fn view(&self) -> BufferView {
        BufferView {
            file: match self.file {
                Some(name) => Some(name@),
                None => None,
            },
            lines: line_views(self.lines@),
        }
    }
}

impl Buffer {
    /// The buffer of the file named `file` whose text is `contents`: its
    /// lines, in order and without their endings.
    pub fn from_file(file: &str, contents: &str) -> (buffer: Buffer)
        ensures
            buffer@.file == Some(file@),
            buffer@.lines == lines_of(contents@),
    {
        Buffer { file: Some(file.to_owned()), lines: split_lines(contents) }
    }
}

} // verus!
