//! A small modal text editor, as a library of decisions.
//!
//! The library holds everything the editor decides: how a file's text falls
//! into lines, what a key means in each mode, where the cursor goes, and which
//! terminal commands make up a frame. It performs no input or output itself:
//! the program around it reads the file and the keys, and carries out the
//! commands the library hands back.

pub mod buffer;
pub mod cursor;
pub mod editor;
pub mod keys;
pub mod lines;
pub mod mode;
pub mod screen;
pub mod session;
pub mod status;
pub mod text;
