//! Core of a terminal text viewer: cursor movement, viewport scrolling,
//! and screen-line composition, kept separate from terminal I/O.

pub mod document;
pub mod editor;
pub mod text;
