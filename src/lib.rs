//! A small terminal text editor's core: a buffer of lines, a cursor that stays
//! inside it, and an editor that applies keystrokes with linear undo.
pub mod buffer;
pub mod cursor;
pub mod editor;
