//! The core of a modal text editor for the terminal.
//!
//! The document lives in a rope. A viewport shows a window of its lines on a
//! grid of character cells, and a cursor moves over it with a sticky column.
//! Keys are looked up in a table by mode and chord and carried out as editing
//! actions. Each action says which rows of the screen buffer it made dirty,
//! and a render cycle turns the dirty rows into one frame of instructions for
//! the terminal.
//!
//! - `motion`: the cursor and viewport model and its laws.
//! - `editor`: the editor state, motions, scrolling and mode changes.
//! - `action`: the editing actions and the turn of the editor's loop.
//! - `keymapper`: the key table.
//! - `screen`: the screen buffer and its dirty rows.
//! - `render`: the viewport and the frame of a render cycle.
//! - `rope`, `textbuffer`: the document.
//! - `text`, `command`, `event`, `position`, `dimensions`, `support`: the
//!   values that the others are made of.

pub mod action;
pub mod command;
pub mod dimensions;
pub mod editor;
pub mod event;
pub mod keymapper;
pub mod motion;
pub mod position;
pub mod render;
pub mod rope;
pub mod screen;
pub mod support;
pub mod text;
pub mod textbuffer;
