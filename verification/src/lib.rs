//! Core of a terminal-style text user interface: a scrollback history of
//! committed lines plus one live, editable input line, rendered into a
//! fixed-size character grid.
//!
//! The modules below hold the engine itself: reflowing logical lines into
//! fixed-width display rows, selecting the visible tail window, locating the
//! edit cursor on the grid, the editable buffer, input recall, and the
//! cursor-blink state machine. Windowing, rasterization and command
//! execution are collaborators outside this crate; they exchange plain
//! values with these modules.

pub mod text;
pub mod reflow;
pub mod viewport;
pub mod cursor;
pub mod buffer;
pub mod recall;
pub mod blink;
pub mod textdisplay;
pub mod shell;
pub mod state;
pub mod resources;
