//! Core of an interactive shell front-end: a character-indexed command
//! editor, local completion narrowing, the Idle/Running execution state
//! machine, and composition of the rendered display lines.
//!
//! The surrounding program owns the terminal, the key-event source and the
//! command executor; it drives this library by feeding it events and the
//! executor's replies, and paints the lines the library composes.

pub mod completion;
pub mod editor;
pub mod laws;
pub mod render;
pub mod state;
pub mod text;

pub use editor::EditorBuffer;
pub use state::App;
