//! A small terminal layer for arrow-key driven menus.
//!
//! The crate holds the parts of such a layer that can be reasoned about:
//! the byte sequences that drive the cursor, the queue that keeps them back
//! until a flush, the order of the steps that give the terminal back, and
//! the table that turns key presses into navigation actions. Talking to the
//! operating system (switching raw mode, writing to the stream, waiting for
//! input) is left to the program that uses the crate.

pub mod ansi;
pub mod events;
pub mod key;
pub mod session;
pub mod term;

pub use events::{Event, Events};
pub use key::{Action, KeyCode, KeyEvent, KeyEventKind};
pub use term::{Effect, Term};
