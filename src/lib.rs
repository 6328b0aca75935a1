//! A small terminal dashboard core: an output sink that queues drawing
//! commands, bounded viewports that interpret a byte stream with a minimal
//! escape-sequence subset, panes that render into them, and a focus layout
//! that decides which pane owns the keyboard.

pub mod application;
pub mod block;
pub mod console;
pub mod editor;
pub mod element;
pub mod input;
pub mod keys;
pub mod layout;
pub mod list;
pub mod model;
pub mod shortcuts;
pub mod text;
pub mod tty;
