//! The editor components: text buffer, cursor, viewport and input handling.

pub mod buffer;
pub mod cursor;
pub mod graphemes;
pub mod input;
pub mod lines;
pub mod render;
pub mod state;
pub mod text_view;
pub mod viewport;
