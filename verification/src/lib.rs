//! Navigation core of a small modal text viewer: a read-only text buffer, a
//! cursor that moves over grapheme cells, and a viewport that scrolls to keep
//! the cursor in sight.

pub mod base;
pub mod editor;

pub use base::math::Bounds;
pub use base::math::Position;
pub use base::math::Size;
pub use base::pixel::CellMetrics;
pub use editor::buffer::buffer_lines;
pub use editor::buffer::Buffer;
pub use editor::cursor::CellPosition;
pub use editor::cursor::Command;
pub use editor::cursor::CursorModel;
pub use editor::input::Action;
pub use editor::input::InputEvent;
pub use editor::input::KeyCode;
pub use editor::input::KeyInput;
pub use editor::input::Modifiers;
pub use editor::input::WheelDelta;
pub use editor::render::DrawText;
pub use editor::render::Frame;
pub use editor::state::Editor;
pub use editor::text_view::TextView;
pub use editor::viewport::ViewportController;
