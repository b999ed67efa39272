//! Input events and what they ask of the editor.

use super::buffer::optional_text;
use super::cursor::Command;
use crate::base::math::{Position, Size};
use vstd::prelude::*;
use vstd::string::StrSliceExecFns;

verus! {

/// The pixels that one press of an arrow key scrolls.
pub const ARROW_NUDGE: i64 = 1;

/// The physical keys that have a meaning of their own.
#[derive(Debug, Clone, Copy, PartialEq, Eq, Structural)]
pub enum KeyCode {
    ArrowLeft,
    ArrowRight,
    ArrowUp,
    ArrowDown,
    Home,
    End,
    PageUp,
    PageDown,
    /// Any other key; what it means is read from the text it produces.
    Other,
}

/// The modifier keys held while a key went down or up.
#[derive(Debug, Clone, Copy, PartialEq, Eq, Structural)]
pub struct Modifiers {
    pub shift: bool,
    pub control: bool,
    pub alt: bool,
    pub logo: bool,
}

impl Modifiers {
    /// Whether any modifier key is held.
    pub open spec fn spec_any(self) -> bool {
        self.shift || self.control || self.alt || self.logo
    }

    /// No modifier key held.
    pub fn none() -> (modifiers: Modifiers)
        ensures
            !modifiers.any(),
            modifiers == (Modifiers { shift: false, control: false, alt: false, logo: false }),
    {
        Modifiers { shift: false, control: false, alt: false, logo: false }
    }

    /// Whether any modifier key is held.
    #[verifier::when_used_as_spec(spec_any)]
    pub fn any(self) -> (held: bool)
        ensures
            held == self.spec_any(),
    {
        self.shift || self.control || self.alt || self.logo
    }
}

/// A key going down or up.
#[derive(Debug, Clone)]
pub struct KeyInput {
    /// The physical key.
    pub code: KeyCode,
    /// The text that pressing the key produced, if any.
    pub text: Option<String>,
    /// Whether the key went down; `false` for a release.
    pub pressed: bool,
    /// The modifier keys held.
    pub modifiers: Modifiers,
    /// Whether the window system made the event up, as it does for keys
    /// that are down when the window gains or loses focus.
    pub is_synthetic: bool,
}

/// How far a mouse wheel turned.
#[derive(Debug, Clone, Copy)]
pub enum WheelDelta {
    /// In lines; positive values ask the content to move right and down.
    Lines(Position<i32>),
    /// In pixels.
    Pixels(Position<i64>),
}

/// An input event.
#[derive(Debug, Clone)]
pub enum InputEvent {
    Key(KeyInput),
    /// A mouse wheel turned on the given device.
    Wheel { device: u64, delta: WheelDelta },
    /// The window took a new size, in pixels.
    Resize(Size<u32>),
}

/// What an input event asks of the editor.
#[derive(Debug, Clone, Copy)]
pub enum Action {
    /// Move the cursor, then scroll it into view.
    Move(Command),
    /// Scroll by pixels; the cursor stays.
    ScrollPixels(Position<i64>),
    /// Scroll by cells; the cursor stays.
    ScrollCells(Position<i64>),
    /// Cap the cursor at the cells that fit the new size, then take the new size.
    Resize(Size<u32>),
}

/// The command of a character key.
pub open spec fn character_command(character: char) -> Option<Command> {
    if character == 'h' {
        Some(Command::MoveLeftWrap)
    } else if character == 'j' {
        Some(Command::MoveDown)
    } else if character == 'k' {
        Some(Command::MoveUp)
    } else if character == 'l' {
        Some(Command::MoveRightWrap)
    } else if character == '0' {
        Some(Command::MoveToStartOfLine)
    } else if character == '$' {
        Some(Command::MoveToEndOfLine)
    } else {
        None
    }
}

/// The command of the text that a key produced: that of its character
/// where the text is a single one, none otherwise.
pub open spec fn text_command(text: Option<Seq<char>>) -> Option<Command> {
    match text {
        Some(text) => if text.len() == 1 {
            character_command(text[0])
        } else {
            None
        },
        None => None,
    }
}

/// What a key event asks for. Only a press asks for anything. An arrow key
/// scrolls by a nudge, and only while no modifier is held; `Home`, `End`,
/// `PageUp` and `PageDown` move the cursor; any other key goes by its text.
pub open spec fn key_action(
    code: KeyCode,
    text: Option<Seq<char>>,
    pressed: bool,
    modified: bool,
) -> Option<Action> {
    if !pressed {
        None
    } else {
        match code {
            KeyCode::ArrowLeft => if modified {
                None
            } else {
                Some(Action::ScrollPixels(Position { x: (-ARROW_NUDGE) as i64, y: 0 }))
            },
            KeyCode::ArrowRight => if modified {
                None
            } else {
                Some(Action::ScrollPixels(Position { x: ARROW_NUDGE, y: 0 }))
            },
            KeyCode::ArrowUp => if modified {
                None
            } else {
                Some(Action::ScrollPixels(Position { x: 0, y: (-ARROW_NUDGE) as i64 }))
            },
            KeyCode::ArrowDown => if modified {
                None
            } else {
                Some(Action::ScrollPixels(Position { x: 0, y: ARROW_NUDGE }))
            },
            KeyCode::Home => Some(Action::Move(Command::MoveToStartOfLine)),
            KeyCode::End => Some(Action::Move(Command::MoveToEndOfLine)),
            KeyCode::PageUp => Some(Action::Move(Command::MoveUpOnePage)),
            KeyCode::PageDown => Some(Action::Move(Command::MoveDownOnePage)),
            KeyCode::Other => match text_command(text) {
                Some(command) => Some(Action::Move(command)),
                None => None,
            },
        }
    }
}

/// What a turn of the wheel asks for. A turn in lines scrolls by cells
/// against its sign, so that turning down moves the content up; a turn in
/// pixels scrolls by those pixels as they are.
pub open spec fn wheel_action(delta: WheelDelta) -> Action {
    match delta {
        WheelDelta::Lines(lines) => Action::ScrollCells(
            Position { x: (-lines.x) as i64, y: (-lines.y) as i64 },
        ),
        WheelDelta::Pixels(pixels) => Action::ScrollPixels(pixels),
    }
}

/// What an input event asks for, if anything. Neither the device of a wheel
/// nor whether a key event is synthetic makes a difference.
pub open spec fn interpreted(event: InputEvent) -> Option<Action> {
    match event {
        InputEvent::Key(key) => key_action(
            key.code,
            optional_text(key.text),
            key.pressed,
            key.modifiers.any(),
        ),
        InputEvent::Wheel { device, delta } => Some(wheel_action(delta)),
        InputEvent::Resize(size) => Some(Action::Resize(size)),
    }
}

fn command_of_character(character: char) -> (command: Option<Command>)
    ensures
        command == character_command(character),
{
    if character == 'h' {
        Some(Command::MoveLeftWrap)
    } else if character == 'j' {
        Some(Command::MoveDown)
    } else if character == 'k' {
        Some(Command::MoveUp)
    } else if character == 'l' {
        Some(Command::MoveRightWrap)
    } else if character == '0' {
        Some(Command::MoveToStartOfLine)
    } else if character == '$' {
        Some(Command::MoveToEndOfLine)
    } else {
        None
    }
}

fn command_of_text(text: &Option<String>) -> (command: Option<Command>)
    ensures
        command == text_command(optional_text(*text)),
{
    match text {
        Some(text) => {
            let text = text.as_str();
            if text.unicode_len() == 1 {
                command_of_character(text.get_char(0))
            } else {
                None
            }
        },
        None => None,
    }
}

/// What a key event asks for, if anything.
pub fn interpret_key(key: &KeyInput) -> (action: Option<Action>)
    ensures
        action == key_action(key.code, optional_text(key.text), key.pressed, key.modifiers.any()),
{
    if !key.pressed {
        return None;
    }
    let modified = key.modifiers.any();
    match key.code {
        KeyCode::ArrowLeft => if modified {
            None
        } else {
            Some(Action::ScrollPixels(Position { x: -ARROW_NUDGE, y: 0 }))
        },
        KeyCode::ArrowRight => if modified {
            None
        } else {
            Some(Action::ScrollPixels(Position { x: ARROW_NUDGE, y: 0 }))
        },
        KeyCode::ArrowUp => if modified {
            None
        } else {
            Some(Action::ScrollPixels(Position { x: 0, y: -ARROW_NUDGE }))
        },
        KeyCode::ArrowDown => if modified {
            None
        } else {
            Some(Action::ScrollPixels(Position { x: 0, y: ARROW_NUDGE }))
        },
        KeyCode::Home => Some(Action::Move(Command::MoveToStartOfLine)),
        KeyCode::End => Some(Action::Move(Command::MoveToEndOfLine)),
        KeyCode::PageUp => Some(Action::Move(Command::MoveUpOnePage)),
        KeyCode::PageDown => Some(Action::Move(Command::MoveDownOnePage)),
        KeyCode::Other => match command_of_text(&key.text) {
            Some(command) => Some(Action::Move(command)),
            None => None,
        },
    }
}

/// What an input event asks for, if anything.
pub fn interpret(event: &InputEvent) -> (action: Option<Action>)
    ensures
        action == interpreted(*event),
{
    match event {
        InputEvent::Key(key) => interpret_key(key),
        InputEvent::Wheel { device: _, delta } => match delta {
            WheelDelta::Lines(lines) => Some(
                Action::ScrollCells(Position { x: -(lines.x as i64), y: -(lines.y as i64) }),
            ),
            WheelDelta::Pixels(pixels) => Some(Action::ScrollPixels(*pixels)),
        },
        InputEvent::Resize(size) => Some(Action::Resize(*size)),
    }
}

} // verus!
