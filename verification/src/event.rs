use vstd::prelude::*;

verus! {

/// A key.
#[derive(Debug, Clone, Copy, PartialEq, Eq, Structural)]
pub enum KeyCode {
    /// The escape key.
    Esc,
    /// A character key.
    Char(char),
    /// Any other key.
    Other,
}

/// The modifier keys held down with a key.
#[derive(Debug, Clone, Copy, PartialEq, Eq, Structural)]
pub struct KeyModifiers {
    pub shift: bool,
    pub control: bool,
    pub alt: bool,
}

/// A key press.
#[derive(Debug, Clone, Copy, PartialEq, Eq, Structural)]
pub struct KeyEvent {
    pub code: KeyCode,
    pub modifiers: KeyModifiers,
}

/// What the mouse did.
#[derive(Debug, Clone, Copy, PartialEq, Eq, Structural)]
pub enum MouseEventKind {
    /// A button was pressed.
    Down,
    /// A button was released.
    Up,
    /// The mouse moved with a button held.
    Drag,
    /// The mouse moved with no button held.
    Moved,
    /// The wheel turned towards the user.
    ScrollDown,
    /// The wheel turned away from the user.
    ScrollUp,
}

/// One input event.
#[derive(Debug, Clone, Copy, PartialEq, Eq, Structural)]
pub enum Event {
    /// A key press.
    Key(KeyEvent),
    /// A mouse event.
    Mouse(MouseEventKind),
    /// The terminal was resized to these columns and rows.
    Resize(u16, u16),
}

impl KeyEvent {
    /// This is the key `code` with no modifier held.
    pub open spec fn is_plain(&self, code: KeyCode) -> bool {
        &&& self.code == code
        &&& !self.modifiers.shift
        &&& !self.modifiers.control
        &&& !self.modifiers.alt
    }
}

impl Event {
    /// The event is the release of a mouse button.
    pub open spec fn is_mouse_up(&self) -> bool {
        *self == Event::Mouse(MouseEventKind::Up)
    }
}

} // verus!
