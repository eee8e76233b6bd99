use vstd::prelude::*;

verus! {

/// A key of the keyboard, as far as the engine and its simulations tell
/// keys apart; every other key keeps its host key code.
#[derive(Clone, Copy, Debug, PartialEq, Eq, Structural)]
pub enum Key {
    Escape,
    Left,
    Right,
    Up,
    Down,
    Other(i32),
}

/// An input or system event drained from the host during a tick.
#[derive(Clone, Copy, Debug, PartialEq, Eq, Structural)]
pub enum Event {
    /// The window was asked to close.
    Quit,
    KeyDown { keycode: Option<Key> },
    KeyUp { keycode: Option<Key> },
    /// Any event the engine does not look into.
    Other,
}

impl Event {
    /// A quit-class event: a window close, or the escape key going down.
    pub open spec fn is_quit_spec(&self) -> bool {
        *self is Quit || *self == (Event::KeyDown { keycode: Some(Key::Escape) })
    }

    #[verifier::when_used_as_spec(is_quit_spec)]
    pub fn is_quit(&self) -> (r: bool)
        ensures
            r == self.is_quit(),
    {
        match self {
            Event::Quit => true,
            Event::KeyDown { keycode: Some(Key::Escape) } => true,
            _ => false,
        }
    }
}

} // verus!
