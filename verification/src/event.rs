//! The window events the adapter reacts to, as plain values.

use vstd::prelude::*;

verus! {

/// Whether a key went down or came up.
#[derive(Clone, Copy, Debug, PartialEq, Eq)]
pub enum KeyState {
    Pressed,
    Released,
}

/// The key of a keyboard event, named by its position on the keyboard.
///
/// Only the escape key has a meaning to the adapter; every other key, and a
/// key the platform could not identify, is `Other`.
#[derive(Clone, Copy, Debug, PartialEq, Eq)]
pub enum PhysicalKey {
    Escape,
    Other,
}

/// One event of the window, as the host event loop reports it.
#[derive(Clone, Copy, Debug, PartialEq, Eq)]
pub enum WindowEvent {
    /// A key changed state, or repeats while held down.
    KeyboardInput { physical_key: PhysicalKey, state: KeyState, repeat: bool },
    /// The window's drawable area has a new size, in physical pixels.
    Resized { width: u32, height: u32 },
    /// The user asked for the window to be closed.
    CloseRequested,
    /// Any event the adapter has no reaction to.
    Other,
}

impl WindowEvent {
    /// A keyboard event for the escape key, whatever its other fields hold.
    pub open spec fn is_escape(self) -> bool {
        self matches WindowEvent::KeyboardInput { physical_key, .. }
            && physical_key == PhysicalKey::Escape
    }

    /// An event that asks the event loop to stop: escape or a close request.
    pub open spec fn asks_exit(self) -> bool {
        self.is_escape() || self is CloseRequested
    }
}

} // verus!
