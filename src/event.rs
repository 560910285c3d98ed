use vstd::prelude::*;

verus! {

/// Key code of the modifier key that selects the secondary layer.
pub const KEY_FN: u32 = 464;

/// Phase of one touch contact.
#[derive(Clone, Copy, Debug, PartialEq, Eq, Structural)]
pub enum TouchPhase {
    Down,
    Motion,
    Up,
    Other,
}

/// A touch report, in physical pixels of the function row.
#[derive(Clone, Copy, Debug, PartialEq, Eq, Structural)]
pub struct TouchEvent {
    pub phase: TouchPhase,
    /// Hardware slot of the contact.
    pub slot: u32,
    pub x: i32,
    pub y: i32,
    /// Whether the report comes from the function row's own digitizer.
    pub from_digitizer: bool,
}

/// An input event, reduced to what the control logic reads.
#[derive(Clone, Copy, Debug, PartialEq, Eq, Structural)]
pub enum InputEvent {
    Keyboard { key: u32, pressed: bool },
    Pointer,
    Gesture,
    Touch(TouchEvent),
    Lid { closed: bool },
    Other,
}

impl InputEvent {
    /// Events that count as user activity for the backlight.
    pub open spec fn is_activity(self) -> bool {
        match self {
            InputEvent::Keyboard { .. } | InputEvent::Pointer | InputEvent::Gesture
            | InputEvent::Touch(_) => true,
            _ => false,
        }
    }
}

/// One key transition to inject on the virtual keyboard; each is followed
/// by a report event.
#[derive(Clone, Copy, Debug, PartialEq, Eq, Structural)]
pub struct KeyEmission {
    pub code: u16,
    pub pressed: bool,
}

} // verus!
