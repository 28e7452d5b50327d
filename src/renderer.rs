use vstd::prelude::*;

verus! {

/// A control on the first joystick.
#[derive(Debug, Clone, Copy, PartialEq, Eq, Structural)]
pub enum InputType {
    Joystick1Button,
    Joystick1Up,
    Joystick1Down,
    Joystick1Left,
    Joystick1Right,
}

/// An event that the host delivers between two instructions; `Idle` when nothing happened.
#[derive(Debug, Clone, Copy, PartialEq, Eq, Structural)]
pub enum WindowEvent {
    Idle,
    Quit,
    InputStart(InputType),
    InputEnd(InputType),
}

} // verus!
