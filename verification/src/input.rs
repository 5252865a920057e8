//! Input events and the commands they are mapped to.
//!
//! The window library delivers raw events (key presses, mouse motion, wheel
//! motion). `interpret_event` turns each of them into one of the demo's
//! commands; the caller then applies the command to the control state and to
//! the camera.

use vstd::prelude::*;

verus! {

/// Directions in which the camera can be moved.
#[allow(non_camel_case_types)]
#[derive(Clone, Copy, Debug, PartialEq, Eq, Structural)]
pub enum MovementDirection {
    FORWARD,
    BACKWARD,
    LEFT,
    RIGHT,
    UP,
    DOWN,
}

/// The keys the demo reacts to. Any other key is reported as `Unknown`.
#[derive(Clone, Copy, Debug, PartialEq, Eq, Structural)]
pub enum Key {
    W,
    A,
    S,
    D,
    Up,
    Down,
    Left,
    Right,
    Space,
    PageUp,
    LCtrl,
    PageDown,
    Kp0,
    Home,
    Plus,
    KpPlus,
    Minus,
    KpMinus,
    M,
    Escape,
    Unknown,
}

/// A raw input event, as delivered by the window library.
#[derive(Clone, Copy, Debug, PartialEq, Eq, Structural)]
pub enum InputEvent {
    Quit,
    KeyDown(Key),
    MouseMotion { xrel: i32, yrel: i32 },
    MouseWheel { y: i32 },
    Other,
}

/// What the demo does in reaction to one input event.
#[derive(Clone, Copy, Debug, PartialEq, Eq, Structural)]
pub enum Command {
    Terminate,
    IncreaseSamples,
    DecreaseSamples,
    Move(MovementDirection),
    ResetCamera,
    CyclePrograms,
    Rotate { xrel: i32, yrel: i32 },
    Zoom { y: i32 },
    Ignore,
}

/// The command bound to a pressed key.
pub open spec fn spec_key_command(key: Key) -> Command {
    match key {
        Key::Plus | Key::KpPlus => Command::IncreaseSamples,
        Key::Minus | Key::KpMinus => Command::DecreaseSamples,
        Key::W | Key::Up => Command::Move(MovementDirection::FORWARD),
        Key::A | Key::Left => Command::Move(MovementDirection::LEFT),
        Key::S | Key::Down => Command::Move(MovementDirection::BACKWARD),
        Key::D | Key::Right => Command::Move(MovementDirection::RIGHT),
        Key::Space | Key::PageUp => Command::Move(MovementDirection::UP),
        Key::LCtrl | Key::PageDown => Command::Move(MovementDirection::DOWN),
        Key::Kp0 | Key::Home => Command::ResetCamera,
        Key::M => Command::CyclePrograms,
        Key::Escape => Command::Terminate,
        Key::Unknown => Command::Ignore,
    }
}

/// The command that one input event triggers.
pub open spec fn spec_event_command(event: InputEvent) -> Command {
    match event {
        InputEvent::Quit => Command::Terminate,
        InputEvent::KeyDown(key) => spec_key_command(key),
        InputEvent::MouseMotion { xrel, yrel } => Command::Rotate { xrel, yrel },
        InputEvent::MouseWheel { y } => Command::Zoom { y },
        InputEvent::Other => Command::Ignore,
    }
}

/// Maps one raw input event to the command it is bound to: window-close and
/// escape terminate, plus and minus change the sample density, the movement
/// keys move the camera, mouse motion rotates it and the wheel zooms it.
pub fn interpret_event(event: InputEvent) -> (command: Command)
    ensures
        command == spec_event_command(event),
{
    match event {
        InputEvent::Quit => Command::Terminate,
        InputEvent::KeyDown(key) => match key {
            Key::Plus | Key::KpPlus => Command::IncreaseSamples,
            Key::Minus | Key::KpMinus => Command::DecreaseSamples,
            Key::W | Key::Up => Command::Move(MovementDirection::FORWARD),
            Key::A | Key::Left => Command::Move(MovementDirection::LEFT),
            Key::S | Key::Down => Command::Move(MovementDirection::BACKWARD),
            Key::D | Key::Right => Command::Move(MovementDirection::RIGHT),
            Key::Space | Key::PageUp => Command::Move(MovementDirection::UP),
            Key::LCtrl | Key::PageDown => Command::Move(MovementDirection::DOWN),
            Key::Kp0 | Key::Home => Command::ResetCamera,
            Key::M => Command::CyclePrograms,
            Key::Escape => Command::Terminate,
            Key::Unknown => Command::Ignore,
        },
        InputEvent::MouseMotion { xrel, yrel } => Command::Rotate { xrel, yrel },
        InputEvent::MouseWheel { y } => Command::Zoom { y },
        InputEvent::Other => Command::Ignore,
    }
}

/// The control instructions that the demo hands to its logger at startup.
pub fn log_instructions() -> (instructions: String)
    ensures
        instructions@ == "\n    Controls:\n     - ESC           => Quit\n     - '+'           => Increase model vertices\n     - '-'           => Decrease model vertices\n     - W/UP          => Move forward\n     - A/LEFT        => Move left\n     - S/DOWN        => Move backward\n     - S/RIGHT       => Move right\n     - Space/PgUp    => Move up\n     - Ctrl/PgDown   => Move down\n     - Pos1/KeyPad0  => Reset camera\n     - M             => Cycle shaders\n\n    Use the mouse to look around.\n    Scroll to zoom.\n    "@,
{
    "\n    Controls:\n     - ESC           => Quit\n     - '+'           => Increase model vertices\n     - '-'           => Decrease model vertices\n     - W/UP          => Move forward\n     - A/LEFT        => Move left\n     - S/DOWN        => Move backward\n     - S/RIGHT       => Move right\n     - Space/PgUp    => Move up\n     - Ctrl/PgDown   => Move down\n     - Pos1/KeyPad0  => Reset camera\n     - M             => Cycle shaders\n\n    Use the mouse to look around.\n    Scroll to zoom.\n    ".to_owned()
}

/// The camera basis vectors a movement can go along.
#[derive(Clone, Copy, Debug, PartialEq, Eq, Structural)]
pub enum MovementAxis {
    Front,
    Right,
    Up,
}

/// The axis each movement direction goes along, and whether it goes with
/// the axis or against it.
pub open spec fn spec_movement_axis(dir: MovementDirection) -> (MovementAxis, bool) {
    match dir {
        MovementDirection::FORWARD => (MovementAxis::Front, true),
        MovementDirection::BACKWARD => (MovementAxis::Front, false),
        MovementDirection::LEFT => (MovementAxis::Right, false),
        MovementDirection::RIGHT => (MovementAxis::Right, true),
        MovementDirection::UP => (MovementAxis::Up, true),
        MovementDirection::DOWN => (MovementAxis::Up, false),
    }
}

/// How the camera moves for a direction: forward and backward go with and
/// against the front vector, right and left with and against the right
/// vector, up and down with and against the up vector. The caller scales
/// the chosen vector by its movement speed.
pub fn movement_axis(dir: MovementDirection) -> (axis_sign: (MovementAxis, bool))
    ensures
        axis_sign == spec_movement_axis(dir),
{
    match dir {
        MovementDirection::FORWARD => (MovementAxis::Front, true),
        MovementDirection::BACKWARD => (MovementAxis::Front, false),
        MovementDirection::LEFT => (MovementAxis::Right, false),
        MovementDirection::RIGHT => (MovementAxis::Right, true),
        MovementDirection::UP => (MovementAxis::Up, true),
        MovementDirection::DOWN => (MovementAxis::Up, false),
    }
}

} // verus!
