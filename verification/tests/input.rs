use cg_demo::input::{interpret_event, log_instructions, movement_axis, Command, InputEvent, Key, MovementAxis};
use cg_demo::MovementDirection;

#[test]
fn keymap_matches_bindings() {
    let cases: Vec<(Key, Command)> = vec![
        (Key::Plus, Command::IncreaseSamples),
        (Key::KpPlus, Command::IncreaseSamples),
        (Key::Minus, Command::DecreaseSamples),
        (Key::KpMinus, Command::DecreaseSamples),
        (Key::W, Command::Move(MovementDirection::FORWARD)),
        (Key::Up, Command::Move(MovementDirection::FORWARD)),
        (Key::A, Command::Move(MovementDirection::LEFT)),
        (Key::Left, Command::Move(MovementDirection::LEFT)),
        (Key::S, Command::Move(MovementDirection::BACKWARD)),
        (Key::Down, Command::Move(MovementDirection::BACKWARD)),
        (Key::D, Command::Move(MovementDirection::RIGHT)),
        (Key::Right, Command::Move(MovementDirection::RIGHT)),
        (Key::Space, Command::Move(MovementDirection::UP)),
        (Key::PageUp, Command::Move(MovementDirection::UP)),
        (Key::LCtrl, Command::Move(MovementDirection::DOWN)),
        (Key::PageDown, Command::Move(MovementDirection::DOWN)),
        (Key::Kp0, Command::ResetCamera),
        (Key::Home, Command::ResetCamera),
        (Key::M, Command::CyclePrograms),
        (Key::Escape, Command::Terminate),
        (Key::Unknown, Command::Ignore),
    ];
    for (key, expected) in cases {
        assert_eq!(interpret_event(InputEvent::KeyDown(key)), expected);
    }
}

#[test]
fn quit_event_terminates() {
    assert_eq!(interpret_event(InputEvent::Quit), Command::Terminate);
}

#[test]
fn mouse_motion_rotates_with_same_deltas() {
    assert_eq!(
        interpret_event(InputEvent::MouseMotion { xrel: -7, yrel: 13 }),
        Command::Rotate { xrel: -7, yrel: 13 }
    );
}

#[test]
fn mouse_wheel_zooms_with_same_delta() {
    assert_eq!(
        interpret_event(InputEvent::MouseWheel { y: -2 }),
        Command::Zoom { y: -2 }
    );
}

#[test]
fn unhandled_event_is_ignored() {
    assert_eq!(interpret_event(InputEvent::Other), Command::Ignore);
}

#[test]
fn instructions_list_the_controls() {
    let text = log_instructions();
    assert!(text.starts_with("\n    Controls:"));
    assert!(text.contains("ESC"));
    assert!(text.contains("Increase model vertices"));
    assert!(text.contains("Cycle shaders"));
    assert!(text.contains("Scroll to zoom."));
}

#[test]
fn movement_axes_pair_directions_with_signs() {
    let cases = vec![
        (MovementDirection::FORWARD, (MovementAxis::Front, true)),
        (MovementDirection::BACKWARD, (MovementAxis::Front, false)),
        (MovementDirection::LEFT, (MovementAxis::Right, false)),
        (MovementDirection::RIGHT, (MovementAxis::Right, true)),
        (MovementDirection::UP, (MovementAxis::Up, true)),
        (MovementDirection::DOWN, (MovementAxis::Up, false)),
    ];
    for (dir, expected) in cases {
        assert_eq!(movement_axis(dir), expected);
    }
}
