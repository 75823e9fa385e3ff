use vstd::prelude::*;

verus! {

/// SDL key codes of the keys the viewer reacts to.
pub const KEY_ESCAPE: i32 = 27;
pub const KEY_SPACE: i32 = 32;
pub const KEY_A: i32 = 97;
pub const KEY_D: i32 = 100;
pub const KEY_S: i32 = 115;
pub const KEY_W: i32 = 119;
pub const KEY_LSHIFT: i32 = 1073742049;

/// One event from the window's event queue, reduced to what the viewer reads.
#[derive(Clone, Copy, Debug, PartialEq, Eq)]
pub enum InputEvent {
    /// The window was closed.
    Quit,
    /// A key went down; `keycode` is its SDL key code, when it has one.
    KeyDown { keycode: Option<i32> },
    /// The cursor moved to (x, y) in window pixels.
    MouseMotion { x: i32, y: i32 },
    /// Anything else.
    Other,
}

/// A logical movement of the camera.
#[derive(Clone, Copy, Debug, PartialEq, Eq)]
pub enum Movement {
    Forward,
    Back,
    StrafeLeft,
    StrafeRight,
    Up,
    Down,
}

/// The key bindings: W/S forward and back, A/D strafe, Space up, left Shift down.
pub open spec fn binding(keycode: i32) -> Option<Movement> {
    if keycode == KEY_W {
        Some(Movement::Forward)
    } else if keycode == KEY_S {
        Some(Movement::Back)
    } else if keycode == KEY_A {
        Some(Movement::StrafeLeft)
    } else if keycode == KEY_D {
        Some(Movement::StrafeRight)
    } else if keycode == KEY_SPACE {
        Some(Movement::Up)
    } else if keycode == KEY_LSHIFT {
        Some(Movement::Down)
    } else {
        None
    }
}

/// The movement bound to a key, if any.
pub fn movement_for_key(keycode: i32) -> (r: Option<Movement>)
    ensures
        r == binding(keycode),
{
    if keycode == KEY_W {
        Some(Movement::Forward)
    } else if keycode == KEY_S {
        Some(Movement::Back)
    } else if keycode == KEY_A {
        Some(Movement::StrafeLeft)
    } else if keycode == KEY_D {
        Some(Movement::StrafeRight)
    } else if keycode == KEY_SPACE {
        Some(Movement::Up)
    } else if keycode == KEY_LSHIFT {
        Some(Movement::Down)
    } else {
        None
    }
}

/// Whether the event ends the viewer: the window closing, or Escape.
pub open spec fn is_exit(event: InputEvent) -> bool {
    ||| event is Quit
    ||| event == (InputEvent::KeyDown { keycode: Some(KEY_ESCAPE) })
}

/// Whether the event ends the viewer.
pub fn quit_requested(event: &InputEvent) -> (r: bool)
    ensures
        r == is_exit(*event),
{
    match event {
        InputEvent::Quit => true,
        InputEvent::KeyDown { keycode: Some(k) } => *k == KEY_ESCAPE,
        _ => false,
    }
}

} // verus!
