use vstd::prelude::*;

use crate::input::{binding, InputEvent, Movement, movement_for_key, KEY_S, KEY_W};
use crate::viewport::Viewport;

verus! {

/// A direction in the camera's frame that a movement runs along.
#[derive(Clone, Copy, Debug, PartialEq, Eq)]
pub enum Axis {
    /// The look direction.
    Orientation,
    /// The unit vector along `orientation × up`.
    Right,
    /// The camera's up vector.
    Up,
}

/// One discrete movement of the camera: the position moves by one
/// `move_speed` along `axis`, in its direction when `toward` holds and
/// against it otherwise. Each key press is one step, whatever the frame time.
#[derive(Clone, Copy, Debug, PartialEq, Eq)]
pub struct Step {
    pub axis: Axis,
    pub toward: bool,
}

/// A rotation request: the cursor's offset from the viewport center, in pixels.
/// `dx` turns the camera about its up vector, `dy` about its right vector;
/// pitch is not clamped.
#[derive(Clone, Copy, Debug, PartialEq, Eq)]
pub struct Look {
    pub dx: i64,
    pub dy: i64,
}

impl View for Look {
    type V = (int, int);

    open spec fn view(&self) -> (int, int) {
        (self.dx as int, self.dy as int)
    }
}

/// The step each movement takes. Strafing right runs along `orientation × up`,
/// so a camera looking down -z with +y up strafes right towards +x.
pub open spec fn step_of(m: Movement) -> Step {
    match m {
        Movement::Forward => Step { axis: Axis::Orientation, toward: true },
        Movement::Back => Step { axis: Axis::Orientation, toward: false },
        Movement::StrafeLeft => Step { axis: Axis::Right, toward: false },
        Movement::StrafeRight => Step { axis: Axis::Right, toward: true },
        Movement::Up => Step { axis: Axis::Up, toward: true },
        Movement::Down => Step { axis: Axis::Up, toward: false },
    }
}

/// The movement that undoes another.
pub open spec fn opposite(m: Movement) -> Movement {
    match m {
        Movement::Forward => Movement::Back,
        Movement::Back => Movement::Forward,
        Movement::StrafeLeft => Movement::StrafeRight,
        Movement::StrafeRight => Movement::StrafeLeft,
        Movement::Up => Movement::Down,
        Movement::Down => Movement::Up,
    }
}

/// The step an event asks for: a key down whose key is bound to a movement.
pub open spec fn key_step(event: InputEvent) -> Option<Step> {
    match event {
        InputEvent::KeyDown { keycode: Some(k) } => match binding(k) {
            Some(m) => Some(step_of(m)),
            None => None,
        },
        _ => None,
    }
}

/// The rotation an event asks for on a viewport of size `vp`: every cursor
/// motion, measured from the viewport center.
pub open spec fn look_of(vp: (int, int), event: InputEvent) -> Option<(int, int)> {
    match event {
        InputEvent::MouseMotion { x, y } => Some((x - vp.0 / 2, y - vp.1 / 2)),
        _ => None,
    }
}

/// Net number of steps a sequence of steps takes along `axis`: one for each
/// step in its direction, minus one for each step against it.
pub open spec fn net_steps(steps: Seq<Step>, axis: Axis) -> int
    decreases steps.len(),
{
    if steps.len() == 0 {
        0
    } else {
        let last = steps.last();
        let d = if last.axis != axis {
            0
        } else if last.toward {
            1
        } else {
            -1
        };
        net_steps(steps.drop_last(), axis) + d
    }
}

impl Movement {
    /// The step this movement takes.
    pub fn step(&self) -> (r: Step)
        ensures
            r == step_of(*self),
    {
        match self {
            Movement::Forward => Step { axis: Axis::Orientation, toward: true },
            Movement::Back => Step { axis: Axis::Orientation, toward: false },
            Movement::StrafeLeft => Step { axis: Axis::Right, toward: false },
            Movement::StrafeRight => Step { axis: Axis::Right, toward: true },
            Movement::Up => Step { axis: Axis::Up, toward: true },
            Movement::Down => Step { axis: Axis::Up, toward: false },
        }
    }
}

/// Turns input events into camera steps and rotations for one viewport.
#[derive(Clone, Copy, Debug, PartialEq, Eq)]
pub struct CameraControls {
    pub viewport: Viewport,
}

impl CameraControls {
    pub fn new(viewport: Viewport) -> (r: CameraControls)
        ensures
            r.viewport == viewport,
    {
        CameraControls { viewport }
    }

    /// The step a key event asks for; `None` for any other event and for
    /// keys bound to no movement.
    pub fn keyboard_inputs(&self, event: &InputEvent) -> (r: Option<Step>)
        ensures
            r == key_step(*event),
    {
        match event {
            InputEvent::KeyDown { keycode: Some(k) } => match movement_for_key(*k) {
                Some(m) => Some(m.step()),
                None => None,
            },
            _ => None,
        }
    }

    /// The rotation a cursor motion asks for; `None` for any other event.
    /// After a motion the cursor goes back to `recentre_point`.
    pub fn mouse_inputs(&self, event: &InputEvent) -> (r: Option<Look>)
        ensures
            match look_of(self.viewport@, *event) {
                Some(o) => r matches Some(l) && l@ == o,
                None => r is None,
            },
    {
        match event {
            InputEvent::MouseMotion { x, y } => {
                let (dx, dy) = self.viewport.offset_from_center(*x, *y);
                Some(Look { dx, dy })
            },
            _ => None,
        }
    }

    /// Where the cursor is put after each motion: the viewport center.
    pub fn recentre_point(&self) -> (r: (i32, i32))
        ensures
            r.0 as int == self.viewport@.0 / 2,
            r.1 as int == self.viewport@.1 / 2,
    {
        self.viewport.center()
    }
}

/// A key event whose key is bound to no movement (Escape included) asks for
/// no step and no rotation, so it leaves the camera's position and
/// orientation as they were.
pub proof fn lemma_unbound_key_is_ignored(vp: (int, int), keycode: Option<i32>)
    requires
        keycode matches Some(k) ==> binding(k) is None,
    ensures
        key_step(InputEvent::KeyDown { keycode }) is None,
        look_of(vp, InputEvent::KeyDown { keycode }) is None,
{
}

/// A movement followed by its opposite leaves the net movement along every
/// axis as it was.
pub proof fn lemma_opposite_moves_cancel(steps: Seq<Step>, m: Movement, axis: Axis)
    ensures
        net_steps(steps.push(step_of(m)).push(step_of(opposite(m))), axis) == net_steps(
            steps,
            axis,
        ),
{
    let s1 = steps.push(step_of(m));
    let s2 = s1.push(step_of(opposite(m)));
    assert(s2.drop_last() == s1);
    assert(s1.drop_last() == steps);
    assert(net_steps(s2, axis) == net_steps(s1, axis) + (if s2.last().axis != axis {
        0
    } else if s2.last().toward {
        1
    } else {
        -1
    }));
    assert(net_steps(s1, axis) == net_steps(steps, axis) + (if s1.last().axis != axis {
        0
    } else if s1.last().toward {
        1
    } else {
        -1
    }));
}

/// Pressing the forward key and then the back key, with no rotation between
/// them, leaves the net movement along every axis as it was.
pub proof fn lemma_forward_then_back_returns(steps: Seq<Step>, axis: Axis)
    ensures
        key_step(InputEvent::KeyDown { keycode: Some(KEY_W) }) == Some(step_of(Movement::Forward)),
        key_step(InputEvent::KeyDown { keycode: Some(KEY_S) }) == Some(
            step_of(opposite(Movement::Forward)),
        ),
        net_steps(
            steps.push(key_step(InputEvent::KeyDown { keycode: Some(KEY_W) })->0).push(
                key_step(InputEvent::KeyDown { keycode: Some(KEY_S) })->0,
            ),
            axis,
        ) == net_steps(steps, axis),
{
    lemma_opposite_moves_cancel(steps, Movement::Forward, axis);
}

/// A cursor motion that ends on the viewport's middle row asks for a turn
/// about the up vector alone, with no pitch.
pub proof fn lemma_middle_row_motion_is_yaw_only(vp: (int, int), x: i32, y: i32)
    requires
        y == vp.1 / 2,
    ensures
        look_of(vp, InputEvent::MouseMotion { x, y }) == Some((x - vp.0 / 2, 0int)),
{
}

} // verus!
