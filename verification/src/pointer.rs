//! The pointer tracker: the last known position of the mouse or of the
//! first finger, in CSS pixels of the surface.

use crate::error::PlaygroundError;
use crate::point::UserPoint;
use crate::viewport::{inv_canvas_position, Viewport};
use vstd::prelude::*;

verus! {

/// What a mouse event says of the pointer: its offset from the corner of
/// the surface.
#[derive(Debug, Clone, Copy, PartialEq, Eq, Structural)]
pub struct MouseInput {
    pub offset_x: i32,
    pub offset_y: i32,
}

/// One finger of a touch event, by its client coordinates.
#[derive(Debug, Clone, Copy, PartialEq, Eq, Structural)]
pub struct Touch {
    pub client_x: i32,
    pub client_y: i32,
}

/// What a touch event says of the fingers on the surface, first finger
/// first.
#[derive(Debug)]
pub struct TouchInput {
    pub touches: Vec<Touch>,
}

/// The last known pointer position. Its view is the pair `(x, y)`.
#[derive(Debug, Clone, Copy, PartialEq, Eq, Structural)]
pub struct PointerTracker {
    pub x: i32,
    pub y: i32,
}

impl View for PointerTracker {
    type V = (int, int);

    open spec fn view(&self) -> (int, int) {
        (self.x as int, self.y as int)
    }
}

impl PointerTracker {
    /// A tracker that has seen no event yet: the pointer is taken to be in
    /// the corner.
    pub fn new() -> (tracker: PointerTracker)
        ensures
            tracker@ == (0int, 0int),
    {
        PointerTracker { x: 0, y: 0 }
    }
}

/// The stored position.
pub fn get_mouse(tracker: &PointerTracker) -> (position: (i32, i32))
    ensures
        (position.0 as int, position.1 as int) == tracker@,
{
    (tracker.x, tracker.y)
}

/// Stores a position.
pub fn set_mouse(tracker: &mut PointerTracker, x: i32, y: i32)
    ensures
        final(tracker)@ == (x as int, y as int),
{
    tracker.x = x;
    tracker.y = y;
}

/// Takes the position from a mouse event: its offset coordinates.
pub fn upd_mouse(tracker: &mut PointerTracker, event: &MouseInput)
    ensures
        final(tracker)@ == (event.offset_x as int, event.offset_y as int),
{
    set_mouse(tracker, event.offset_x, event.offset_y)
}

/// Takes the position from a touch event: the client coordinates of the
/// first finger. Other fingers are ignored. An event without a finger is not
/// a touch event.
pub fn upd_touch(tracker: &mut PointerTracker, event: &TouchInput)
    requires
        event.touches@.len() > 0,
    ensures
        final(tracker)@ == (
            event.touches@[0].client_x as int,
            event.touches@[0].client_y as int,
        ),
{
    let x = event.touches[0].client_x;
    let y = event.touches[0].client_y;
    set_mouse(tracker, x, y)
}

/// The pointer position in CSS pixels of the surface.
pub fn absolute_mouse_position(tracker: &PointerTracker) -> (position: (i32, i32))
    ensures
        (position.0 as int, position.1 as int) == tracker@,
{
    get_mouse(tracker)
}

/// The pointer position in user space.
pub fn mouse_position(tracker: &PointerTracker, view: &Viewport) -> (r: Result<
    UserPoint,
    PlaygroundError,
>)
    ensures
        match r {
            Ok(p) => view@.matrix.invertible() && p@ == view@.user_position(
                tracker@.0,
                tracker@.1,
            ),
            Err(e) => !view@.matrix.invertible() && e == PlaygroundError::SingularTransform,
        },
{
    let (x, y) = absolute_mouse_position(tracker);
    inv_canvas_position(view, x, y)
}

} // verus!
