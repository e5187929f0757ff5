//! The drag controller: the single interactive-manipulation session and the
//! arithmetic that turns pointer motion into frame geometry.

use vstd::prelude::*;

use crate::Window;

verus! {

/// The active drag session. At most one exists at a time; it is created or
/// overwritten by every button press on a registered client and consulted by
/// subsequent motion events from that client.
#[derive(Clone, Copy, Debug, PartialEq, Eq, Structural)]
pub struct DragSession {
    /// The client window the session belongs to.
    pub client: Window,
    /// Absolute pointer position when the button went down.
    pub pointer_x: i32,
    pub pointer_y: i32,
    /// The frame's position when the button went down.
    pub frame_x: i32,
    pub frame_y: i32,
    /// The frame's size when the button went down.
    pub frame_width: u32,
    pub frame_height: u32,
}

/// Where a move-drag puts the frame: the recorded start position displaced
/// by exactly the pointer's movement since the press.
pub open spec fn spec_move_x(s: DragSession, pointer_x: int) -> int {
    s.frame_x + (pointer_x - s.pointer_x)
}

/// The vertical companion of [`spec_move_x`].
pub open spec fn spec_move_y(s: DragSession, pointer_y: int) -> int {
    s.frame_y + (pointer_y - s.pointer_y)
}

/// What a resize-drag makes of the frame's width: the pointer's horizontal
/// movement is added to the recorded start width, with the movement clamped
/// so the result never falls below zero.
pub open spec fn spec_resize_width(s: DragSession, pointer_x: int) -> int {
    let delta = pointer_x - s.pointer_x;
    if delta < -(s.frame_width as int) {
        0
    } else {
        s.frame_width + delta
    }
}

/// The vertical companion of [`spec_resize_width`].
pub open spec fn spec_resize_height(s: DragSession, pointer_y: int) -> int {
    let delta = pointer_y - s.pointer_y;
    if delta < -(s.frame_height as int) {
        0
    } else {
        s.frame_height + delta
    }
}

impl DragSession {
    /// The position a move-drag sends the frame to, for the current pointer
    /// position.
    pub fn move_target(&self, pointer_x: i32, pointer_y: i32) -> (r: (i64, i64))
        ensures
            r.0 == spec_move_x(*self, pointer_x as int),
            r.1 == spec_move_y(*self, pointer_y as int),
    {
        let dx: i64 = pointer_x as i64 - self.pointer_x as i64;
        let dy: i64 = pointer_y as i64 - self.pointer_y as i64;
        (self.frame_x as i64 + dx, self.frame_y as i64 + dy)
    }

    /// The size a resize-drag gives the frame, for the current pointer
    /// position; never negative on either axis.
    pub fn resize_target(&self, pointer_x: i32, pointer_y: i32) -> (r: (i64, i64))
        ensures
            r.0 == spec_resize_width(*self, pointer_x as int),
            r.1 == spec_resize_height(*self, pointer_y as int),
            r.0 >= 0,
            r.1 >= 0,
    {
        let dx: i64 = pointer_x as i64 - self.pointer_x as i64;
        let dy: i64 = pointer_y as i64 - self.pointer_y as i64;
        let width: i64 = if dx < -(self.frame_width as i64) {
            0
        } else {
            self.frame_width as i64 + dx
        };
        let height: i64 = if dy < -(self.frame_height as i64) {
            0
        } else {
            self.frame_height as i64 + dy
        };
        (width, height)
    }
}

} // verus!
