//! The protocol-facing data model: the events the dispatcher routes, the
//! display commands the handlers emit, and the masked geometry-change record
//! that a configure request carries.

use vstd::prelude::*;

use crate::Window;

verus! {

/// Width of the decorative border drawn around every frame window.
pub const FRAME_BORDER_WIDTH: u32 = 3;

/// Colour of the frame border.
pub const FRAME_BORDER_COLOR: u64 = 0xff0000;

/// Background colour of the frame window.
pub const FRAME_BACKGROUND_COLOR: u64 = 0x0000ff;

/// Bit set in a motion event's button-state mask while the primary
/// (move-drag) button is held.
pub const PRIMARY_BUTTON_MASK: u32 = 0x100;

/// Bit set in a motion event's button-state mask while the secondary
/// (resize-drag) button is held.
pub const SECONDARY_BUTTON_MASK: u32 = 0x400;

/// Configure-request mask bit: the x coordinate is meaningful.
pub const MASK_X: u64 = 0x1;

/// Configure-request mask bit: the y coordinate is meaningful.
pub const MASK_Y: u64 = 0x2;

/// Configure-request mask bit: the width is meaningful.
pub const MASK_WIDTH: u64 = 0x4;

/// Configure-request mask bit: the height is meaningful.
pub const MASK_HEIGHT: u64 = 0x8;

/// Configure-request mask bit: the border width is meaningful.
pub const MASK_BORDER_WIDTH: u64 = 0x10;

/// Configure-request mask bit: the sibling is meaningful.
pub const MASK_SIBLING: u64 = 0x20;

/// Configure-request mask bit: the stacking order is meaningful.
pub const MASK_STACK_MODE: u64 = 0x40;

/// What the display session reports of a window when the manager considers
/// framing it.
#[derive(Clone, Copy, Debug, PartialEq, Eq, Structural)]
pub struct WindowAttributes {
    pub x: i32,
    pub y: i32,
    pub width: i32,
    pub height: i32,
    /// The window asked the server to bypass management.
    pub override_redirect: bool,
    /// The window is currently in the viewable map state.
    pub viewable: bool,
}

/// Everything the display session needs to create a frame window.
#[derive(Clone, Copy, Debug, PartialEq, Eq, Structural)]
pub struct FrameParams {
    pub x: i32,
    pub y: i32,
    pub width: i32,
    pub height: i32,
    pub border_width: u32,
    pub border_color: u64,
    pub background_color: u64,
}

/// A frame window's position and size as the display session reports them.
#[derive(Clone, Copy, Debug, PartialEq, Eq, Structural)]
pub struct FrameGeometry {
    pub x: i32,
    pub y: i32,
    pub width: u32,
    pub height: u32,
}

/// The fields a client may ask to change, alongside the mask saying which of
/// them are meaningful.
#[derive(Clone, Copy, Debug, PartialEq, Eq, Structural)]
pub struct Changes {
    pub x: i32,
    pub y: i32,
    pub width: i32,
    pub height: i32,
    pub border_width: i32,
    pub sibling: Window,
    pub stack_mode: i32,
}

/// A client's configure request: the requested fields and the bit mask
/// selecting which of them the client means.
#[derive(Clone, Copy, Debug, PartialEq, Eq, Structural)]
pub struct ConfigureRequest {
    pub window: Window,
    pub x: i32,
    pub y: i32,
    pub width: i32,
    pub height: i32,
    pub border_width: i32,
    pub sibling: Window,
    pub stack_mode: i32,
    pub value_mask: u64,
}

/// A window's persistent geometry, used to model what a masked configure
/// command does to it.
#[derive(Clone, Copy, Debug, PartialEq, Eq, Structural)]
pub struct Geometry {
    pub x: i32,
    pub y: i32,
    pub width: i32,
    pub height: i32,
    pub border_width: i32,
}

/// An event the dispatcher routes. All other protocol events are ignored.
#[derive(Clone, Copy, Debug, PartialEq, Eq, Structural)]
pub enum Event {
    /// A client wants to become mapped.
    MapRequest { window: Window },
    /// A client was unmapped; `event_target` is the window the notification
    /// was delivered with respect to.
    UnmapNotify { window: Window, event_target: Window },
    /// A client asks for a geometry change.
    ConfigureRequest { request: ConfigureRequest },
    /// A grabbed button went down over a client, with the pointer at the
    /// given absolute position.
    ButtonPress { window: Window, pointer_x: i32, pointer_y: i32 },
    /// The pointer moved over a client while buttons in `button_state` were
    /// held, to the given absolute position.
    MotionNotify { window: Window, button_state: u32, pointer_x: i32, pointer_y: i32 },
}

/// A command for the display session, emitted by a handler. Commands are
/// executed in the order they are returned.
#[derive(Clone, Copy, Debug, PartialEq, Eq, Structural)]
pub enum Command {
    /// Subscribe the window to substructure-redirect and substructure-notify
    /// event classes.
    SelectSubstructureEvents { window: Window },
    /// Add the window to the server's save-set.
    AddToSaveSet { window: Window },
    /// Remove the window from the server's save-set.
    RemoveFromSaveSet { window: Window },
    /// Make the window a child of `parent`, at the given offset inside it.
    Reparent { window: Window, parent: Window, offset_x: i32, offset_y: i32 },
    /// Map the window.
    MapWindow { window: Window },
    /// Unmap the window.
    UnmapWindow { window: Window },
    /// Destroy the window.
    DestroyWindow { window: Window },
    /// Install the move-drag button-plus-modifier grab on the window.
    GrabMoveButton { window: Window },
    /// Install the resize-drag button-plus-modifier grab on the window.
    GrabResizeButton { window: Window },
    /// Install the close-shortcut key-plus-modifier grab on the window.
    GrabCloseKey { window: Window },
    /// Raise the window to the top of the stacking order.
    RaiseWindow { window: Window },
    /// Apply exactly the masked fields of `changes` to the window.
    ConfigureWindow { window: Window, changes: Changes, value_mask: u64 },
    /// Move the window to the given absolute position.
    MoveWindow { window: Window, x: i64, y: i64 },
    /// Resize the window to the given size.
    ResizeWindow { window: Window, width: i64, height: i64 },
}

/// What the event loop still has to do after a dispatch, beyond executing
/// the returned commands.
#[derive(Clone, Copy, Debug, PartialEq, Eq, Structural)]
pub enum FollowUp {
    /// Nothing: the commands are the whole effect.
    Done,
    /// Run the framing steps for `window` (a visibility request, so the
    /// startup filter does not apply), then map `window` itself.
    FrameThenMap { window: Window },
    /// Fetch the current geometry of `frame` and hand it to `record_press`
    /// for `window`.
    QueryFrameGeometry { window: Window, frame: Window },
}

/// The geometry a window is left with when the display server applies a
/// masked configure command: exactly the masked fields change.
pub open spec fn spec_apply_changes(g: Geometry, c: Changes, value_mask: u64) -> Geometry {
    Geometry {
        x: if value_mask & MASK_X != 0 {
            c.x
        } else {
            g.x
        },
        y: if value_mask & MASK_Y != 0 {
            c.y
        } else {
            g.y
        },
        width: if value_mask & MASK_WIDTH != 0 {
            c.width
        } else {
            g.width
        },
        height: if value_mask & MASK_HEIGHT != 0 {
            c.height
        } else {
            g.height
        },
        border_width: if value_mask & MASK_BORDER_WIDTH != 0 {
            c.border_width
        } else {
            g.border_width
        },
    }
}

/// Executable form of [`spec_apply_changes`].
pub fn apply_changes(g: &Geometry, c: &Changes, value_mask: u64) -> (r: Geometry)
    ensures
        r == spec_apply_changes(*g, *c, value_mask),
{
    Geometry {
        x: if value_mask & MASK_X != 0 {
            c.x
        } else {
            g.x
        },
        y: if value_mask & MASK_Y != 0 {
            c.y
        } else {
            g.y
        },
        width: if value_mask & MASK_WIDTH != 0 {
            c.width
        } else {
            g.width
        },
        height: if value_mask & MASK_HEIGHT != 0 {
            c.height
        } else {
            g.height
        },
        border_width: if value_mask & MASK_BORDER_WIDTH != 0 {
            c.border_width
        } else {
            g.border_width
        },
    }
}

} // verus!
