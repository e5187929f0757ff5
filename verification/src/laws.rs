//! The guarantees the manager gives across its operations, stated over the
//! same spec functions its contracts use.

use vstd::prelude::*;

use crate::Window;
use crate::drag::DragSession;
use crate::drag::spec_resize_height;
use crate::drag::spec_resize_width;
use crate::events::Changes;
use crate::events::Command;
use crate::events::ConfigureRequest;
use crate::events::Event;
use crate::events::FrameGeometry;
use crate::events::Geometry;
use crate::events::WindowAttributes;
use crate::events::MASK_X;
use crate::events::MASK_Y;
use crate::events::PRIMARY_BUTTON_MASK;
use crate::events::spec_apply_changes;
use crate::manager::frame_allowed;
use crate::manager::spec_changes_of;
use crate::manager::spec_configure_commands;
use crate::manager::spec_motion_commands;
use crate::manager::spec_press_commands;
use crate::manager::spec_press_drag;
use crate::manager::spec_unmap_commands;
use crate::manager::spec_unmap_registry;
use crate::drag::spec_move_x;
use crate::drag::spec_move_y;

verus! {

/// The window an event refers to.
pub open spec fn event_window(e: Event) -> Window {
    match e {
        Event::MapRequest { window } => window,
        Event::UnmapNotify { window, .. } => window,
        Event::ConfigureRequest { request } => request.window,
        Event::ButtonPress { window, .. } => window,
        Event::MotionNotify { window, .. } => window,
    }
}

/// Framing is idempotent: once a client is framed it has exactly one
/// registry entry, and a further framing attempt for it is refused before
/// any display command is planned — whatever attributes the display would
/// report, and on the startup path as much as on a visibility request.
pub proof fn lemma_frame_idempotent(
    r0: Map<Window, Window>,
    w: Window,
    f: Window,
    created_before: bool,
    attrs: WindowAttributes,
)
    requires
        r0.dom().finite(),
        !r0.contains_key(w),
    ensures
        r0.insert(w, f).contains_key(w),
        r0.insert(w, f)[w] == f,
        r0.insert(w, f).dom().len() == r0.dom().len() + 1,
        !frame_allowed(r0.insert(w, f), w, created_before, attrs),
{
    broadcast use vstd::set::axiom_set_insert_len;

}

/// Round trip: framing a client and then unframing it leaves the registry
/// not containing that client; if it held nothing for the client before, it
/// is back to exactly what it was.
pub proof fn lemma_frame_unframe_round_trip(r0: Map<Window, Window>, w: Window, f: Window)
    ensures
        !r0.insert(w, f).remove(w).contains_key(w),
        !r0.contains_key(w) ==> r0.insert(w, f).remove(w) == r0,
{
    if !r0.contains_key(w) {
        assert(r0.insert(w, f).remove(w) =~= r0);
    }
}

/// Startup filter: a pre-existing window with override-redirect set, or one
/// not in a viewable state, is never admitted for framing during startup
/// enumeration, so no registry entry can arise for it there.
pub proof fn lemma_startup_filter(r: Map<Window, Window>, w: Window, attrs: WindowAttributes)
    requires
        attrs.override_redirect || !attrs.viewable,
    ensures
        !frame_allowed(r, w, true, attrs),
{
}

/// Geometry pass-through, at the display: a configure command whose mask
/// does not select x or y leaves a window's position exactly where it was.
pub proof fn lemma_masked_configure_keeps_position(g: Geometry, c: Changes, value_mask: u64)
    requires
        value_mask & MASK_X == 0,
        value_mask & MASK_Y == 0,
    ensures
        spec_apply_changes(g, c, value_mask).x == g.x,
        spec_apply_changes(g, c, value_mask).y == g.y,
{
}

/// Geometry pass-through, at the dispatcher: a configure request for a
/// framed client is forwarded to the frame and to the client with the same
/// unmodified fields and the same mask, so the masked application acts alike
/// on both.
pub proof fn lemma_configure_reaches_both(r: Map<Window, Window>, req: ConfigureRequest)
    requires
        r.contains_key(req.window),
    ensures
        spec_configure_commands(r, req) =~= seq![
            (Command::ConfigureWindow {
                window: r[req.window],
                changes: spec_changes_of(req),
                value_mask: req.value_mask,
            }),
            (Command::ConfigureWindow {
                window: req.window,
                changes: spec_changes_of(req),
                value_mask: req.value_mask,
            }),
        ],
{
}

/// An unmap notification whose event target is the root window is ignored:
/// the registry keeps every entry and no display command is issued, whatever
/// the notification's window field names.
pub proof fn lemma_root_unmap_ignored(r: Map<Window, Window>, root: Window, w: Window)
    ensures
        spec_unmap_registry(r, root, w, root) == r,
        spec_unmap_commands(r, root, w, root) == Seq::<Command>::empty(),
{
}

/// Drag-move: while the primary button is held, motion from the drag's
/// owning client moves the frame — and only the frame — to exactly the
/// recorded start position displaced by the pointer's movement.
pub proof fn lemma_drag_move_exact(
    r: Map<Window, Window>,
    s: DragSession,
    w: Window,
    button_state: u32,
    pointer_x: i32,
    pointer_y: i32,
)
    requires
        r.contains_key(w),
        s.client == w,
        button_state & PRIMARY_BUTTON_MASK != 0,
    ensures
        spec_motion_commands(r, Some(s), w, button_state, pointer_x, pointer_y) =~= seq![
            (Command::MoveWindow {
                window: r[w],
                x: (s.frame_x + pointer_x - s.pointer_x) as i64,
                y: (s.frame_y + pointer_y - s.pointer_y) as i64,
            }),
        ],
{
    assert(spec_move_x(s, pointer_x as int) == s.frame_x + pointer_x - s.pointer_x);
    assert(spec_move_y(s, pointer_y as int) == s.frame_y + pointer_y - s.pointer_y);
}

/// Drag-resize clamp: whatever the pointer's movement, the size a
/// resize-drag asks for is never negative on either axis.
pub proof fn lemma_resize_never_negative(s: DragSession, pointer_x: i32, pointer_y: i32)
    ensures
        spec_resize_width(s, pointer_x as int) >= 0,
        spec_resize_height(s, pointer_y as int) >= 0,
{
}

/// Unregistered-event safety: an event naming a window the registry does not
/// hold mutates no state and issues no display command beyond what is
/// unconditional — a visibility request still attempts to frame its window,
/// and a configure request is still passed through to the client alone.
pub proof fn lemma_unregistered_event_safe(
    r: Map<Window, Window>,
    d: Option<DragSession>,
    root: Window,
    e: Event,
)
    requires
        !r.contains_key(event_window(e)),
    ensures
        match e {
            Event::MapRequest { window } => forall|a: WindowAttributes|
                frame_allowed(r, window, false, a),
            Event::UnmapNotify { window, event_target } => spec_unmap_registry(
                r,
                root,
                window,
                event_target,
            ) == r && spec_unmap_commands(r, root, window, event_target) == Seq::<Command>::empty(),
            Event::ConfigureRequest { request } => spec_configure_commands(r, request) == seq![
                (Command::ConfigureWindow {
                    window: request.window,
                    changes: spec_changes_of(request),
                    value_mask: request.value_mask,
                }),
            ],
            Event::ButtonPress { window, pointer_x, pointer_y } => spec_press_commands(r, window)
                == Seq::<Command>::empty() && forall|g: FrameGeometry|
                spec_press_drag(r, d, window, pointer_x, pointer_y, g) == d,
            Event::MotionNotify { window, button_state, pointer_x, pointer_y } =>
                spec_motion_commands(r, d, window, button_state, pointer_x, pointer_y) == Seq::<
                    Command,
                >::empty(),
        },
{
    match e {
        Event::UnmapNotify { window, event_target } => {
            assert(r.remove(window) =~= r);
        },
        _ => {},
    }
}

} // verus!
