//! The frame lifecycle manager and the event dispatcher: the decisions the
//! manager takes, with every display command it wants issued returned as
//! data for the event loop to execute.

use vstd::prelude::*;

use crate::Window;
use crate::drag::DragSession;
use crate::drag::spec_move_x;
use crate::drag::spec_move_y;
use crate::drag::spec_resize_height;
use crate::drag::spec_resize_width;
use crate::events::Changes;
use crate::events::Command;
use crate::events::ConfigureRequest;
use crate::events::Event;
use crate::events::FollowUp;
use crate::events::FrameGeometry;
use crate::events::FrameParams;
use crate::events::WindowAttributes;
use crate::events::FRAME_BACKGROUND_COLOR;
use crate::events::FRAME_BORDER_COLOR;
use crate::events::FRAME_BORDER_WIDTH;
use crate::events::PRIMARY_BUTTON_MASK;
use crate::events::SECONDARY_BUTTON_MASK;
use crate::registry::Registry;
use crate::registry::map_has_frame;

verus! {

/// Whether a window found at startup may be framed at all: a window that set
/// override-redirect, or that is not viewable, must never be taken over.
pub open spec fn frame_admits_preexisting(a: WindowAttributes) -> bool {
    !a.override_redirect && a.viewable
}

/// Whether framing `w` proceeds: it must not be framed already, and a
/// pre-existing window must pass the startup filter.
pub open spec fn frame_allowed(
    r: Map<Window, Window>,
    w: Window,
    created_before: bool,
    a: WindowAttributes,
) -> bool {
    !r.contains_key(w) && (created_before ==> frame_admits_preexisting(a))
}

/// The frame window is created to match the client's current geometry, with
/// the fixed border width and colours.
pub open spec fn spec_frame_params(a: WindowAttributes) -> FrameParams {
    FrameParams {
        x: a.x,
        y: a.y,
        width: a.width,
        height: a.height,
        border_width: FRAME_BORDER_WIDTH,
        border_color: FRAME_BORDER_COLOR,
        background_color: FRAME_BACKGROUND_COLOR,
    }
}

/// The commands issued once the frame window for `w` exists: subscribe the
/// frame to structural events, protect the client through the save-set,
/// reparent it into the frame, map the frame, and install the two drag grabs
/// and the close-shortcut grab on the client.
pub open spec fn spec_frame_commands(w: Window, frame: Window) -> Seq<Command> {
    seq![
        Command::SelectSubstructureEvents { window: frame },
        Command::AddToSaveSet { window: w },
        Command::Reparent { window: w, parent: frame, offset_x: 0, offset_y: 0 },
        Command::MapWindow { window: frame },
        Command::GrabMoveButton { window: w },
        Command::GrabResizeButton { window: w },
        Command::GrabCloseKey { window: w },
    ]
}

/// The commands that undo a framing: unmap the frame, hand the client back
/// to the root window, take it off the save-set, destroy the frame. Nothing
/// when `w` is not framed.
pub open spec fn spec_unframe_commands(r: Map<Window, Window>, w: Window, root: Window) -> Seq<
    Command,
> {
    if r.contains_key(w) {
        seq![
            Command::UnmapWindow { window: r[w] },
            Command::Reparent { window: w, parent: root, offset_x: 0, offset_y: 0 },
            Command::RemoveFromSaveSet { window: w },
            Command::DestroyWindow { window: r[w] },
        ]
    } else {
        Seq::empty()
    }
}

/// The registry after an unmap notification: untouched when the
/// notification's target is the root window (a notification artifact), else
/// without `w`.
pub open spec fn spec_unmap_registry(
    r: Map<Window, Window>,
    root: Window,
    w: Window,
    event_target: Window,
) -> Map<Window, Window> {
    if event_target == root {
        r
    } else {
        r.remove(w)
    }
}

/// The commands an unmap notification triggers.
pub open spec fn spec_unmap_commands(
    r: Map<Window, Window>,
    root: Window,
    w: Window,
    event_target: Window,
) -> Seq<Command> {
    if event_target == root {
        Seq::empty()
    } else {
        spec_unframe_commands(r, w, root)
    }
}

/// The change record a configure request is forwarded with: every requested
/// field, exactly as the client sent it.
pub open spec fn spec_changes_of(req: ConfigureRequest) -> Changes {
    Changes {
        x: req.x,
        y: req.y,
        width: req.width,
        height: req.height,
        border_width: req.border_width,
        sibling: req.sibling,
        stack_mode: req.stack_mode,
    }
}

/// Pass-through policy: the masked fields go unmodified to the client, and,
/// when the client is framed, the same masked fields go to its frame first.
pub open spec fn spec_configure_commands(r: Map<Window, Window>, req: ConfigureRequest) -> Seq<
    Command,
> {
    let to_client = Command::ConfigureWindow {
        window: req.window,
        changes: spec_changes_of(req),
        value_mask: req.value_mask,
    };
    if r.contains_key(req.window) {
        seq![
            Command::ConfigureWindow {
                window: r[req.window],
                changes: spec_changes_of(req),
                value_mask: req.value_mask,
            },
            to_client,
        ]
    } else {
        seq![to_client]
    }
}

/// The drag session after a button press: overwritten with a fresh session
/// for `w` when `w` is framed, untouched otherwise.
pub open spec fn spec_press_drag(
    r: Map<Window, Window>,
    d: Option<DragSession>,
    w: Window,
    pointer_x: i32,
    pointer_y: i32,
    g: FrameGeometry,
) -> Option<DragSession> {
    if r.contains_key(w) {
        Some(
            DragSession {
                client: w,
                pointer_x: pointer_x,
                pointer_y: pointer_y,
                frame_x: g.x,
                frame_y: g.y,
                frame_width: g.width,
                frame_height: g.height,
            },
        )
    } else {
        d
    }
}

/// A press on a framed client raises its frame; a press on anything else
/// does nothing.
pub open spec fn spec_press_commands(r: Map<Window, Window>, w: Window) -> Seq<Command> {
    if r.contains_key(w) {
        seq![Command::RaiseWindow { window: r[w] }]
    } else {
        Seq::empty()
    }
}

/// The commands pointer motion triggers: nothing unless `w` is framed and
/// owns the current drag session; a move of the frame while the primary
/// button is held; a resize of frame and client, clamped at zero, while the
/// secondary button is held; nothing when neither is.
pub open spec fn spec_motion_commands(
    r: Map<Window, Window>,
    d: Option<DragSession>,
    w: Window,
    button_state: u32,
    pointer_x: i32,
    pointer_y: i32,
) -> Seq<Command> {
    if !r.contains_key(w) {
        Seq::empty()
    } else {
        match d {
            Option::None => Seq::empty(),
            Option::Some(s) => if s.client != w {
                Seq::empty()
            } else if button_state & PRIMARY_BUTTON_MASK != 0 {
                seq![
                    Command::MoveWindow {
                        window: r[w],
                        x: spec_move_x(s, pointer_x as int) as i64,
                        y: spec_move_y(s, pointer_y as int) as i64,
                    },
                ]
            } else if button_state & SECONDARY_BUTTON_MASK != 0 {
                seq![
                    Command::ResizeWindow {
                        window: r[w],
                        width: spec_resize_width(s, pointer_x as int) as i64,
                        height: spec_resize_height(s, pointer_y as int) as i64,
                    },
                    Command::ResizeWindow {
                        window: w,
                        width: spec_resize_width(s, pointer_x as int) as i64,
                        height: spec_resize_height(s, pointer_y as int) as i64,
                    },
                ]
            } else {
                Seq::empty()
            },
        }
    }
}

/// The manager's whole state: the root window it manages under, the client
/// registry, and the drag controller's session slot.
pub struct WindowManager {
    pub root: Window,
    pub registry: Registry,
    pub drag: Option<DragSession>,
}

impl WindowManager {
    /// The registry invariant holds.
    pub open spec fn wf(self) -> bool {
        self.registry.wf()
    }

    /// A manager for the given root window, with nothing framed and no drag
    /// session.
    pub fn new(root: Window) -> (wm: WindowManager)
        ensures
            wm.wf(),
            wm.root == root,
            wm.registry@ == Map::<Window, Window>::empty(),
            wm.drag is None,
    {
        WindowManager { root, registry: Registry::new(), drag: None }
    }

    /// Whether a visibility request for `w` has framing work left to do; when
    /// it does not, the request touches no state and queries nothing.
    pub fn frame_needed(&self, w: Window) -> (needed: bool)
        ensures
            needed == !self.registry@.contains_key(w),
    {
        !self.registry.contains(w)
    }

    /// The framing filter: given what the display reports of `w`, either the
    /// parameters the frame window must be created with, or nothing when `w`
    /// is already framed or, on the startup path, when the startup filter
    /// rejects it.
    pub fn plan_frame(&self, w: Window, created_before: bool, attrs: &WindowAttributes) -> (plan:
        Option<FrameParams>)
        ensures
            match plan {
                Some(p) => frame_allowed(self.registry@, w, created_before, *attrs) && p
                    == spec_frame_params(*attrs),
                None => !frame_allowed(self.registry@, w, created_before, *attrs),
            },
    {
        if self.registry.contains(w) {
            return None;
        }
        if created_before && (attrs.override_redirect || !attrs.viewable) {
            return None;
        }
        Some(
            FrameParams {
                x: attrs.x,
                y: attrs.y,
                width: attrs.width,
                height: attrs.height,
                border_width: FRAME_BORDER_WIDTH,
                border_color: FRAME_BORDER_COLOR,
                background_color: FRAME_BACKGROUND_COLOR,
            },
        )
    }

    /// Whether some client is already wrapped by `frame`; a frame identifier
    /// the display just created is never in use.
    pub fn frame_known(&self, frame: Window) -> (used: bool)
        requires
            self.wf(),
        ensures
            used == map_has_frame(self.registry@, frame),
    {
        self.registry.frame_in_use(frame)
    }

    /// Record that the display created `frame` for `w` and return the
    /// commands that finish the framing, in order.
    pub fn complete_frame(&mut self, w: Window, frame: Window) -> (cmds: Vec<Command>)
        requires
            old(self).wf(),
            !old(self).registry@.contains_key(w),
            !map_has_frame(old(self).registry@, frame),
        ensures
            final(self).wf(),
            final(self).registry@ == old(self).registry@.insert(w, frame),
            final(self).drag == old(self).drag,
            final(self).root == old(self).root,
            cmds@ == spec_frame_commands(w, frame),
    {
        self.registry.insert(w, frame);
        let mut cmds: Vec<Command> = Vec::new();
        cmds.push(Command::SelectSubstructureEvents { window: frame });
        cmds.push(Command::AddToSaveSet { window: w });
        cmds.push(Command::Reparent { window: w, parent: frame, offset_x: 0, offset_y: 0 });
        cmds.push(Command::MapWindow { window: frame });
        cmds.push(Command::GrabMoveButton { window: w });
        cmds.push(Command::GrabResizeButton { window: w });
        cmds.push(Command::GrabCloseKey { window: w });
        proof {
            assert(cmds@ =~= spec_frame_commands(w, frame));
        }
        cmds
    }

    /// Undo the framing of `w`: a no-op when `w` is not framed, else the
    /// frame is dismantled and the registry entry dropped.
    pub fn unframe(&mut self, w: Window) -> (cmds: Vec<Command>)
        requires
            old(self).wf(),
        ensures
            final(self).wf(),
            final(self).registry@ == old(self).registry@.remove(w),
            final(self).drag == old(self).drag,
            final(self).root == old(self).root,
            cmds@ == spec_unframe_commands(old(self).registry@, w, old(self).root),
    {
        let frame = match self.registry.frame_of(w) {
            None => {
                proof {
                    assert(self.registry@ =~= self.registry@.remove(w));
                }
                return Vec::new();
            },
            Some(f) => f,
        };
        self.registry.remove(w);
        let mut cmds: Vec<Command> = Vec::new();
        cmds.push(Command::UnmapWindow { window: frame });
        cmds.push(Command::Reparent { window: w, parent: self.root, offset_x: 0, offset_y: 0 });
        cmds.push(Command::RemoveFromSaveSet { window: w });
        cmds.push(Command::DestroyWindow { window: frame });
        proof {
            assert(cmds@ =~= spec_unframe_commands(old(self).registry@, w, old(self).root));
        }
        cmds
    }

    /// An unmap notification: ignored when its target is the root window,
    /// else the client is unframed, tolerating clients never framed.
    pub fn unmap_notify(&mut self, w: Window, event_target: Window) -> (cmds: Vec<Command>)
        requires
            old(self).wf(),
        ensures
            final(self).wf(),
            final(self).registry@ == spec_unmap_registry(
                old(self).registry@,
                old(self).root,
                w,
                event_target,
            ),
            final(self).drag == old(self).drag,
            final(self).root == old(self).root,
            cmds@ == spec_unmap_commands(old(self).registry@, old(self).root, w, event_target),
    {
        if event_target == self.root {
            Vec::new()
        } else {
            self.unframe(w)
        }
    }

    /// A configure request: pass the masked fields through unmodified, to the
    /// frame first when `w` is framed, and to the client always.
    pub fn configure_request(&self, req: &ConfigureRequest) -> (cmds: Vec<Command>)
        requires
            self.wf(),
        ensures
            cmds@ == spec_configure_commands(self.registry@, *req),
    {
        let changes = Changes {
            x: req.x,
            y: req.y,
            width: req.width,
            height: req.height,
            border_width: req.border_width,
            sibling: req.sibling,
            stack_mode: req.stack_mode,
        };
        let mut cmds: Vec<Command> = Vec::new();
        if let Some(frame) = self.registry.frame_of(req.window) {
            cmds.push(
                Command::ConfigureWindow { window: frame, changes, value_mask: req.value_mask },
            );
        }
        cmds.push(
            Command::ConfigureWindow { window: req.window, changes, value_mask: req.value_mask },
        );
        proof {
            assert(cmds@ =~= spec_configure_commands(self.registry@, *req));
        }
        cmds
    }

    /// Record a button press: when `w` is framed, its frame's fresh geometry
    /// and the pointer position become the new drag session and the frame is
    /// raised; otherwise nothing happens.
    pub fn record_press(
        &mut self,
        w: Window,
        pointer_x: i32,
        pointer_y: i32,
        geometry: &FrameGeometry,
    ) -> (cmds: Vec<Command>)
        requires
            old(self).wf(),
        ensures
            final(self).wf(),
            final(self).registry@ == old(self).registry@,
            final(self).root == old(self).root,
            final(self).drag == spec_press_drag(
                old(self).registry@,
                old(self).drag,
                w,
                pointer_x,
                pointer_y,
                *geometry,
            ),
            cmds@ == spec_press_commands(old(self).registry@, w),
    {
        let frame = match self.registry.frame_of(w) {
            None => {
                return Vec::new();
            },
            Some(f) => f,
        };
        self.drag = Some(
            DragSession {
                client: w,
                pointer_x,
                pointer_y,
                frame_x: geometry.x,
                frame_y: geometry.y,
                frame_width: geometry.width,
                frame_height: geometry.height,
            },
        );
        let mut cmds: Vec<Command> = Vec::new();
        cmds.push(Command::RaiseWindow { window: frame });
        proof {
            assert(cmds@ =~= spec_press_commands(old(self).registry@, w));
        }
        cmds
    }

    /// Pointer motion: convert the movement since the press into a move of
    /// the frame or a clamped resize of frame and client, per the buttons
    /// held; nothing without a registered client owning the drag session.
    pub fn motion_notify(
        &self,
        w: Window,
        button_state: u32,
        pointer_x: i32,
        pointer_y: i32,
    ) -> (cmds: Vec<Command>)
        requires
            self.wf(),
        ensures
            cmds@ == spec_motion_commands(
                self.registry@,
                self.drag,
                w,
                button_state,
                pointer_x,
                pointer_y,
            ),
    {
        let mut cmds: Vec<Command> = Vec::new();
        let frame = match self.registry.frame_of(w) {
            None => {
                return cmds;
            },
            Some(f) => f,
        };
        let session = match &self.drag {
            None => {
                return cmds;
            },
            Some(s) => s,
        };
        if session.client != w {
            return cmds;
        }
        if button_state & PRIMARY_BUTTON_MASK != 0 {
            let target = session.move_target(pointer_x, pointer_y);
            cmds.push(Command::MoveWindow { window: frame, x: target.0, y: target.1 });
        } else if button_state & SECONDARY_BUTTON_MASK != 0 {
            let target = session.resize_target(pointer_x, pointer_y);
            cmds.push(Command::ResizeWindow { window: frame, width: target.0, height: target.1 });
            cmds.push(Command::ResizeWindow { window: w, width: target.0, height: target.1 });
        }
        proof {
            assert(cmds@ =~= spec_motion_commands(
                self.registry@,
                self.drag,
                w,
                button_state,
                pointer_x,
                pointer_y,
            ));
        }
        cmds
    }

    /// Route one event: five kinds are handled, and what cannot be finished
    /// without asking the display something is returned as a follow-up.
    pub fn handle_event(&mut self, e: &Event) -> (r: (FollowUp, Vec<Command>))
        requires
            old(self).wf(),
        ensures
            final(self).wf(),
            final(self).root == old(self).root,
            match *e {
                Event::MapRequest { window } => *final(self) == *old(self) && r.0 == (
                FollowUp::FrameThenMap { window }) && r.1@ == Seq::<Command>::empty(),
                Event::UnmapNotify { window, event_target } => final(self).drag == old(self).drag
                    && final(self).registry@ == spec_unmap_registry(
                    old(self).registry@,
                    old(self).root,
                    window,
                    event_target,
                ) && r.0 == FollowUp::Done && r.1@ == spec_unmap_commands(
                    old(self).registry@,
                    old(self).root,
                    window,
                    event_target,
                ),
                Event::ConfigureRequest { request } => *final(self) == *old(self) && r.0
                    == FollowUp::Done && r.1@ == spec_configure_commands(
                    old(self).registry@,
                    request,
                ),
                Event::ButtonPress { window, .. } => *final(self) == *old(self) && r.1@ == Seq::<
                    Command,
                >::empty() && (if old(self).registry@.contains_key(window) {
                    r.0 == (FollowUp::QueryFrameGeometry {
                        window,
                        frame: old(self).registry@[window],
                    })
                } else {
                    r.0 == FollowUp::Done
                }),
                Event::MotionNotify { window, button_state, pointer_x, pointer_y } => *final(self)
                    == *old(self) && r.0 == FollowUp::Done && r.1@ == spec_motion_commands(
                    old(self).registry@,
                    old(self).drag,
                    window,
                    button_state,
                    pointer_x,
                    pointer_y,
                ),
            },
    {
        match e {
            Event::MapRequest { window } => (FollowUp::FrameThenMap { window: *window }, Vec::new()),
            Event::UnmapNotify { window, event_target } => {
                let cmds = self.unmap_notify(*window, *event_target);
                (FollowUp::Done, cmds)
            },
            Event::ConfigureRequest { request } => {
                let cmds = self.configure_request(request);
                (FollowUp::Done, cmds)
            },
            Event::ButtonPress { window, .. } => {
                match self.registry.frame_of(*window) {
                    Some(frame) => (FollowUp::QueryFrameGeometry { window: *window, frame }, Vec::new()),
                    None => (FollowUp::Done, Vec::new()),
                }
            },
            Event::MotionNotify { window, button_state, pointer_x, pointer_y } => {
                let cmds = self.motion_notify(*window, *button_state, *pointer_x, *pointer_y);
                (FollowUp::Done, cmds)
            },
        }
    }
}

} // verus!
