use reparent_wm::drag::DragSession;
use reparent_wm::events::apply_changes;
use reparent_wm::events::Changes;
use reparent_wm::events::Command;
use reparent_wm::events::ConfigureRequest;
use reparent_wm::events::Event;
use reparent_wm::events::FollowUp;
use reparent_wm::events::FrameGeometry;
use reparent_wm::events::Geometry;
use reparent_wm::events::WindowAttributes;
use reparent_wm::events::FRAME_BACKGROUND_COLOR;
use reparent_wm::events::FRAME_BORDER_COLOR;
use reparent_wm::events::FRAME_BORDER_WIDTH;
use reparent_wm::events::MASK_HEIGHT;
use reparent_wm::events::MASK_SIBLING;
use reparent_wm::events::MASK_STACK_MODE;
use reparent_wm::events::MASK_WIDTH;
use reparent_wm::events::MASK_X;
use reparent_wm::events::PRIMARY_BUTTON_MASK;
use reparent_wm::events::SECONDARY_BUTTON_MASK;
use reparent_wm::manager::WindowManager;

const ROOT: u64 = 1;

fn viewable_attrs() -> WindowAttributes {
    WindowAttributes { x: 7, y: 8, width: 300, height: 200, override_redirect: false, viewable: true }
}

fn frame_client(wm: &mut WindowManager, client: u64, frame: u64) {
    assert!(wm.frame_needed(client));
    let plan = wm.plan_frame(client, false, &viewable_attrs());
    assert!(plan.is_some());
    assert!(!wm.frame_known(frame));
    wm.complete_frame(client, frame);
}

#[test]
fn framing_emits_the_lifecycle_commands_in_order() {
    let mut wm = WindowManager::new(ROOT);
    let plan = wm.plan_frame(42, false, &viewable_attrs()).unwrap();
    assert_eq!(plan.x, 7);
    assert_eq!(plan.y, 8);
    assert_eq!(plan.width, 300);
    assert_eq!(plan.height, 200);
    assert_eq!(plan.border_width, FRAME_BORDER_WIDTH);
    assert_eq!(plan.border_color, FRAME_BORDER_COLOR);
    assert_eq!(plan.background_color, FRAME_BACKGROUND_COLOR);
    let cmds = wm.complete_frame(42, 90);
    assert_eq!(
        cmds,
        vec![
            Command::SelectSubstructureEvents { window: 90 },
            Command::AddToSaveSet { window: 42 },
            Command::Reparent { window: 42, parent: 90, offset_x: 0, offset_y: 0 },
            Command::MapWindow { window: 90 },
            Command::GrabMoveButton { window: 42 },
            Command::GrabResizeButton { window: 42 },
            Command::GrabCloseKey { window: 42 },
        ]
    );
    assert_eq!(wm.registry.frame_of(42), Some(90));
}

#[test]
fn framing_twice_keeps_one_entry_and_plans_nothing() {
    let mut wm = WindowManager::new(ROOT);
    frame_client(&mut wm, 42, 90);
    // The second visibility request stops before any display query.
    assert!(!wm.frame_needed(42));
    // Even with attributes in hand, no plan comes out, on either path.
    assert!(wm.plan_frame(42, false, &viewable_attrs()).is_none());
    assert!(wm.plan_frame(42, true, &viewable_attrs()).is_none());
    assert_eq!(wm.registry.len(), 1);
    assert_eq!(wm.registry.frame_of(42), Some(90));
}

#[test]
fn frame_then_unframe_leaves_the_client_unregistered() {
    let mut wm = WindowManager::new(ROOT);
    frame_client(&mut wm, 42, 90);
    let cmds = wm.unframe(42);
    assert_eq!(
        cmds,
        vec![
            Command::UnmapWindow { window: 90 },
            Command::Reparent { window: 42, parent: ROOT, offset_x: 0, offset_y: 0 },
            Command::RemoveFromSaveSet { window: 42 },
            Command::DestroyWindow { window: 90 },
        ]
    );
    assert!(!wm.registry.contains(42));
    assert_eq!(wm.registry.len(), 0);
}

#[test]
fn unframe_of_unregistered_client_is_a_no_op() {
    let mut wm = WindowManager::new(ROOT);
    let cmds = wm.unframe(42);
    assert!(cmds.is_empty());
}

#[test]
fn startup_filter_rejects_override_redirect_and_unviewable() {
    let wm = WindowManager::new(ROOT);
    let mut shy = viewable_attrs();
    shy.override_redirect = true;
    assert!(wm.plan_frame(42, true, &shy).is_none());
    let mut hidden = viewable_attrs();
    hidden.viewable = false;
    assert!(wm.plan_frame(42, true, &hidden).is_none());
    // The filter only applies to pre-existing windows.
    assert!(wm.plan_frame(42, false, &shy).is_some());
    assert!(wm.plan_frame(42, false, &hidden).is_some());
    // A pre-existing window that passes the filter is framed.
    assert!(wm.plan_frame(42, true, &viewable_attrs()).is_some());
}

#[test]
fn configure_request_passes_masked_fields_to_frame_and_client() {
    let mut wm = WindowManager::new(ROOT);
    frame_client(&mut wm, 42, 90);
    let req = ConfigureRequest {
        window: 42,
        x: 5,
        y: 6,
        width: 640,
        height: 480,
        border_width: 2,
        sibling: 0,
        stack_mode: 0,
        value_mask: MASK_WIDTH | MASK_HEIGHT,
    };
    let cmds = wm.configure_request(&req);
    let changes = Changes { x: 5, y: 6, width: 640, height: 480, border_width: 2, sibling: 0, stack_mode: 0 };
    assert_eq!(
        cmds,
        vec![
            Command::ConfigureWindow { window: 90, changes, value_mask: MASK_WIDTH | MASK_HEIGHT },
            Command::ConfigureWindow { window: 42, changes, value_mask: MASK_WIDTH | MASK_HEIGHT },
        ]
    );
}

#[test]
fn width_height_mask_leaves_position_unchanged() {
    let before = Geometry { x: 11, y: 22, width: 100, height: 100, border_width: 1 };
    let changes = Changes { x: 500, y: 600, width: 640, height: 480, border_width: 9, sibling: 0, stack_mode: 0 };
    let after = apply_changes(&before, &changes, MASK_WIDTH | MASK_HEIGHT);
    assert_eq!(after.x, 11);
    assert_eq!(after.y, 22);
    assert_eq!(after.width, 640);
    assert_eq!(after.height, 480);
    assert_eq!(after.border_width, 1);
    let moved = apply_changes(&before, &changes, MASK_X);
    assert_eq!(moved.x, 500);
    assert_eq!(moved.y, 22);
    assert_eq!(moved.width, 100);
    // Stacking-only bits touch no geometry at all.
    let stacked = apply_changes(&before, &changes, MASK_SIBLING | MASK_STACK_MODE);
    assert_eq!(stacked, before);
}

#[test]
fn root_targeted_unmap_is_ignored() {
    let mut wm = WindowManager::new(ROOT);
    frame_client(&mut wm, 42, 90);
    let cmds = wm.unmap_notify(42, ROOT);
    assert!(cmds.is_empty());
    assert!(wm.registry.contains(42));
}

#[test]
fn unmap_from_elsewhere_unframes() {
    let mut wm = WindowManager::new(ROOT);
    frame_client(&mut wm, 42, 90);
    let cmds = wm.unmap_notify(42, 90);
    assert_eq!(cmds.len(), 4);
    assert!(!wm.registry.contains(42));
}

#[test]
fn press_records_session_and_raises_frame() {
    let mut wm = WindowManager::new(ROOT);
    frame_client(&mut wm, 42, 90);
    let geometry = FrameGeometry { x: 10, y: 10, width: 50, height: 50 };
    let cmds = wm.record_press(42, 100, 100, &geometry);
    assert_eq!(cmds, vec![Command::RaiseWindow { window: 90 }]);
    assert_eq!(
        wm.drag,
        Some(DragSession {
            client: 42,
            pointer_x: 100,
            pointer_y: 100,
            frame_x: 10,
            frame_y: 10,
            frame_width: 50,
            frame_height: 50,
        })
    );
}

#[test]
fn drag_move_tracks_the_pointer_exactly() {
    let mut wm = WindowManager::new(ROOT);
    frame_client(&mut wm, 42, 90);
    let geometry = FrameGeometry { x: 10, y: 10, width: 50, height: 50 };
    wm.record_press(42, 100, 100, &geometry);
    let cmds = wm.motion_notify(42, PRIMARY_BUTTON_MASK, 110, 105);
    assert_eq!(cmds, vec![Command::MoveWindow { window: 90, x: 20, y: 15 }]);
}

#[test]
fn drag_resize_clamps_at_zero() {
    let mut wm = WindowManager::new(ROOT);
    frame_client(&mut wm, 42, 90);
    let geometry = FrameGeometry { x: 10, y: 10, width: 50, height: 50 };
    wm.record_press(42, 300, 300, &geometry);
    let cmds = wm.motion_notify(42, SECONDARY_BUTTON_MASK, 100, 100);
    assert_eq!(
        cmds,
        vec![
            Command::ResizeWindow { window: 90, width: 0, height: 0 },
            Command::ResizeWindow { window: 42, width: 0, height: 0 },
        ]
    );
}

#[test]
fn drag_resize_grows_by_the_pointer_delta() {
    let mut wm = WindowManager::new(ROOT);
    frame_client(&mut wm, 42, 90);
    let geometry = FrameGeometry { x: 10, y: 10, width: 50, height: 50 };
    wm.record_press(42, 100, 100, &geometry);
    let cmds = wm.motion_notify(42, SECONDARY_BUTTON_MASK, 130, 120);
    assert_eq!(
        cmds,
        vec![
            Command::ResizeWindow { window: 90, width: 80, height: 70 },
            Command::ResizeWindow { window: 42, width: 80, height: 70 },
        ]
    );
}

#[test]
fn motion_with_no_button_does_nothing() {
    let mut wm = WindowManager::new(ROOT);
    frame_client(&mut wm, 42, 90);
    let geometry = FrameGeometry { x: 10, y: 10, width: 50, height: 50 };
    wm.record_press(42, 100, 100, &geometry);
    assert!(wm.motion_notify(42, 0, 110, 105).is_empty());
}

#[test]
fn motion_before_any_press_does_nothing() {
    let mut wm = WindowManager::new(ROOT);
    frame_client(&mut wm, 42, 90);
    assert!(wm.motion_notify(42, PRIMARY_BUTTON_MASK, 110, 105).is_empty());
}

#[test]
fn motion_from_a_client_not_owning_the_session_does_nothing() {
    let mut wm = WindowManager::new(ROOT);
    frame_client(&mut wm, 42, 90);
    frame_client(&mut wm, 43, 91);
    let geometry = FrameGeometry { x: 10, y: 10, width: 50, height: 50 };
    wm.record_press(42, 100, 100, &geometry);
    assert!(wm.motion_notify(43, PRIMARY_BUTTON_MASK, 110, 105).is_empty());
}

#[test]
fn events_for_unregistered_windows_touch_nothing() {
    let mut wm = WindowManager::new(ROOT);
    frame_client(&mut wm, 42, 90);
    let geometry = FrameGeometry { x: 10, y: 10, width: 50, height: 50 };
    wm.record_press(42, 100, 100, &geometry);
    let session_before = wm.drag;

    // Unmap of a never-framed window: no commands, no registry change.
    let (follow, cmds) = wm.handle_event(&Event::UnmapNotify { window: 77, event_target: 90 });
    assert_eq!(follow, FollowUp::Done);
    assert!(cmds.is_empty());
    assert_eq!(wm.registry.len(), 1);

    // Press on a never-framed window: no query follow-up, session untouched.
    let (follow, cmds) = wm.handle_event(&Event::ButtonPress { window: 77, pointer_x: 0, pointer_y: 0 });
    assert_eq!(follow, FollowUp::Done);
    assert!(cmds.is_empty());
    let raise = wm.record_press(77, 0, 0, &geometry);
    assert!(raise.is_empty());
    assert_eq!(wm.drag, session_before);

    // Motion from a never-framed window: nothing.
    let (follow, cmds) =
        wm.handle_event(&Event::MotionNotify { window: 77, button_state: PRIMARY_BUTTON_MASK, pointer_x: 5, pointer_y: 5 });
    assert_eq!(follow, FollowUp::Done);
    assert!(cmds.is_empty());

    // Configure request: only the unconditional pass-through to the client.
    let req = ConfigureRequest {
        window: 77,
        x: 1,
        y: 2,
        width: 3,
        height: 4,
        border_width: 0,
        sibling: 0,
        stack_mode: 0,
        value_mask: MASK_X,
    };
    let (follow, cmds) = wm.handle_event(&Event::ConfigureRequest { request: req });
    assert_eq!(follow, FollowUp::Done);
    assert_eq!(cmds.len(), 1);
    assert_eq!(
        cmds[0],
        Command::ConfigureWindow {
            window: 77,
            changes: Changes { x: 1, y: 2, width: 3, height: 4, border_width: 0, sibling: 0, stack_mode: 0 },
            value_mask: MASK_X,
        }
    );

    // A visibility request always attempts to frame, by design.
    let (follow, cmds) = wm.handle_event(&Event::MapRequest { window: 77 });
    assert_eq!(follow, FollowUp::FrameThenMap { window: 77 });
    assert!(cmds.is_empty());
    assert_eq!(wm.registry.len(), 1);
}

#[test]
fn dispatch_routes_a_press_on_a_framed_client_to_a_geometry_query() {
    let mut wm = WindowManager::new(ROOT);
    frame_client(&mut wm, 42, 90);
    let (follow, cmds) = wm.handle_event(&Event::ButtonPress { window: 42, pointer_x: 3, pointer_y: 4 });
    assert_eq!(follow, FollowUp::QueryFrameGeometry { window: 42, frame: 90 });
    assert!(cmds.is_empty());
}

#[test]
fn a_new_press_supersedes_the_old_session() {
    let mut wm = WindowManager::new(ROOT);
    frame_client(&mut wm, 42, 90);
    frame_client(&mut wm, 43, 91);
    wm.record_press(42, 100, 100, &FrameGeometry { x: 10, y: 10, width: 50, height: 50 });
    wm.record_press(43, 200, 200, &FrameGeometry { x: 20, y: 20, width: 60, height: 60 });
    assert!(wm.motion_notify(42, PRIMARY_BUTTON_MASK, 110, 105).is_empty());
    let cmds = wm.motion_notify(43, PRIMARY_BUTTON_MASK, 210, 205);
    assert_eq!(cmds, vec![Command::MoveWindow { window: 91, x: 30, y: 25 }]);
}
