//! A reparenting window manager core: the client registry, the frame
//! lifecycle rules, the event dispatch policy, and the drag state machine.
//!
//! The display connection itself is an external collaborator: the manager
//! decides, and every display command it wants issued is returned as data.

use vstd::prelude::*;

pub mod drag;
pub mod events;
pub mod laws;
pub mod manager;
pub mod registry;

verus! {

/// A window identifier handed out by the display server.
pub type Window = u64;

} // verus!
