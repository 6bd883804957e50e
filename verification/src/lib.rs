//! A verified model of the window-management core of a small Wayland
//! compositor: plain geometry and input types mirroring the wlc C structs,
//! a registry of windows on an output, and the interactive move/resize
//! session controller that turns pointer events into window geometry
//! updates.
//!
//! The native protocol engine, rendering backends and FFI marshalling are
//! external collaborators; the embedding program drives the event loop and
//! performs the outside effects that the handlers here decide on.

pub mod handlers;
pub mod input;
pub mod output;
pub mod render;
pub mod session;
pub mod types;
pub mod xkb;

use vstd::prelude::*;

verus! {

use crate::types::BackendType;

/// Query the backend type of the running compositor session.
///
/// Without a native backend attached there is nothing to query, so the
/// backend type is unknown.
pub fn get_backend_type() -> (r: BackendType)
    ensures
        r == BackendType::Unknown,
{
    BackendType::Unknown
}

} // verus!
