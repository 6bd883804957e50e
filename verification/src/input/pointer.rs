//! Methods for interacting with the mouse cursor.
//!
//! The cursor itself is owned by the native input backend; with none
//! attached, these calls keep the interface of the windowing system
//! without moving real hardware state.

use vstd::prelude::*;

verus! {

use crate::types::Point;

/// Gets the current position of the mouse cursor. With no native input
/// backend attached the cursor rests at the origin.
pub fn get_position() -> (r: Point)
    ensures
        r == (Point { x: 0, y: 0 }),
{
    Point { x: 0, y: 0 }
}

/// Requests the cursor be moved to `point`. Repositioning real hardware
/// state is the native input backend's task; a motion handler must call
/// this on every motion event so the cursor and the handler agree.
pub fn set_position(point: Point) {
    let _ = point;
}

} // verus!
