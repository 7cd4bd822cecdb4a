use vstd::prelude::*;

use crate::geometry::Position;

verus! {

/// How far left of the tracked edge the trigger zone reaches.
pub const ZONE_LEFT: i32 = 35;

/// How far right of the tracked edge the trigger zone reaches.
pub const ZONE_RIGHT: i32 = 10;

/// How far below the tracked edge the trigger zone reaches.
pub const ZONE_DOWN: i32 = 30;

/// The point watched on a window: its top right corner.
pub open spec fn edge_of(window: Position, width: u32) -> Option<Position> {
    if window.x + width <= i32::MAX {
        Some(Position { x: (window.x + width) as i32, y: window.y })
    } else {
        None
    }
}

/// Whether `pointer` lies in the trigger zone anchored at `edge`, bounds
/// included.
pub open spec fn in_zone(pointer: Position, edge: Position) -> bool {
    &&& edge.x - ZONE_LEFT <= pointer.x <= edge.x + ZONE_RIGHT
    &&& edge.y <= pointer.y <= edge.y + ZONE_DOWN
}

/// The top right corner of a window at `window` that is `width` pixels wide,
/// or `None` where that lies beyond the coordinate range.
pub fn tracked_edge(window: Position, width: u32) -> (r: Option<Position>)
    ensures
        r == edge_of(window, width),
{
    let x = window.x as i64 + width as i64;
    if x <= i32::MAX as i64 {
        Some(Position { x: x as i32, y: window.y })
    } else {
        None
    }
}

/// Whether the pointer stands in the trigger zone of the tracked edge.
pub fn is_triggered(pointer: Position, edge: Position) -> (r: bool)
    ensures
        r == in_zone(pointer, edge),
{
    let px = pointer.x as i64;
    let py = pointer.y as i64;
    let ex = edge.x as i64;
    let ey = edge.y as i64;
    ex - ZONE_LEFT as i64 <= px && px <= ex + ZONE_RIGHT as i64 && ey <= py && py <= ey
        + ZONE_DOWN as i64
}

/// The trigger zone's bounds are inclusive and exact: from an edge at
/// `(ex, ey)`, a pointer at `(ex - 35, ey)` and one at `(ex + 10, ey + 30)`
/// trigger, while one at `(ex - 36, ey)` and one at `(ex + 11, ey)` do not.
pub proof fn lemma_zone_bounds(ex: i32, ey: i32)
    requires
        ex - 36 >= i32::MIN,
        ex + 11 <= i32::MAX,
        ey + 30 <= i32::MAX,
    ensures
        in_zone(Position { x: (ex - 35) as i32, y: ey }, Position { x: ex, y: ey }),
        !in_zone(Position { x: (ex - 36) as i32, y: ey }, Position { x: ex, y: ey }),
        in_zone(Position { x: (ex + 10) as i32, y: (ey + 30) as i32 }, Position { x: ex, y: ey }),
        !in_zone(Position { x: (ex + 11) as i32, y: ey }, Position { x: ex, y: ey }),
{
}

} // verus!
