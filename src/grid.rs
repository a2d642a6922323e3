use vstd::arithmetic::div_mod::{lemma_div_multiples_vanish, lemma_fundamental_div_mod};
use vstd::arithmetic::mul::lemma_mul_is_commutative;
use vstd::prelude::*;

verus! {

/// Fixed-point scale: one world unit (or one pixel) is this many steps.
pub const UNIT: i64 = 1000;

/// Side of a grid cell, in world units.
pub const CELL_SIZE: i64 = 30;

/// Side of a grid cell, in thousandths of a world unit.
pub const CELL: i64 = CELL_SIZE * UNIT;

/// A position in world space, in thousandths of a world unit.
#[derive(Clone, Copy, Debug, PartialEq, Eq, Structural)]
pub struct Point {
    pub x: i64,
    pub y: i64,
}

/// A cursor position in window pixels, in thousandths of a pixel.
#[derive(Clone, Copy, Debug, PartialEq, Eq, Structural)]
pub struct ScreenPos {
    pub x: i32,
    pub y: i32,
}

/// Window dimensions in pixels, in thousandths of a pixel.
#[derive(Clone, Copy, Debug, PartialEq, Eq, Structural)]
pub struct WindowSize {
    pub width: u32,
    pub height: u32,
}

/// The lower-left corner of the grid cell that holds `v`: `floor(v / CELL) * CELL`.
/// (Division of `int` by a positive divisor rounds towards minus infinity.)
pub open spec fn snap_of(v: int) -> int {
    (v / (CELL as int)) * (CELL as int)
}

/// World coordinate of a cursor coordinate `c` on an axis of length `len`:
/// the camera is centred on the window, so the centre maps to zero.
pub open spec fn world_of(c: int, len: int) -> int {
    c - len / 2
}

/// The grid cell under a cursor position, in world space.
pub open spec fn snapped_point(cursor: ScreenPos, window: WindowSize) -> Point {
    Point {
        x: snap_of(world_of(cursor.x as int, window.width as int)) as i64,
        y: snap_of(world_of(cursor.y as int, window.height as int)) as i64,
    }
}

proof fn lemma_snap_bounds(v: int)
    ensures
        v - CELL < snap_of(v) <= v,
{
    lemma_fundamental_div_mod(v, CELL as int);
    lemma_mul_is_commutative(v / (CELL as int), CELL as int);
}

/// Snapping is idempotent: a coordinate that already lies on a cell corner
/// snaps to itself.
pub proof fn lemma_snap_idempotent(v: int)
    ensures
        snap_of(snap_of(v)) == snap_of(v),
{
    let k = v / (CELL as int);
    lemma_mul_is_commutative(k, CELL as int);
    lemma_div_multiples_vanish(k, CELL as int);
}

/// The point under the cursor is already on a cell corner: snapping either
/// of its coordinates again gives the same coordinate.
pub proof fn lemma_snapped_point_idempotent(cursor: ScreenPos, window: WindowSize)
    ensures
        snap_of(snapped_point(cursor, window).x as int) == snapped_point(cursor, window).x,
        snap_of(snapped_point(cursor, window).y as int) == snapped_point(cursor, window).y,
{
    let wx = world_of(cursor.x as int, window.width as int);
    let wy = world_of(cursor.y as int, window.height as int);
    lemma_snap_bounds(wx);
    lemma_snap_bounds(wy);
    lemma_snap_idempotent(wx);
    lemma_snap_idempotent(wy);
}

/// Snaps a coordinate down to the corner of its grid cell.
/// The result must fit in an `i64`.
pub fn snap(v: i64) -> (r: i64)
    requires
        snap_of(v as int) >= i64::MIN,
    ensures
        r == snap_of(v as int),
{
    proof {
        lemma_snap_bounds(v as int);
    }
    let q = v.checked_div_euclid(CELL).unwrap();
    assert(q as int * CELL == snap_of(v as int));
    q * CELL
}

/// Converts a cursor coordinate to world space on an axis of length `len`.
pub fn screen_to_world(c: i32, len: u32) -> (r: i64)
    ensures
        r == world_of(c as int, len as int),
{
    c as i64 - (len / 2) as i64
}

/// The grid cell under the cursor, as a world-space point.
pub fn cursor_to_grid(cursor: ScreenPos, window: WindowSize) -> (r: Point)
    ensures
        r == snapped_point(cursor, window),
{
    let wx = screen_to_world(cursor.x, window.width);
    let wy = screen_to_world(cursor.y, window.height);
    proof {
        lemma_snap_bounds(wx as int);
        lemma_snap_bounds(wy as int);
    }
    Point { x: snap(wx), y: snap(wy) }
}

/// Snaps both coordinates of a world-space point.
pub fn snap_point(p: Point) -> (r: Point)
    requires
        snap_of(p.x as int) >= i64::MIN,
        snap_of(p.y as int) >= i64::MIN,
    ensures
        r.x == snap_of(p.x as int),
        r.y == snap_of(p.y as int),
{
    Point { x: snap(p.x), y: snap(p.y) }
}

} // verus!
