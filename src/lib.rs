//! A small tile-placement sandbox: a button spawns a grid cursor, the cursor
//! follows the mouse snapped to a 30-unit grid, and a right click turns it
//! into a placed tile.
//!
//! Positions are held as integers in thousandths of a world unit, so that
//! snapping is exact arithmetic.
mod grid;
mod button;
mod scene;

pub use grid::{
    cursor_to_grid, lemma_snap_idempotent, lemma_snapped_point_idempotent, screen_to_world, snap,
    snap_of, snap_point, snapped_point, world_of, Point, ScreenPos, WindowSize, CELL,
    CELL_SIZE, UNIT,
};
pub use button::{button_color, color_of, ButtonColor, Interaction};
pub use scene::{marker_origin, Scene};
