use crate::button::{button_color, color_of, ButtonColor, Interaction};
use crate::grid::{cursor_to_grid, snapped_point, Point, ScreenPos, WindowSize};
use vstd::prelude::*;

verus! {

/// Where a freshly spawned grid marker stands: the world origin.
pub open spec fn marker_origin() -> Point {
    Point { x: 0, y: 0 }
}

/// Everything the sandbox tracks between ticks.
///
/// `markers` holds the live grid markers, oldest first. Normally there is at
/// most one; repeated presses of the button can spawn more, and then the
/// cursor and the placement step both leave them alone, since they act only
/// when exactly one marker exists. `tiles` holds the placed tiles in the order
/// they were placed; nothing removes or moves them.
pub struct Scene {
    pub markers: Vec<Point>,
    pub tiles: Vec<Point>,
    pub button: ButtonColor,
}

impl Scene {
    /// An empty scene: no marker, no tile, the button in its normal colour.
    pub fn new() -> (r: Scene)
        ensures
            r.markers@ == Seq::<Point>::empty(),
            r.tiles@ == Seq::<Point>::empty(),
            r.button == ButtonColor::Normal,
    {
        Scene { markers: Vec::new(), tiles: Vec::new(), button: ButtonColor::Normal }
    }

    /// Reacts to a change of the button's interaction state (`None`: no
    /// change this tick). The button takes the colour of the new state; a
    /// press also spawns a marker at the origin, whether or not one exists.
    pub fn btn_system(&mut self, changed: Option<Interaction>)
        ensures
            final(self).tiles@ == old(self).tiles@,
            changed is None ==> final(self).markers@ == old(self).markers@
                && final(self).button == old(self).button,
            changed matches Some(i) ==> final(self).button == color_of(i),
            changed matches Some(i) ==> final(self).markers@ == if i == Interaction::Pressed {
                old(self).markers@.push(marker_origin())
            } else {
                old(self).markers@
            },
            changed == Some(Interaction::Pressed) && old(self).markers@.len() == 0
                ==> final(self).markers@ == seq![marker_origin()],
    {
        if let Some(i) = changed {
            self.button = button_color(i);
            if let Interaction::Pressed = i {
                self.markers.push(Point { x: 0, y: 0 });
            }
        }
        proof {
            if changed == Some(Interaction::Pressed) && old(self).markers@.len() == 0 {
                assert(final(self).markers@ =~= seq![marker_origin()]);
            }
        }
    }

    /// Moves the marker to the grid cell under the cursor. Nothing changes
    /// when the cursor is outside the window (`None`) or when there is not
    /// exactly one marker.
    pub fn grid_marker_mouse_system(&mut self, window: WindowSize, cursor: Option<ScreenPos>)
        ensures
            final(self).tiles@ == old(self).tiles@,
            final(self).button == old(self).button,
            final(self).markers@ == match cursor {
                Some(c) => if old(self).markers@.len() == 1 {
                    seq![snapped_point(c, window)]
                } else {
                    old(self).markers@
                },
                None => old(self).markers@,
            },
            cursor is None ==> final(self).markers@ == old(self).markers@,
    {
        if let Some(c) = cursor {
            if self.markers.len() == 1 {
                let p = cursor_to_grid(c, window);
                self.markers.set(0, p);
                proof {
                    assert(self.markers@ =~= seq![snapped_point(c, window)]);
                }
            }
        }
    }

    /// On a press edge of the right mouse button, turns the one live marker
    /// into a placed tile at the marker's position. Nothing changes when the
    /// button was not just pressed or when there is not exactly one marker.
    pub fn build_mouse_system(&mut self, right_just_pressed: bool)
        ensures
            final(self).button == old(self).button,
            (right_just_pressed && old(self).markers@.len() == 1) ==> {
                &&& final(self).markers@ == Seq::<Point>::empty()
                &&& final(self).tiles@ == old(self).tiles@.push(old(self).markers@[0])
            },
            !(right_just_pressed && old(self).markers@.len() == 1) ==> {
                &&& final(self).markers@ == old(self).markers@
                &&& final(self).tiles@ == old(self).tiles@
            },
    {
        if right_just_pressed && self.markers.len() == 1 {
            let p = self.markers.pop().unwrap();
            self.tiles.push(p);
            proof {
                assert(self.markers@ =~= Seq::<Point>::empty());
            }
        }
    }
}

} // verus!
