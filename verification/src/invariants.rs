//! The check that a workspace and its scrolling layer fit together.

use vstd::prelude::*;

use crate::geometry::{Point, Size};
use crate::ids::WindowId;
use crate::state::WorkspaceState;
use crate::workspace::Workspace;

verus! {

/// What the scrolling layer turns out to hold.
#[derive(Clone, Copy, Debug, PartialEq)]
pub struct ScrollingReport {
    pub view_size: Size,
    /// Whether its clock is the workspace's.
    pub shares_clock: bool,
    /// Whether its options are the very options of the workspace.
    pub shares_options: bool,
    /// Whether its own invariants hold for the workspace's working area.
    pub is_valid: bool,
}

/// What a tile turns out to be like.
#[derive(Clone, Copy, Debug, PartialEq)]
pub struct TileReport {
    pub window: WindowId,
    pub interactive_move_offset: Point,
    /// Whether the tile is rendered at whole physical pixels, but for a rounding error.
    pub is_pixel_aligned: bool,
}

impl TileReport {
    /// Only the window that is being moved is off its place, and no tile is between pixels.
    pub open spec fn in_order(self, moved: Option<WindowId>) -> bool {
        &&& moved == Some(self.window) || self.interactive_move_offset.is_origin()
        &&& self.is_pixel_aligned
    }
}

impl ScrollingReport {
    /// The scrolling layer agrees with the workspace.
    pub open spec fn in_order(self, state: WorkspaceState) -> bool {
        &&& state.view_size.equals(self.view_size)
        &&& self.shares_clock
        &&& self.shares_options
        &&& self.is_valid
    }
}

/// Whether a workspace with this state, scrolling layer and tiles is as it should be, while the
/// given window is being moved.
pub open spec fn in_order(
    state: WorkspaceState,
    scrolling: ScrollingReport,
    tiles: Seq<TileReport>,
    moved: Option<WindowId>,
) -> bool {
    &&& state.usable()
    &&& scrolling.in_order(state)
    &&& forall|i: int| 0 <= i < tiles.len() ==> (#[trigger] tiles[i]).in_order(moved)
}

impl Workspace {
    /// Checks that everything is as it should be, given what the scrolling layer and the tiles
    /// turn out to hold, and the window that is being moved, if any.
    pub fn verify_invariants(
        &self,
        scrolling: &ScrollingReport,
        tiles: &[TileReport],
        move_win_id: Option<WindowId>,
    ) -> (r: bool)
        ensures
            r == in_order(self@, *scrolling, tiles@, move_win_id),
    {
        let scale = self.scale().fractional;
        let view_size = self.view_size();
        if !view_size.w.is_positive() || !view_size.h.is_positive() || !scale.is_positive()
            || !scale.is_finite() {
            return false;
        }
        if !(view_size == scrolling.view_size) || !scrolling.shares_clock
            || !scrolling.shares_options || !scrolling.is_valid {
            return false;
        }

        let mut i: usize = 0;
        while i < tiles.len()
            invariant
                i <= tiles.len(),
                forall|j: int| 0 <= j < i ==> (#[trigger] tiles@[j]).in_order(move_win_id),
            decreases tiles.len() - i,
        {
            let tile = &tiles[i];
            let is_moved = match move_win_id {
                Some(window) => window == tile.window,
                None => false,
            };
            let is_in_place = tile.interactive_move_offset == Point::origin();
            if !(is_moved || is_in_place) || !tile.is_pixel_aligned {
                assert(!tiles@[i as int].in_order(move_win_id));
                return false;
            }
            i += 1;
        }
        true
    }
}

} // verus!
