//! What the check of a workspace finds.

use vstd::prelude::*;

use crate::ids::WindowId;
use crate::invariants::{ScrollingReport, TileReport};
use crate::state::WorkspaceState;

verus! {

/// The check passes exactly where both sides of the view and the scale factor are above zero, the
/// factor is not infinite, the scrolling layer has the same view size, clock and options and is
/// valid itself, each tile is at whole pixels, and each tile but that of the moved window is in its
/// place.
pub proof fn law_check_finds_every_fault(
    workspace: WorkspaceState,
    scrolling: ScrollingReport,
    tiles: Seq<TileReport>,
    moved: Option<WindowId>,
)
    ensures
        crate::invariants::in_order(workspace, scrolling, tiles, moved) <==> {
            &&& 0 < workspace.view_size.w.bits <= 0x7ff0_0000_0000_0000
            &&& 0 < workspace.view_size.h.bits <= 0x7ff0_0000_0000_0000
            &&& 0 < workspace.scale.fractional.bits < 0x7ff0_0000_0000_0000
            &&& scrolling.view_size.w.bits == workspace.view_size.w.bits
            &&& scrolling.view_size.h.bits == workspace.view_size.h.bits
            &&& scrolling.shares_clock
            &&& scrolling.shares_options
            &&& scrolling.is_valid
            &&& forall|i: int|
                0 <= i < tiles.len() ==> {
                    &&& (#[trigger] tiles[i]).is_pixel_aligned
                    &&& (moved is Some && moved->0 == tiles[i].window) || (
                    tiles[i].interactive_move_offset.x.bits % 0x8000_0000_0000_0000 == 0
                        && tiles[i].interactive_move_offset.y.bits % 0x8000_0000_0000_0000 == 0)
                }
        },
{
    assert forall|i: int| 0 <= i < tiles.len() implies (#[trigger] tiles[i]).in_order(moved) == ({
        &&& tiles[i].is_pixel_aligned
        &&& (moved is Some && moved->0 == tiles[i].window) || (
        tiles[i].interactive_move_offset.x.bits % 0x8000_0000_0000_0000 == 0
            && tiles[i].interactive_move_offset.y.bits % 0x8000_0000_0000_0000 == 0)
    }) by {}
}

} // verus!
