//! What is under the pointer.

use vstd::prelude::*;

use crate::geometry::Point;
use crate::tiles::{PointedTile, ResizeEdge};

verus! {

/// The pointer is at a window exactly where it is near edges, and the edges are those of the
/// window's tile.
pub proof fn law_edges_belong_to_window_under(
    tiles: Seq<PointedTile>,
    window: Option<(usize, Option<Point>)>,
    edges: Option<ResizeEdge>,
)
    requires
        crate::tiles::is_window_under(tiles, window),
        crate::tiles::are_edges_under(tiles, edges),
    ensures
        window is Some <==> edges is Some,
        window matches Some((tile, _)) ==> edges == Some(tiles[tile as int].edges()),
{
    if let Some((tile, _)) = window {
        assert(tiles[tile as int].hit());
        if let Some(found) = edges {
            let i = choose|i: int| #[trigger]
                crate::tiles::is_first_hit(tiles, i) && found == tiles[i].edges();
            assert(tiles[i].hit());
            assert(i == tile);
        }
    } else if let Some(found) = edges {
        let i = choose|i: int| #[trigger]
            crate::tiles::is_first_hit(tiles, i) && found == tiles[i].edges();
        assert(tiles[i].hit());
    }
}

/// A window is never resized by two opposite edges at once.
pub proof fn law_edges_are_never_opposite(tile: PointedTile)
    ensures
        !(tile.edges().left && tile.edges().right),
        !(tile.edges().top && tile.edges().bottom),
{
}

/// Which of the left and right edges the pointer is near depends on how far across the tile it is
/// and on the tile's width alone; which of the top and bottom edges, on how far down it is and on
/// the tile's height alone.
pub proof fn law_axes_are_independent(a: PointedTile, b: PointedTile)
    ensures
        a.pos_within_tile.x == b.pos_within_tile.x && a.third.w == b.third.w && a.two_thirds.w
            == b.two_thirds.w ==> a.edges().left == b.edges().left && a.edges().right
            == b.edges().right,
        a.pos_within_tile.y == b.pos_within_tile.y && a.third.h == b.third.h && a.two_thirds.h
            == b.two_thirds.h ==> a.edges().top == b.edges().top && a.edges().bottom
            == b.edges().bottom,
{
}

/// The two axes follow one rule: a tile on its side has its left and right edges where it had its
/// top and bottom ones.
pub proof fn law_axes_follow_one_rule(a: PointedTile, b: PointedTile)
    requires
        a.pos_within_tile.x == b.pos_within_tile.y,
        a.third.w == b.third.h,
        a.two_thirds.w == b.two_thirds.h,
    ensures
        a.edges().left == b.edges().top,
        a.edges().right == b.edges().bottom,
{
}

/// The pointer is near the left edge exactly where it is in the first third of the width, near the
/// right edge exactly where it is in the last, however far down it is; and near the top and bottom
/// edges exactly where it is in the first and the last third of the height, however far across it
/// is. A third is less than two thirds.
pub proof fn law_edges_are_outer_thirds(tile: PointedTile)
    ensures
        tile.edges().left <==> tile.pos_within_tile.x.below(tile.third.w),
        tile.edges().top <==> tile.pos_within_tile.y.below(tile.third.h),
        tile.third.w.below(tile.two_thirds.w) || tile.third.w.equals(tile.two_thirds.w) ==> (
        tile.edges().right <==> tile.two_thirds.w.below(tile.pos_within_tile.x)),
        tile.third.h.below(tile.two_thirds.h) || tile.third.h.equals(tile.two_thirds.h) ==> (
        tile.edges().bottom <==> tile.two_thirds.h.below(tile.pos_within_tile.y)),
        tile.edges().right ==> tile.two_thirds.w.below(tile.pos_within_tile.x),
        tile.edges().bottom ==> tile.two_thirds.h.below(tile.pos_within_tile.y),
        // Where the thirds overlap, the first one counts.
        !tile.pos_within_tile.x.below(tile.third.w) && tile.two_thirds.w.below(
            tile.pos_within_tile.x,
        ) ==> tile.edges().right,
        !tile.pos_within_tile.y.below(tile.third.h) && tile.two_thirds.h.below(
            tile.pos_within_tile.y,
        ) ==> tile.edges().bottom,
{
}

/// The window under the pointer is the first one that takes input there or is activated by a click
/// there; the position of its surface comes with it exactly where it takes input.
pub proof fn law_first_window_at_pointer_is_under_it(
    tiles: Seq<PointedTile>,
    window: Option<(usize, Option<Point>)>,
)
    requires
        crate::tiles::is_window_under(tiles, window),
    ensures
        window is None <==> forall|j: int|
            0 <= j < tiles.len() ==> !(#[trigger] tiles[j]).in_input_region
                && !tiles[j].in_activation_region,
        window matches Some((i, pos)) ==> {
            &&& i < tiles.len()
            &&& tiles[i as int].in_input_region || tiles[i as int].in_activation_region
            &&& forall|j: int|
                0 <= j < i ==> !(#[trigger] tiles[j]).in_input_region
                    && !tiles[j].in_activation_region
            &&& tiles[i as int].in_input_region ==> pos == Some(tiles[i as int].surface_pos)
            &&& !tiles[i as int].in_input_region ==> pos is None
        },
{
    assert forall|j: int| 0 <= j < tiles.len() implies (#[trigger] tiles[j]).hit()
        == (tiles[j].in_input_region || tiles[j].in_activation_region) by {}
    if let Some((i, _)) = window {
        assert(tiles[i as int].hit());
    }
}

/// There are edges under the pointer exactly where there is a window that takes input or is
/// activated there, and they are the edges of the first such window's tile.
pub proof fn law_first_window_at_pointer_has_the_edges(
    tiles: Seq<PointedTile>,
    edges: Option<ResizeEdge>,
    i: int,
)
    requires
        crate::tiles::are_edges_under(tiles, edges),
        0 <= i <= tiles.len(),
        forall|j: int|
            0 <= j < i ==> !(#[trigger] tiles[j]).in_input_region && !tiles[j].in_activation_region,
        i < tiles.len() ==> tiles[i].in_input_region || tiles[i].in_activation_region,
    ensures
        edges is Some <==> i < tiles.len(),
        edges matches Some(found) ==> {
            let tile = tiles[i];
            &&& found.left <==> tile.pos_within_tile.x.below(tile.third.w)
            &&& found.right <==> !tile.pos_within_tile.x.below(tile.third.w)
                && tile.two_thirds.w.below(tile.pos_within_tile.x)
            &&& found.top <==> tile.pos_within_tile.y.below(tile.third.h)
            &&& found.bottom <==> !tile.pos_within_tile.y.below(tile.third.h)
                && tile.two_thirds.h.below(tile.pos_within_tile.y)
        },
{
    assert(i < tiles.len() ==> tiles[i].hit());
    if let Some(found) = edges {
        let k = choose|k: int| #[trigger]
            crate::tiles::is_first_hit(tiles, k) && found == tiles[k].edges();
        assert(tiles[k].hit());
        assert(i == k);
    }
}

/// A search ends at the first match, and without one exactly where there is none.
pub proof fn law_search_ends_at_first_match<T>(
    items: Seq<T>,
    pred: spec_fn(T) -> bool,
    result: Option<usize>,
    i: int,
)
    requires
        crate::tiles::is_search_result(items, pred, result),
        0 <= i <= items.len(),
        forall|j: int| 0 <= j < i ==> !pred(#[trigger] items[j]),
        i < items.len() ==> pred(items[i]),
    ensures
        result is Some <==> i < items.len(),
        result matches Some(found) ==> found == i,
{
}

} // verus!
