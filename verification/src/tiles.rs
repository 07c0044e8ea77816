//! Finding windows among the tiles, and what is done with the tile that was found.
//!
//! Tiles and windows are given in tile order, and the first match counts.

use vstd::prelude::*;

use crate::binary64::Binary64;
use crate::geometry::{Point, Rectangle, Size};
use crate::ids::WindowId;
use crate::workspace::Workspace;

verus! {

/// A tile and where it is rendered.
#[derive(Clone, Copy, Debug, PartialEq)]
pub struct PlacedTile {
    pub window: WindowId,
    pub pos: Point,
}

/// A tile, and how a position of the pointer relates to it.
#[derive(Clone, Copy, Debug, PartialEq)]
pub struct PointedTile {
    /// Whether the window takes input there.
    pub in_input_region: bool,
    /// Whether a click there activates the window.
    pub in_activation_region: bool,
    /// Where the window's surface starts, in the workspace.
    pub surface_pos: Point,
    /// The pointer's position within the tile.
    pub pos_within_tile: Point,
    /// A third of the tile's size.
    pub third: Size,
    /// Two thirds of the tile's size.
    pub two_thirds: Size,
}

/// The edges by which a window is resized.
#[derive(Clone, Copy, Debug, PartialEq, Eq, Structural)]
pub struct ResizeEdge {
    pub top: bool,
    pub bottom: bool,
    pub left: bool,
    pub right: bool,
}

/// How a tile is to be snapshotted before its window goes away.
#[derive(Clone, Copy, Debug, PartialEq)]
pub struct UnmapSnapshot {
    /// The index of the tile.
    pub tile: usize,
    /// Whether the tile is drawn as the active one.
    pub is_active: bool,
    /// The view, seen from the tile.
    pub view_rect: Rectangle,
    pub output_scale: Binary64,
}

/// Whether `i` is the index of the first item that satisfies the predicate.
pub open spec fn is_first<T>(items: Seq<T>, i: int, pred: spec_fn(T) -> bool) -> bool {
    &&& 0 <= i < items.len()
    &&& pred(items[i])
    &&& forall|j: int| 0 <= j < i ==> !pred(#[trigger] items[j])
}

/// Whether the answer of a search is right: the index of the first item that satisfies the
/// predicate, or `None` where no item does.
pub open spec fn is_search_result<T>(
    items: Seq<T>,
    pred: spec_fn(T) -> bool,
    result: Option<usize>,
) -> bool {
    match result {
        Some(i) => is_first(items, i as int, pred),
        None => forall|j: int| 0 <= j < items.len() ==> !pred(#[trigger] items[j]),
    }
}

/// Whether `i` is the index of the first tile whose window the pointer is at.
pub open spec fn is_first_hit(tiles: Seq<PointedTile>, i: int) -> bool {
    is_first(tiles, i, |tile: PointedTile| tile.hit())
}

/// Whether the answer is the window under the pointer: the first one that the pointer is at and,
/// where that one takes input there, the position of its surface.
pub open spec fn is_window_under(
    tiles: Seq<PointedTile>,
    result: Option<(usize, Option<Point>)>,
) -> bool {
    match result {
        Some((i, pos)) => {
            &&& is_first_hit(tiles, i as int)
            &&& pos == if tiles[i as int].in_input_region {
                Some(tiles[i as int].surface_pos)
            } else {
                None
            }
        },
        None => forall|j: int| 0 <= j < tiles.len() ==> !(#[trigger] tiles[j]).hit(),
    }
}

/// Whether the answer is the edges under the pointer: those that the pointer is nearest to, of the
/// first tile whose window the pointer is at.
pub open spec fn are_edges_under(tiles: Seq<PointedTile>, result: Option<ResizeEdge>) -> bool {
    match result {
        Some(edges) => exists|i: int| #[trigger]
            is_first_hit(tiles, i) && edges == tiles[i].edges(),
        None => forall|j: int| 0 <= j < tiles.len() ==> !(#[trigger] tiles[j]).hit(),
    }
}

impl PointedTile {
    /// Whether the pointer is at the tile's window at all.
    pub open spec fn hit(self) -> bool {
        self.in_input_region || self.in_activation_region
    }

    /// The edges nearest to the pointer. The middle third of the tile is near neither edge.
    pub open spec fn edges(self) -> ResizeEdge {
        ResizeEdge {
            left: self.pos_within_tile.x.below(self.third.w),
            right: !self.pos_within_tile.x.below(self.third.w) && self.two_thirds.w.below(
                self.pos_within_tile.x,
            ),
            top: self.pos_within_tile.y.below(self.third.h),
            bottom: !self.pos_within_tile.y.below(self.third.h) && self.two_thirds.h.below(
                self.pos_within_tile.y,
            ),
        }
    }
}

impl ResizeEdge {
    pub fn empty() -> (r: Self)
        ensures
            r == (ResizeEdge { top: false, bottom: false, left: false, right: false }),
    {
        ResizeEdge { top: false, bottom: false, left: false, right: false }
    }
}

/// The index of the window's first tile.
fn find_window(windows: &[WindowId], window: WindowId) -> (r: Option<usize>)
    ensures
        is_search_result(windows@, |w: WindowId| w == window, r),
{
    let mut i: usize = 0;
    while i < windows.len()
        invariant
            i <= windows.len(),
            forall|j: int| 0 <= j < i ==> windows@[j] != window,
        decreases windows.len() - i,
    {
        if windows[i] == window {
            return Some(i);
        }
        i += 1;
    }
    None
}

impl Workspace {
    pub fn has_window(windows: &[WindowId], window: WindowId) -> (r: bool)
        ensures
            r == windows@.contains(window),
    {
        find_window(windows, window).is_some()
    }

    /// The index of the window that a surface belongs to, given for each window whether it is the
    /// one.
    pub fn find_wl_surface(is_wl_surface: &[bool]) -> (r: Option<usize>)
        ensures
            is_search_result(is_wl_surface@, |b: bool| b, r),
    {
        let mut i: usize = 0;
        while i < is_wl_surface.len()
            invariant
                i <= is_wl_surface.len(),
                forall|j: int| 0 <= j < i ==> !is_wl_surface@[j],
            decreases is_wl_surface.len() - i,
        {
            if is_wl_surface[i] {
                return Some(i);
            }
            i += 1;
        }
        None
    }

    /// The snapshot to store of the window's tile.
    pub fn store_unmap_snapshot_if_empty(
        &self,
        tiles: &[PlacedTile],
        window: WindowId,
    ) -> (r: Option<UnmapSnapshot>)
        ensures
            is_search_result(
                tiles@,
                |t: PlacedTile| t.window == window,
                match r {
                    Some(snapshot) => Some(snapshot.tile),
                    None => None,
                },
            ),
            r matches Some(snapshot) ==> {
                &&& !snapshot.is_active
                &&& snapshot.view_rect == (Rectangle {
                    loc: tiles@[snapshot.tile as int].pos.mirrored(),
                    size: self@.view_size,
                })
                &&& snapshot.output_scale == self@.scale.fractional
            },
    {
        let mut i: usize = 0;
        while i < tiles.len()
            invariant
                i <= tiles.len(),
                forall|j: int| 0 <= j < i ==> (#[trigger] tiles@[j]).window != window,
            decreases tiles.len() - i,
        {
            if tiles[i].window == window {
                return Some(
                    UnmapSnapshot {
                        tile: i,
                        is_active: false,
                        view_rect: Rectangle {
                            loc: tiles[i].pos.mirror(),
                            size: self.view_size(),
                        },
                        output_scale: self.scale().fractional,
                    },
                );
            }
            i += 1;
        }
        None
    }

    /// The index of the tile that is to give up its snapshot.
    pub fn clear_unmap_snapshot(windows: &[WindowId], window: WindowId) -> (r: Option<usize>)
        ensures
            is_search_result(windows@, |w: WindowId| w == window, r),
    {
        find_window(windows, window)
    }

    /// The index of the tile whose window is under the pointer and, where the window takes input
    /// there, the position of its surface.
    pub fn window_under(tiles: &[PointedTile]) -> (r: Option<(usize, Option<Point>)>)
        ensures
            is_window_under(tiles@, r),
    {
        let mut i: usize = 0;
        while i < tiles.len()
            invariant
                i <= tiles.len(),
                forall|j: int| 0 <= j < i ==> !(#[trigger] tiles@[j]).hit(),
            decreases tiles.len() - i,
        {
            if tiles[i].in_input_region {
                return Some((i, Some(tiles[i].surface_pos)));
            } else if tiles[i].in_activation_region {
                return Some((i, None));
            }
            i += 1;
        }
        None
    }

    /// The edges of the window under the pointer that the pointer is nearest to.
    pub fn resize_edges_under(tiles: &[PointedTile]) -> (r: Option<ResizeEdge>)
        ensures
            are_edges_under(tiles@, r),
    {
        let mut i: usize = 0;
        while i < tiles.len()
            invariant
                i <= tiles.len(),
                forall|j: int| 0 <= j < i ==> !(#[trigger] tiles@[j]).hit(),
            decreases tiles.len() - i,
        {
            let tile = &tiles[i];
            // This logic should be consistent with window_under() in when it returns Some vs.
            // None.
            if tile.in_input_region || tile.in_activation_region {
                let pos = tile.pos_within_tile;
                let mut edges = ResizeEdge::empty();
                if pos.x.is_below(tile.third.w) {
                    edges.left = true;
                } else if tile.two_thirds.w.is_below(pos.x) {
                    edges.right = true;
                }
                if pos.y.is_below(tile.third.h) {
                    edges.top = true;
                } else if tile.two_thirds.h.is_below(pos.y) {
                    edges.bottom = true;
                }
                assert(is_first_hit(tiles@, i as int));
                return Some(edges);
            }
            i += 1;
        }
        None
    }
}

} // verus!
