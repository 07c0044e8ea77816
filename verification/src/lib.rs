//! The bookkeeping core of a workspace in a scrollable-tiling compositor.
//!
//! A [`Workspace`] knows which output it is on, which one it came from, and the scale, transform,
//! view size and working area that its windows are laid out for. It performs no input or output
//! of its own: an operation changes this state and returns, in order, what is to be told to the
//! windows and to the scrolling layer ([`Effect`]). The shell around the library carries that out.
//!
//! The operations' contracts say exactly what the new state and the effects are. What holds
//! across operations is proved in [`laws`].

pub mod binary64;
pub mod effects;
pub mod geometry;
pub mod ids;
pub mod insertion;
pub mod invariants;
pub mod laws;
pub mod output;
pub mod scrolling;
pub mod state;
pub mod tiles;
pub mod workspace;

pub use binary64::Binary64;
pub use effects::{Effect, WindowEvent};
pub use geometry::{Point, Rectangle, ResolvedSize, Scale, ScaleKind, Size, SizeI32, Transform};
pub use ids::{ClockHandle, IdCounter, OptionsHandle, OutputHandle, WindowId, WorkspaceId};
pub use insertion::{
    ColumnInsertion, DefaultWidth, NewWindowState, TileInsertion, TileSetup, TileTarget,
};
pub use invariants::{ScrollingReport, TileReport};
pub use output::{OutputId, OutputState};
pub use scrolling::{AdjustedOptions, ScrollingConfig};
pub use tiles::{PlacedTile, PointedTile, ResizeEdge, UnmapSnapshot};
pub use workspace::{Workspace, WorkspaceConfig};
