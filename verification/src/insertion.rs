//! How windows come into and go out of the scrolling layer.

use vstd::prelude::*;

use crate::binary64::Binary64;
use crate::effects::{tell, tell_each, Effect, WindowEvent};
use crate::geometry::{Scale, SizeI32, Transform};
use crate::ids::{ClockHandle, WindowId};
use crate::scrolling::AdjustedOptions;
use crate::workspace::Workspace;

verus! {

/// What a tile is made with.
#[derive(Clone, Copy, Debug, PartialEq)]
pub struct TileSetup {
    pub scale: Binary64,
    pub clock: ClockHandle,
    pub options: AdjustedOptions,
}

/// Where the scrolling layer is to put a tile.
#[derive(Debug, PartialEq)]
pub enum TileTarget<C> {
    /// In a column of its own, at the given index or, without one, where the layer sees fit.
    NewColumn { col_idx: Option<usize>, activate: bool, width: C, is_full_width: bool },
    /// In an existing column, at the given index or, without one, where the layer sees fit.
    InColumn { column: usize, tile_idx: Option<usize>, activate: bool },
    /// In a column of its own, right of the window.
    RightOf { right_of: WindowId, width: C, is_full_width: bool },
}

/// How to bring in one window.
#[derive(Debug, PartialEq)]
pub struct TileInsertion<C> {
    /// What to make the window's tile with, where it has none yet.
    pub setup: Option<TileSetup>,
    /// What to tell the window first.
    pub events: Vec<WindowEvent>,
    /// Where the tile then goes.
    pub target: TileTarget<C>,
}

/// How to bring in a column of windows.
#[derive(Debug, PartialEq)]
pub struct ColumnInsertion {
    /// What to tell the windows first.
    pub effects: Vec<Effect>,
    /// The index at which the column then goes; without one, where the layer sees fit.
    pub col_idx: Option<usize>,
    pub activate: bool,
}

/// Where the width of a new column comes from.
#[derive(Debug, PartialEq)]
pub enum DefaultWidth<C> {
    /// It was asked for; without a width, the window is to choose.
    Asked { width: Option<C> },
    /// It is the default column width of these options.
    OfOptions { options: AdjustedOptions },
}

/// What a window is to be configured with before it is mapped.
#[derive(Clone, Copy, Debug, PartialEq)]
pub struct NewWindowState {
    /// The scale and the transform to send to each of its surfaces.
    pub scale: Scale,
    pub transform: Transform,
    pub size: SizeI32,
    pub bounds: SizeI32,
}

impl Workspace {
    /// What a new window is to be configured with, given whether it asks to be fullscreen
    /// and the size and bounds that the scrolling layer has for it. A fullscreen window fills the
    /// view.
    pub fn configure_new_window(
        &self,
        is_fullscreen: bool,
        new_window_size: SizeI32,
        toplevel_bounds: SizeI32,
    ) -> (r: NewWindowState)
        ensures
            r == (NewWindowState {
                scale: self@.scale,
                transform: self@.transform,
                size: if is_fullscreen {
                    self@.view_size.rounded()
                } else {
                    new_window_size
                },
                bounds: toplevel_bounds,
            }),
    {
        let size = if is_fullscreen {
            self.view_size().to_i32_round()
        } else {
            new_window_size
        };
        NewWindowState {
            scale: self.scale(),
            transform: self.transform(),
            size,
            bounds: toplevel_bounds,
        }
    }

    /// What a tile in this workspace is made with.
    fn tile_setup(&self) -> (r: TileSetup)
        ensures
            r.scale == self@.scale.fractional,
            r.clock == self@.clock,
            r.options == self@.options,
    {
        TileSetup { scale: self.scale().fractional, clock: self.clock(), options: self.options() }
    }

    /// Brings in a window in a new column.
    pub fn add_window<C>(&self, activate: bool, width: C, is_full_width: bool) -> (r: TileInsertion<
        C,
    >)
        ensures
            r.setup == Some(
                TileSetup {
                    scale: self@.scale.fractional,
                    clock: self@.clock,
                    options: self@.options,
                },
            ),
            r.events@ == self@.arrival_events(),
            r.target == (TileTarget::NewColumn { col_idx: None, activate, width, is_full_width }),
    {
        let mut insertion = self.add_tile(None, activate, width, is_full_width);
        insertion.setup = Some(self.tile_setup());
        insertion
    }

    /// Brings in a tile in a new column.
    pub fn add_tile<C>(
        &self,
        col_idx: Option<usize>,
        activate: bool,
        width: C,
        is_full_width: bool,
    ) -> (r: TileInsertion<C>)
        ensures
            r.setup is None,
            r.events@ == self@.arrival_events(),
            r.target == (TileTarget::NewColumn { col_idx, activate, width, is_full_width }),
    {
        TileInsertion {
            setup: None,
            events: self.enter_output_for_window(),
            target: TileTarget::NewColumn { col_idx, activate, width, is_full_width },
        }
    }

    /// Brings in a tile in an existing column.
    pub fn add_tile_to_column<C>(
        &self,
        col_idx: usize,
        tile_idx: Option<usize>,
        activate: bool,
    ) -> (r: TileInsertion<C>)
        ensures
            r.setup is None,
            r.events@ == self@.arrival_events(),
            r.target == (TileTarget::<C>::InColumn { column: col_idx, tile_idx, activate }),
    {
        TileInsertion {
            setup: None,
            events: self.enter_output_for_window(),
            target: TileTarget::InColumn { column: col_idx, tile_idx, activate },
        }
    }

    /// Brings in a window in a new column right of another window.
    pub fn add_window_right_of<C>(
        &self,
        right_of: WindowId,
        width: C,
        is_full_width: bool,
    ) -> (r: TileInsertion<C>)
        ensures
            r.setup == Some(
                TileSetup {
                    scale: self@.scale.fractional,
                    clock: self@.clock,
                    options: self@.options,
                },
            ),
            r.events@ == self@.arrival_events(),
            r.target == (TileTarget::RightOf { right_of, width, is_full_width }),
    {
        let mut insertion = self.add_tile_right_of(right_of, width, is_full_width);
        insertion.setup = Some(self.tile_setup());
        insertion
    }

    /// Brings in a tile in a new column right of another window.
    pub fn add_tile_right_of<C>(
        &self,
        right_of: WindowId,
        width: C,
        is_full_width: bool,
    ) -> (r: TileInsertion<C>)
        ensures
            r.setup is None,
            r.events@ == self@.arrival_events(),
            r.target == (TileTarget::RightOf { right_of, width, is_full_width }),
    {
        TileInsertion {
            setup: None,
            events: self.enter_output_for_window(),
            target: TileTarget::RightOf { right_of, width, is_full_width },
        }
    }

    /// Brings in a column, given its windows in tile order.
    pub fn add_column(&self, column: &[WindowId], activate: bool) -> (r: ColumnInsertion)
        ensures
            r.effects@ == crate::effects::each_told(column@, self@.arrival_events()),
            r.col_idx is None,
            r.activate == activate,
    {
        let mut effects: Vec<Effect> = Vec::new();
        let events = self.enter_output_for_window();
        tell_each(&mut effects, column, events.as_slice());
        ColumnInsertion { effects, col_idx: None, activate }
    }

    /// What has to be told once the scrolling layer has given up the window's tile.
    pub fn remove_tile(&self, removed: WindowId) -> (effects: Vec<Effect>)
        ensures
            effects@ == crate::effects::told(removed, self@.departure_events()),
    {
        let mut effects: Vec<Effect> = Vec::new();
        let events = self.leave_output_for_window();
        tell(&mut effects, removed, events.as_slice());
        effects
    }

    /// What has to be told once the scrolling layer has given up its active tile; `None` where it
    /// had none to give up.
    pub fn remove_active_tile(&self, removed: Option<WindowId>) -> (r: Option<Vec<Effect>>)
        ensures
            r is Some <==> removed is Some,
            r matches Some(effects) ==> effects@ == crate::effects::told(
                removed->0,
                self@.departure_events(),
            ),
    {
        match removed {
            Some(window) => Some(self.remove_tile(window)),
            None => None,
        }
    }

    /// What has to be told once the scrolling layer has given up its active column, given the
    /// column's windows in tile order; `None` where it had none to give up.
    pub fn remove_active_column(&self, removed: Option<&[WindowId]>) -> (r: Option<Vec<Effect>>)
        ensures
            r is Some <==> removed is Some,
            r matches Some(effects) ==> effects@ == crate::effects::each_told(
                removed->0@,
                self@.departure_events(),
            ),
    {
        match removed {
            Some(column) => {
                let mut effects: Vec<Effect> = Vec::new();
                let events = self.leave_output_for_window();
                tell_each(&mut effects, column, events.as_slice());
                Some(effects)
            },
            None => None,
        }
    }

    /// The width of a new column: the one asked for, or that of the workspace's options where
    /// nothing was asked for. To ask for no particular width is asking, too.
    pub fn resolve_default_width<C>(&self, default_width: Option<Option<C>>) -> (r: DefaultWidth<C>)
        ensures
            r == (match default_width {
                Some(asked) => DefaultWidth::Asked { width: asked },
                None => DefaultWidth::OfOptions { options: self@.options },
            }),
    {
        match default_width {
            Some(Some(width)) => DefaultWidth::Asked { width: Some(width) },
            Some(None) => DefaultWidth::Asked { width: None },
            None => DefaultWidth::OfOptions { options: self.options() },
        }
    }
}

} // verus!
