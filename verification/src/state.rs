//! The abstract state of a workspace and what its operations make of it.

use vstd::prelude::*;

use crate::binary64::Binary64;
use crate::effects::{Effect, WindowEvent};
use crate::geometry::{Point, Rectangle, Scale, ScaleKind, Size, Transform};
use crate::ids::{ClockHandle, OptionsHandle, OutputHandle, WindowId};
use crate::output::OutputReport;
use crate::scrolling::{AdjustedOptions, ScrollingConfig};
use crate::workspace::WorkspaceConfig;

verus! {

/// The bit pattern of 1.
pub const BITS_OF_1: u64 = 0x3ff0_0000_0000_0000;

/// The bit pattern of 720.
pub const BITS_OF_720: u64 = 0x4086_8000_0000_0000;

/// The bit pattern of 1280.
pub const BITS_OF_1280: u64 = 0x4094_0000_0000_0000;

/// The contents of a workspace.
pub ghost struct WorkspaceState {
    pub scrolling: ScrollingConfig,
    pub original_output: Seq<char>,
    pub output: Option<OutputHandle>,
    pub scale: Scale,
    pub transform: Transform,
    pub view_size: Size,
    pub working_area: Rectangle,
    pub clock: ClockHandle,
    pub base_options: OptionsHandle,
    pub options: AdjustedOptions,
    pub name: Option<Seq<char>>,
    pub id: u64,
}

impl WorkspaceState {
    /// What the scrolling layer should have been handed.
    pub open spec fn due_config(self) -> ScrollingConfig {
        ScrollingConfig {
            view_size: self.view_size,
            working_area: self.working_area,
            scale: self.scale.fractional,
            clock: self.clock,
            options: self.options,
        }
    }

    /// The invariant of a workspace: the scrolling layer has the workspace's own view size,
    /// working area, scale, clock and options, and the options are the base options adjusted for
    /// the current scale.
    pub open spec fn wf(self) -> bool {
        &&& self.scrolling == self.due_config()
        &&& self.options.base == self.base_options
        &&& self.options.scale.equals(self.scale.fractional) || self.options.scale
            == self.scale.fractional
    }

    /// Whether the numbers are fit for layout: a positive view size and a positive finite scale.
    pub open spec fn usable(self) -> bool {
        &&& self.view_size.positive()
        &&& self.scale.fractional.positive()
        &&& self.scale.fractional.finite()
    }

    /// A workspace that has just been made.
    pub open spec fn fresh(
        original_output: Seq<char>,
        output: Option<OutputHandle>,
        scale: Scale,
        transform: Transform,
        view_size: Size,
        working_area: Rectangle,
        clock: ClockHandle,
        base_options: OptionsHandle,
        name: Option<Seq<char>>,
        id: u64,
    ) -> Self {
        let options = AdjustedOptions { base: base_options, scale: scale.fractional };
        WorkspaceState {
            scrolling: ScrollingConfig {
                view_size,
                working_area,
                scale: scale.fractional,
                clock,
                options,
            },
            original_output,
            output,
            scale,
            transform,
            view_size,
            working_area,
            clock,
            base_options,
            options,
            name,
            id,
        }
    }

    /// The name of the output that a new workspace counts as its original one: the configured
    /// output, or the fallback where none is configured.
    pub open spec fn configured_output(
        config: Option<WorkspaceConfig>,
        fallback: Seq<char>,
    ) -> Seq<char> {
        match config {
            Some(config) => match config.open_on_output {
                Some(output) => output@,
                None => fallback,
            },
            None => fallback,
        }
    }

    pub open spec fn configured_name(config: Option<WorkspaceConfig>) -> Option<Seq<char>> {
        match config {
            Some(config) => Some(config.name@),
            None => None,
        }
    }

    /// A new workspace on an output.
    pub open spec fn on_output(
        report: OutputReport,
        config: Option<WorkspaceConfig>,
        clock: ClockHandle,
        base_options: OptionsHandle,
        id: u64,
    ) -> Self {
        WorkspaceState::fresh(
            WorkspaceState::configured_output(config, report.name),
            Some(report.handle),
            report.scale,
            report.transform,
            report.size,
            report.working_area,
            clock,
            base_options,
            WorkspaceState::configured_name(config),
            id,
        )
    }

    /// A new workspace while there are no outputs: it is laid out at scale 1, with 1280 by 720
    /// logical pixels, all of them working area.
    pub open spec fn without_output(
        config: Option<WorkspaceConfig>,
        clock: ClockHandle,
        base_options: OptionsHandle,
        id: u64,
    ) -> Self {
        let size = Size {
            w: Binary64 { bits: BITS_OF_1280 },
            h: Binary64 { bits: BITS_OF_720 },
        };
        let zero = Binary64 { bits: 0 };
        WorkspaceState::fresh(
            WorkspaceState::configured_output(config, Seq::empty()),
            None,
            Scale {
                kind: ScaleKind::Integer,
                integer: 1,
                fractional: Binary64 { bits: BITS_OF_1 },
            },
            Transform::Normal,
            size,
            Rectangle { loc: Point { x: zero, y: zero }, size },
            clock,
            base_options,
            WorkspaceState::configured_name(config),
            id,
        )
    }

    /// Whether the workspace differs from this scale or transform in what windows can tell.
    pub open spec fn scale_transform_differs(self, scale: Scale, transform: Transform) -> bool {
        self.transform != transform || !self.scale.equals(scale)
    }

    /// Whether the workspace is already laid out for these.
    pub open spec fn is_laid_out_for(
        self,
        scale: Scale,
        transform: Transform,
        size: Size,
        working_area: Rectangle,
    ) -> bool {
        &&& !self.scale_transform_differs(scale, transform)
        &&& self.view_size.equals(size)
        &&& self.working_area.equals(working_area)
    }

    /// The state after new base options have come in: they are adjusted for the current scale and
    /// the scrolling layer gets them.
    pub open spec fn with_base_options(self, base_options: OptionsHandle) -> Self {
        let options = AdjustedOptions { base: base_options, scale: self.scale.fractional };
        let state = WorkspaceState { base_options, options, ..self };
        WorkspaceState { scrolling: state.due_config(), ..state }
    }

    /// The state after the view has changed. The options are adjusted anew only where the scale
    /// factor is another one.
    pub open spec fn with_view(
        self,
        scale: Scale,
        transform: Transform,
        size: Size,
        working_area: Rectangle,
    ) -> Self {
        if self.is_laid_out_for(scale, transform, size, working_area) {
            self
        } else {
            let options = if self.scale.fractional.equals(scale.fractional) {
                self.options
            } else {
                AdjustedOptions { base: self.base_options, scale: scale.fractional }
            };
            let state = WorkspaceState {
                scale,
                transform,
                view_size: size,
                working_area,
                options,
                ..self
            };
            WorkspaceState { scrolling: state.due_config(), ..state }
        }
    }

    /// What goes with [`Self::with_view`]. Windows hear of it only where the scale or the
    /// transform is another one.
    pub open spec fn view_effects(
        self,
        scale: Scale,
        transform: Transform,
        size: Size,
        working_area: Rectangle,
        windows: Seq<WindowId>,
    ) -> Seq<Effect> {
        let after = self.with_view(scale, transform, size, working_area);
        if self.is_laid_out_for(scale, transform, size, working_area) {
            Seq::empty()
        } else {
            let adjusting = if self.scale.fractional.equals(scale.fractional) {
                Seq::empty()
            } else {
                seq![Effect::AdjustOptions { options: after.options }]
            };
            let telling = if self.scale_transform_differs(scale, transform) {
                crate::effects::each_told(
                    windows,
                    seq![WindowEvent::PreferScaleTransform { scale, transform }],
                )
            } else {
                Seq::empty()
            };
            adjusting + seq![Effect::ConfigureScrolling { config: after.scrolling }] + telling
        }
    }

    /// What a window is told when it comes into the workspace.
    pub open spec fn arrival_events(self) -> Seq<WindowEvent> {
        match self.output {
            Some(output) => seq![
                WindowEvent::PreferScaleTransform { scale: self.scale, transform: self.transform },
                WindowEvent::OutputEnter { output },
            ],
            None => Seq::empty(),
        }
    }

    /// What a window is told when it leaves the workspace.
    pub open spec fn departure_events(self) -> Seq<WindowEvent> {
        match self.output {
            Some(output) => seq![WindowEvent::OutputLeave { output }],
            None => Seq::empty(),
        }
    }

    pub open spec fn is_on(self, output: Option<OutputReport>) -> bool {
        match output {
            Some(report) => self.output == Some(report.handle),
            None => self.output is None,
        }
    }

    /// The state on another output, before its size is looked at. Where the output goes by the
    /// name of the original one, that name is replaced by the output's own.
    pub open spec fn attached_to(self, report: OutputReport, matches_original: bool) -> Self {
        WorkspaceState {
            output: Some(report.handle),
            original_output: if matches_original {
                report.name
            } else {
                self.original_output
            },
            ..self
        }
    }

    /// The state after the workspace has been put on an output or, with `None`, taken off it.
    pub open spec fn with_output(
        self,
        output: Option<OutputReport>,
        matches_original: bool,
    ) -> Self {
        if self.is_on(output) {
            self
        } else {
            match output {
                Some(report) => self.attached_to(report, matches_original).with_view(
                    report.scale,
                    report.transform,
                    report.size,
                    report.working_area,
                ),
                None => WorkspaceState { output: None, ..self },
            }
        }
    }

    /// What goes with [`Self::with_output`]: the windows leave the old output, the view changes,
    /// and the windows enter the new output.
    pub open spec fn output_effects(
        self,
        output: Option<OutputReport>,
        matches_original: bool,
        windows: Seq<WindowId>,
    ) -> Seq<Effect> {
        if self.is_on(output) {
            Seq::empty()
        } else {
            let leaving = crate::effects::each_told(windows, self.departure_events());
            match output {
                Some(report) => leaving + self.attached_to(report, matches_original).view_effects(
                    report.scale,
                    report.transform,
                    report.size,
                    report.working_area,
                    windows,
                ) + crate::effects::each_told(
                    windows,
                    self.with_output(output, matches_original).arrival_events(),
                ),
                None => leaving,
            }
        }
    }
}

} // verus!
