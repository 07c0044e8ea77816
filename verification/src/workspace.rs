//! Workspaces.

use vstd::prelude::*;

use crate::binary64::Binary64;
use crate::effects::{tell_each, Effect, WindowEvent};
use crate::geometry::{Point, Rectangle, Scale, ScaleKind, Size, Transform};
use crate::ids::{ClockHandle, IdCounter, OptionsHandle, OutputHandle, WindowId, WorkspaceId};
use crate::output::{OutputId, OutputState};
use crate::scrolling::{AdjustedOptions, ScrollingConfig};
use crate::state::{WorkspaceState, BITS_OF_1, BITS_OF_1280, BITS_OF_720};

verus! {

/// A workspace as the configuration declares it.
#[derive(Debug)]
pub struct WorkspaceConfig {
    pub name: String,
    pub open_on_output: Option<String>,
}

#[derive(Debug)]
pub struct Workspace {
    /// What the scrollable-tiling layout was last configured with.
    scrolling: ScrollingConfig,
    /// The original output of this workspace.
    ///
    /// Most of the time this will be the workspace's current output, however, after an output
    /// disconnection, it may remain pointing to the disconnected output.
    original_output: OutputId,
    /// Current output of this workspace.
    output: Option<OutputHandle>,
    /// Latest known output scale for this workspace.
    ///
    /// This should be set from the current workspace output, or, if all outputs have been
    /// disconnected, preserved until a new output is connected.
    scale: Scale,
    /// Latest known output transform for this workspace, set and preserved like the scale.
    transform: Transform,
    /// Latest known view size for this workspace, set and preserved like the scale.
    view_size: Size,
    /// Latest known working area for this workspace.
    ///
    /// Not rounded to physical pixels.
    ///
    /// This is similar to view size, but takes into account things like layer shell exclusive
    /// zones.
    working_area: Rectangle,
    /// Clock for driving animations.
    clock: ClockHandle,
    /// Configurable properties of the layout as received from the parent monitor.
    base_options: OptionsHandle,
    /// Configurable properties of the layout with logical sizes adjusted for the current `scale`.
    options: AdjustedOptions,
    /// Optional name of this workspace.
    name: Option<String>,
    /// Unique ID of this workspace.
    id: WorkspaceId,
}

impl View for Workspace {
    type V = WorkspaceState;

    closed spec fn view(&self) -> WorkspaceState {
        WorkspaceState {
            scrolling: self.scrolling,
            original_output: self.original_output@,
            output: self.output,
            scale: self.scale,
            transform: self.transform,
            view_size: self.view_size,
            working_area: self.working_area,
            clock: self.clock,
            base_options: self.base_options,
            options: self.options,
            name: match self.name {
                Some(name) => Some(name@),
                None => None,
            },
            id: self.id@,
        }
    }
}

impl Workspace {
    pub fn new(
        output: OutputState,
        clock: ClockHandle,
        options: OptionsHandle,
        ids: &mut IdCounter,
    ) -> (r: Self)
        ensures
            r@ == WorkspaceState::on_output(output@, None, clock, options, old(ids)@),
            final(ids)@ == crate::ids::nth_id(old(ids)@, 1),
            r@.wf(),
    {
        Self::new_with_config(output, None, clock, options, ids)
    }

    pub fn new_with_config(
        output: OutputState,
        config: Option<WorkspaceConfig>,
        clock: ClockHandle,
        base_options: OptionsHandle,
        ids: &mut IdCounter,
    ) -> (r: Self)
        ensures
            r@ == WorkspaceState::on_output(output@, config, clock, base_options, old(ids)@),
            final(ids)@ == crate::ids::nth_id(old(ids)@, 1),
            r@.wf(),
    {
        let (name, open_on_output) = match config {
            Some(config) => (Some(config.name), config.open_on_output),
            None => (None, None),
        };
        let original_output = match open_on_output {
            Some(output) => OutputId::from_name(output),
            None => OutputId::new(&output),
        };
        let options = AdjustedOptions { base: base_options, scale: output.scale.fractional };
        Self {
            scrolling: ScrollingConfig {
                view_size: output.size,
                working_area: output.working_area,
                scale: output.scale.fractional,
                clock,
                options,
            },
            original_output,
            output: Some(output.handle),
            scale: output.scale,
            transform: output.transform,
            view_size: output.size,
            working_area: output.working_area,
            clock,
            base_options,
            options,
            name,
            id: WorkspaceId::next(ids),
        }
    }

    pub fn new_with_config_no_outputs(
        config: Option<WorkspaceConfig>,
        clock: ClockHandle,
        base_options: OptionsHandle,
        ids: &mut IdCounter,
    ) -> (r: Self)
        ensures
            r@ == WorkspaceState::without_output(config, clock, base_options, old(ids)@),
            final(ids)@ == crate::ids::nth_id(old(ids)@, 1),
            r@.wf(),
    {
        let (name, open_on_output) = match config {
            Some(config) => (Some(config.name), config.open_on_output),
            None => (None, None),
        };
        let original_output = match open_on_output {
            Some(output) => OutputId::from_name(output),
            None => OutputId::from_name(String::new()),
        };

        let scale = Scale {
            kind: ScaleKind::Integer,
            integer: 1,
            fractional: Binary64 { bits: BITS_OF_1 },
        };
        let options = AdjustedOptions { base: base_options, scale: scale.fractional };
        let view_size = Size {
            w: Binary64 { bits: BITS_OF_1280 },
            h: Binary64 { bits: BITS_OF_720 },
        };
        let working_area = Rectangle { loc: Point::origin(), size: view_size };

        Self {
            scrolling: ScrollingConfig {
                view_size,
                working_area,
                scale: scale.fractional,
                clock,
                options,
            },
            original_output,
            output: None,
            scale,
            transform: Transform::Normal,
            view_size,
            working_area,
            clock,
            base_options,
            options,
            name,
            id: WorkspaceId::next(ids),
        }
    }

    pub fn new_no_outputs(
        clock: ClockHandle,
        options: OptionsHandle,
        ids: &mut IdCounter,
    ) -> (r: Self)
        ensures
            r@ == WorkspaceState::without_output(None, clock, options, old(ids)@),
            final(ids)@ == crate::ids::nth_id(old(ids)@, 1),
            r@.wf(),
    {
        Self::new_with_config_no_outputs(None, clock, options, ids)
    }

    pub fn id(&self) -> (r: WorkspaceId)
        ensures
            r@ == self@.id,
    {
        self.id
    }

    pub fn name(&self) -> (r: Option<&String>)
        ensures
            r is Some <==> self@.name is Some,
            r matches Some(name) ==> self@.name == Some(name@),
    {
        self.name.as_ref()
    }

    pub fn unname(&mut self)
        ensures
            final(self)@ == (WorkspaceState { name: None, ..old(self)@ }),
            old(self)@.wf() ==> final(self)@.wf(),
    {
        self.name = None;
    }

    pub fn has_windows_or_name(&self, windows: &[WindowId]) -> (r: bool)
        ensures
            r <==> windows@.len() > 0 || self@.name is Some,
    {
        Self::has_windows(windows) || self.name.is_some()
    }

    pub fn scale(&self) -> (r: Scale)
        ensures
            r == self@.scale,
    {
        self.scale
    }

    pub fn transform(&self) -> (r: Transform)
        ensures
            r == self@.transform,
    {
        self.transform
    }

    pub(crate) fn clock(&self) -> (r: ClockHandle)
        ensures
            r == self@.clock,
    {
        self.clock
    }

    pub(crate) fn options(&self) -> (r: AdjustedOptions)
        ensures
            r == self@.options,
    {
        self.options
    }

    pub fn view_size(&self) -> (r: Size)
        ensures
            r == self@.view_size,
    {
        self.view_size
    }

    pub fn current_output(&self) -> (r: Option<OutputHandle>)
        ensures
            r == self@.output,
    {
        self.output
    }

    pub fn original_output(&self) -> (r: &OutputId)
        ensures
            r@ == self@.original_output,
    {
        &self.original_output
    }

    /// What the scrolling layer was last configured with.
    pub fn scrolling(&self) -> (r: ScrollingConfig)
        ensures
            r == self@.scrolling,
    {
        self.scrolling
    }

    /// Whether there are any windows, given the windows in tile order.
    pub fn has_windows(windows: &[WindowId]) -> (r: bool)
        ensures
            r <==> windows@.len() > 0,
    {
        windows.len() > 0
    }

    /// Puts the workspace on an output or, with `None`, takes it off the one it is on, and
    /// returns what has to be told.
    ///
    /// `matches_original` says whether the output goes by the name of the workspace's original
    /// output, and `windows` lists the windows in tile order.
    pub fn set_output(
        &mut self,
        output: Option<OutputState>,
        matches_original: bool,
        windows: &[WindowId],
    ) -> (effects: Vec<Effect>)
        ensures
            final(self)@ == old(self)@.with_output(OutputState::report(output), matches_original),
            effects@ == old(self)@.output_effects(
                OutputState::report(output),
                matches_original,
                windows@,
            ),
            old(self)@.wf() ==> final(self)@.wf(),
    {
        let mut effects: Vec<Effect> = Vec::new();
        let handle = match &output {
            Some(state) => Some(state.handle),
            None => None,
        };
        if self.output == handle {
            return effects;
        }

        let leaving = self.leave_output_for_window();
        tell_each(&mut effects, windows, leaving.as_slice());

        self.output = handle;

        if let Some(state) = &output {
            // Normalize original output: possibly replace connector with make/model/serial.
            if matches_original {
                self.original_output = OutputId::new(state);
            }

            let mut resizing = self.update_output_size(state, windows);
            effects.append(&mut resizing);

            let entering = self.enter_output_for_window();
            tell_each(&mut effects, windows, entering.as_slice());
        }
        effects
    }

    /// What a window is told when it comes into the workspace.
    pub fn enter_output_for_window(&self) -> (events: Vec<WindowEvent>)
        ensures
            events@ == self@.arrival_events(),
    {
        let mut events: Vec<WindowEvent> = Vec::new();
        if let Some(output) = self.output {
            events.push(
                WindowEvent::PreferScaleTransform { scale: self.scale, transform: self.transform },
            );
            events.push(WindowEvent::OutputEnter { output });
        }
        events
    }

    /// What a window is told when it leaves the workspace.
    pub(crate) fn leave_output_for_window(&self) -> (events: Vec<WindowEvent>)
        ensures
            events@ == self@.departure_events(),
    {
        let mut events: Vec<WindowEvent> = Vec::new();
        if let Some(output) = self.output {
            events.push(WindowEvent::OutputLeave { output });
        }
        events
    }

    /// Takes over what the current output reports of itself, and returns what has to be told.
    pub fn update_output_size(
        &mut self,
        output: &OutputState,
        windows: &[WindowId],
    ) -> (effects: Vec<Effect>)
        requires
            old(self)@.output == Some(output.handle),
        ensures
            final(self)@ == old(self)@.with_view(
                output.scale,
                output.transform,
                output.size,
                output.working_area,
            ),
            effects@ == old(self)@.view_effects(
                output.scale,
                output.transform,
                output.size,
                output.working_area,
                windows@,
            ),
            old(self)@.wf() ==> final(self)@.wf(),
    {
        self.set_view_size(
            output.scale,
            output.transform,
            output.size,
            output.working_area,
            windows,
        )
    }

    /// Sets the view, and returns what has to be told.
    fn set_view_size(
        &mut self,
        scale: Scale,
        transform: Transform,
        size: Size,
        working_area: Rectangle,
        windows: &[WindowId],
    ) -> (effects: Vec<Effect>)
        ensures
            final(self)@ == old(self)@.with_view(scale, transform, size, working_area),
            effects@ == old(self)@.view_effects(scale, transform, size, working_area, windows@),
            old(self)@.wf() ==> final(self)@.wf(),
    {
        let mut effects: Vec<Effect> = Vec::new();
        let scale_transform_changed = self.transform != transform || !self.scale.equal_to(scale);
        if !scale_transform_changed && self.view_size == size && self.working_area == working_area {
            return effects;
        }
        let fractional_scale_changed = !(self.scale.fractional == scale.fractional);

        self.scale = scale;
        self.transform = transform;
        self.view_size = size;
        self.working_area = working_area;

        if fractional_scale_changed {
            // Options need to be recomputed for the new scale.
            let base_options = self.base_options;
            effects = self.update_config(base_options);
        } else {
            // Pass our existing options as is.
            self.scrolling = self.due_config();
            effects.push(Effect::ConfigureScrolling { config: self.scrolling });
        }

        if scale_transform_changed {
            let events = [WindowEvent::PreferScaleTransform { scale, transform }];
            assert(events@ == seq![WindowEvent::PreferScaleTransform { scale, transform }]);
            tell_each(&mut effects, windows, &events);
        }
        effects
    }

    fn due_config(&self) -> (r: ScrollingConfig)
        ensures
            r == self@.due_config(),
    {
        ScrollingConfig {
            view_size: self.view_size,
            working_area: self.working_area,
            scale: self.scale.fractional,
            clock: self.clock,
            options: self.options,
        }
    }

    /// Takes new base options, and returns what has to be told.
    pub fn update_config(&mut self, base_options: OptionsHandle) -> (effects: Vec<Effect>)
        ensures
            final(self)@ == old(self)@.with_base_options(base_options),
            effects@ == seq![
                Effect::AdjustOptions { options: final(self)@.options },
                Effect::ConfigureScrolling { config: final(self)@.scrolling },
            ],
            final(self)@.wf(),
    {
        self.base_options = base_options;
        self.options = AdjustedOptions { base: base_options, scale: self.scale.fractional };
        self.scrolling = self.due_config();

        let mut effects: Vec<Effect> = Vec::new();
        effects.push(Effect::AdjustOptions { options: self.options });
        effects.push(Effect::ConfigureScrolling { config: self.scrolling });
        effects
    }
}

} // verus!
