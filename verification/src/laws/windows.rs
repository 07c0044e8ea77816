//! What windows are told, over time.

use vstd::prelude::*;

use crate::effects::{Effect, WindowEvent};
use crate::geometry::{Rectangle, Scale, Size, Transform};
use crate::ids::{OutputHandle, WindowId};
use crate::output::OutputReport;
use crate::state::WorkspaceState;

verus! {

/// What a window has been told so far.
#[verifier::ext_equal]
pub ghost struct WindowState {
    /// The outputs that it has entered and not left.
    pub outputs: Set<OutputHandle>,
    /// The scale and transform it was last told to prefer.
    pub preferred: Option<(Scale, Transform)>,
}

impl WindowState {
    pub open spec fn after_event(self, event: WindowEvent) -> Self {
        match event {
            WindowEvent::OutputEnter { output } => WindowState {
                outputs: self.outputs.insert(output),
                ..self
            },
            WindowEvent::OutputLeave { output } => WindowState {
                outputs: self.outputs.remove(output),
                ..self
            },
            WindowEvent::PreferScaleTransform { scale, transform } => WindowState {
                preferred: Some((scale, transform)),
                ..self
            },
        }
    }

    pub open spec fn after_events(self, events: Seq<WindowEvent>) -> Self
        decreases events.len(),
    {
        if events.len() == 0 {
            self
        } else {
            self.after_events(events.drop_last()).after_event(events.last())
        }
    }

    /// What the window has been told once the effects have been carried out.
    pub open spec fn after(self, window: WindowId, effects: Seq<Effect>) -> Self
        decreases effects.len(),
    {
        if effects.len() == 0 {
            self
        } else {
            let before = self.after(window, effects.drop_last());
            match effects.last() {
                Effect::Window { window: told, event } if told == window => before.after_event(
                    event,
                ),
                _ => before,
            }
        }
    }

    /// Whether the window is in step with the workspace it is in: it is on the workspace's output
    /// and no other, and while there is an output it knows the workspace's scale and transform.
    pub open spec fn in_step_with(self, workspace: WorkspaceState) -> bool {
        match workspace.output {
            Some(output) => {
                &&& self.outputs =~= set![output]
                &&& self.preferred matches Some((scale, transform)) && scale.agrees_with(
                    workspace.scale,
                ) && transform == workspace.transform
            },
            None => self.outputs =~= Set::<OutputHandle>::empty(),
        }
    }
}

proof fn lemma_after_concat(state: WindowState, window: WindowId, a: Seq<Effect>, b: Seq<Effect>)
    ensures
        state.after(window, a + b) == state.after(window, a).after(window, b),
    decreases b.len(),
{
    if b.len() == 0 {
        assert(a + b == a);
    } else {
        assert((a + b).drop_last() == a + b.drop_last());
        lemma_after_concat(state, window, a, b.drop_last());
    }
}

proof fn lemma_after_told(
    state: WindowState,
    window: WindowId,
    told: WindowId,
    events: Seq<WindowEvent>,
)
    ensures
        state.after(window, crate::effects::told(told, events)) == if told == window {
            state.after_events(events)
        } else {
            state
        },
    decreases events.len(),
{
    let effects = crate::effects::told(told, events);
    if events.len() > 0 {
        assert(effects.drop_last() == crate::effects::told(told, events.drop_last()));
        lemma_after_told(state, window, told, events.drop_last());
    }
}

/// Where telling the events twice is no different from telling them once, a window among those
/// that are told has been told them once, however often it is listed.
proof fn lemma_after_each_told(
    state: WindowState,
    window: WindowId,
    windows: Seq<WindowId>,
    events: Seq<WindowEvent>,
)
    requires
        state.after_events(events).after_events(events) == state.after_events(events),
    ensures
        state.after(window, crate::effects::each_told(windows, events)) == if windows.contains(
            window,
        ) {
            state.after_events(events)
        } else {
            state
        },
    decreases windows.len(),
{
    if windows.len() > 0 {
        let rest = windows.drop_last();
        let last = windows.last();
        lemma_after_each_told(state, window, rest, events);
        let before = state.after(window, crate::effects::each_told(rest, events));
        lemma_after_concat(
            state,
            window,
            crate::effects::each_told(rest, events),
            crate::effects::told(last, events),
        );
        lemma_after_told(before, window, last, events);
        assert(windows == rest.push(last));
        assert(windows.contains(window) <==> rest.contains(window) || last == window) by {
            if rest.contains(window) {
                let i = rest.index_of(window);
                assert(windows[i] == window);
            }
            if last == window {
                assert(windows[windows.len() - 1] == window);
            }
        }
    }
}

proof fn lemma_after_one_event(state: WindowState, event: WindowEvent)
    ensures
        state.after_events(seq![event]) == state.after_event(event),
{
    assert(seq![event].drop_last() == Seq::<WindowEvent>::empty());
    reveal_with_fuel(WindowState::after_events, 2);
}

proof fn lemma_after_two_events(state: WindowState, first: WindowEvent, second: WindowEvent)
    ensures
        state.after_events(seq![first, second]) == state.after_event(first).after_event(second),
{
    assert(seq![first, second].drop_last() == seq![first]);
    lemma_after_one_event(state, first);
}

/// A window that comes into a workspace from nowhere is in step with it.
pub proof fn law_arrival_brings_window_in_step(workspace: WorkspaceState, window: WindowState)
    requires
        window.outputs.is_empty(),
    ensures
        window.after_events(workspace.arrival_events()).in_step_with(workspace),
{
    lemma_arrival(workspace, window);
}

proof fn lemma_arrival(workspace: WorkspaceState, window: WindowState)
    ensures
        workspace.output matches Some(output) ==> {
            &&& window.after_events(workspace.arrival_events()).outputs == window.outputs.insert(
                output,
            )
            &&& window.after_events(workspace.arrival_events()).preferred == Some(
                (workspace.scale, workspace.transform),
            )
        },
        workspace.output is None ==> window.after_events(workspace.arrival_events()) == window,
{
    if let Some(output) = workspace.output {
        lemma_after_two_events(
            window,
            WindowEvent::PreferScaleTransform {
                scale: workspace.scale,
                transform: workspace.transform,
            },
            WindowEvent::OutputEnter { output },
        );
    }
}

proof fn lemma_departure(workspace: WorkspaceState, window: WindowState)
    ensures
        workspace.output matches Some(output) ==> window.after_events(
            workspace.departure_events(),
        ) == (WindowState { outputs: window.outputs.remove(output), ..window }),
        workspace.output is None ==> window.after_events(workspace.departure_events()) == window,
{
    if let Some(output) = workspace.output {
        lemma_after_one_event(window, WindowEvent::OutputLeave { output });
    }
}

/// To tell a window twice that it comes in is no different from telling it once.
proof fn lemma_arrival_twice(workspace: WorkspaceState, window: WindowState)
    ensures
        window.after_events(workspace.arrival_events()).after_events(workspace.arrival_events())
            == window.after_events(workspace.arrival_events()),
{
    let once = window.after_events(workspace.arrival_events());
    lemma_arrival(workspace, window);
    lemma_arrival(workspace, once);
    assert(once.after_events(workspace.arrival_events()) =~= once);
}

/// To tell a window twice that it leaves is no different from telling it once.
proof fn lemma_departure_twice(workspace: WorkspaceState, window: WindowState)
    ensures
        window.after_events(workspace.departure_events()).after_events(
            workspace.departure_events(),
        ) == window.after_events(workspace.departure_events()),
{
    let once = window.after_events(workspace.departure_events());
    lemma_departure(workspace, window);
    lemma_departure(workspace, once);
    assert(once.after_events(workspace.departure_events()) =~= once);
}

/// A window that leaves a workspace is on no output any more.
pub proof fn law_departure_clears_outputs(workspace: WorkspaceState, window: WindowState)
    requires
        window.in_step_with(workspace),
    ensures
        window.after_events(workspace.departure_events()).outputs.is_empty(),
{
    lemma_departure(workspace, window);
}

/// Once a window's tile has been removed from a workspace, the window is on no output any more.
pub proof fn law_removal_clears_outputs(
    workspace: WorkspaceState,
    window: WindowId,
    state: WindowState,
)
    requires
        state.in_step_with(workspace),
    ensures
        state.after(
            window,
            crate::effects::told(window, workspace.departure_events()),
        ).outputs.is_empty(),
{
    lemma_after_told(state, window, window, workspace.departure_events());
    law_departure_clears_outputs(workspace, state);
}

/// Every window of a column that comes into a workspace is in step with it.
pub proof fn law_column_arrival_brings_windows_in_step(
    workspace: WorkspaceState,
    column: Seq<WindowId>,
    window: WindowId,
    state: WindowState,
)
    requires
        column.contains(window),
        state.outputs.is_empty(),
    ensures
        state.after(
            window,
            crate::effects::each_told(column, workspace.arrival_events()),
        ).in_step_with(workspace),
{
    let events = workspace.arrival_events();
    law_arrival_brings_window_in_step(workspace, state);
    lemma_arrival_twice(workspace, state);
    lemma_after_each_told(state, window, column, events);
}

/// Once a column has been removed from a workspace, each of its windows is on no output any more.
pub proof fn law_column_removal_clears_outputs(
    workspace: WorkspaceState,
    column: Seq<WindowId>,
    window: WindowId,
    state: WindowState,
)
    requires
        column.contains(window),
        state.in_step_with(workspace),
    ensures
        state.after(
            window,
            crate::effects::each_told(column, workspace.departure_events()),
        ).outputs.is_empty(),
{
    let events = workspace.departure_events();
    law_departure_clears_outputs(workspace, state);
    lemma_departure_twice(workspace, state);
    lemma_after_each_told(state, window, column, events);
}

/// A window that moves from one workspace to another is in step with the other one.
pub proof fn law_move_keeps_window_in_step(
    from: WorkspaceState,
    to: WorkspaceState,
    window: WindowState,
)
    requires
        window.in_step_with(from),
    ensures
        window.after_events(from.departure_events()).after_events(
            to.arrival_events(),
        ).in_step_with(to),
{
    law_departure_clears_outputs(from, window);
    law_arrival_brings_window_in_step(to, window.after_events(from.departure_events()));
}

proof fn lemma_view_after(
    workspace: WorkspaceState,
    scale: Scale,
    transform: Transform,
    size: Size,
    working_area: Rectangle,
    windows: Seq<WindowId>,
    window: WindowId,
    state: WindowState,
)
    ensures
        state.after(
            window,
            workspace.view_effects(scale, transform, size, working_area, windows),
        ) == if workspace.scale_transform_differs(scale, transform) && windows.contains(window) {
            WindowState { preferred: Some((scale, transform)), ..state }
        } else {
            state
        },
{
    let effects = workspace.view_effects(scale, transform, size, working_area, windows);
    if !workspace.is_laid_out_for(scale, transform, size, working_area) {
        let after = workspace.with_view(scale, transform, size, working_area);
        let adjusting = if workspace.scale.fractional.equals(scale.fractional) {
            Seq::empty()
        } else {
            seq![Effect::AdjustOptions { options: after.options }]
        };
        let configuring = seq![Effect::ConfigureScrolling { config: after.scrolling }];
        let event = WindowEvent::PreferScaleTransform { scale, transform };
        let telling = if workspace.scale_transform_differs(scale, transform) {
            crate::effects::each_told(windows, seq![event])
        } else {
            Seq::empty()
        };
        assert(effects == adjusting + configuring + telling);
        assert(state.after(window, adjusting + configuring) == state) by {
            lemma_after_concat(state, window, adjusting, configuring);
            assert(configuring.drop_last() == Seq::<Effect>::empty());
            reveal_with_fuel(WindowState::after, 2);
            if adjusting.len() > 0 {
                assert(adjusting.drop_last() == Seq::<Effect>::empty());
            }
        }
        lemma_after_concat(state, window, adjusting + configuring, telling);
        if workspace.scale_transform_differs(scale, transform) {
            lemma_after_one_event(state, event);
            lemma_after_one_event(state.after_events(seq![event]), event);
            lemma_after_each_told(state, window, windows, seq![event]);
        }
    }
}

/// When the view changes, every window of the workspace stays in step with it.
pub proof fn law_view_change_keeps_windows_in_step(
    workspace: WorkspaceState,
    scale: Scale,
    transform: Transform,
    size: Size,
    working_area: Rectangle,
    windows: Seq<WindowId>,
    window: WindowId,
    state: WindowState,
)
    requires
        windows.contains(window),
        state.in_step_with(workspace),
    ensures
        state.after(
            window,
            workspace.view_effects(scale, transform, size, working_area, windows),
        ).in_step_with(workspace.with_view(scale, transform, size, working_area)),
{
    lemma_view_after(
        workspace,
        scale,
        transform,
        size,
        working_area,
        windows,
        window,
        state,
    );
}

/// When the workspace is put on another output or taken off its output, every window of the
/// workspace stays in step with it.
pub proof fn law_set_output_keeps_windows_in_step(
    workspace: WorkspaceState,
    output: Option<OutputReport>,
    matches_original: bool,
    windows: Seq<WindowId>,
    window: WindowId,
    state: WindowState,
)
    requires
        windows.contains(window),
        state.in_step_with(workspace),
    ensures
        state.after(
            window,
            workspace.output_effects(output, matches_original, windows),
        ).in_step_with(workspace.with_output(output, matches_original)),
{
    if !workspace.is_on(output) {
        let leaving = crate::effects::each_told(windows, workspace.departure_events());
        lemma_departure(workspace, state);
        lemma_departure_twice(workspace, state);
        lemma_after_each_told(state, window, windows, workspace.departure_events());
        let left = state.after(window, leaving);
        if let Some(report) = output {
            let attached = workspace.attached_to(report, matches_original);
            let resizing = attached.view_effects(
                report.scale,
                report.transform,
                report.size,
                report.working_area,
                windows,
            );
            let after = workspace.with_output(output, matches_original);
            let entering = crate::effects::each_told(windows, after.arrival_events());
            lemma_view_after(
                attached,
                report.scale,
                report.transform,
                report.size,
                report.working_area,
                windows,
                window,
                left,
            );
            let resized = left.after(window, resizing);
            lemma_after_concat(state, window, leaving, resizing);
            lemma_after_concat(state, window, leaving + resizing, entering);
            lemma_arrival(after, resized);
            lemma_arrival_twice(after, resized);
            lemma_after_each_told(resized, window, windows, after.arrival_events());
        }
    }
}

/// Windows of other workspaces hear nothing of a change of output.
pub proof fn law_set_output_leaves_others_alone(
    workspace: WorkspaceState,
    output: Option<OutputReport>,
    matches_original: bool,
    windows: Seq<WindowId>,
    other: WindowId,
    state: WindowState,
)
    requires
        !windows.contains(other),
    ensures
        state.after(other, workspace.output_effects(output, matches_original, windows)) == state,
{
    if !workspace.is_on(output) {
        let leaving = crate::effects::each_told(windows, workspace.departure_events());
        lemma_departure_twice(workspace, state);
        lemma_after_each_told(state, other, windows, workspace.departure_events());
        if let Some(report) = output {
            let attached = workspace.attached_to(report, matches_original);
            let resizing = attached.view_effects(
                report.scale,
                report.transform,
                report.size,
                report.working_area,
                windows,
            );
            let after = workspace.with_output(output, matches_original);
            let entering = crate::effects::each_told(windows, after.arrival_events());
            lemma_view_after(
                attached,
                report.scale,
                report.transform,
                report.size,
                report.working_area,
                windows,
                other,
                state,
            );
            lemma_after_concat(state, other, leaving, resizing);
            lemma_after_concat(state, other, leaving + resizing, entering);
            lemma_arrival_twice(after, state);
            lemma_after_each_told(state, other, windows, after.arrival_events());
        }
    }
}

} // verus!
