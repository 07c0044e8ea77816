//! What the shell ends up with when it carries out the effects.

use vstd::prelude::*;

use crate::effects::{Effect, WindowEvent};
use crate::geometry::{Rectangle, Scale, Size, Transform};
use crate::ids::{OptionsHandle, WindowId};
use crate::output::OutputReport;
use crate::scrolling::{AdjustedOptions, ScrollingConfig};
use crate::state::WorkspaceState;

verus! {

/// What the shell holds besides the workspace.
pub ghost struct ShellState {
    /// The options that it adjusted last.
    pub options: AdjustedOptions,
    /// What it configured the scrolling layer with last.
    pub scrolling: ScrollingConfig,
}

impl ShellState {
    /// The shell adjusts options when it is told to, and hands the scrolling layer the options
    /// that it has at that moment.
    pub open spec fn after_effect(self, effect: Effect) -> Self {
        match effect {
            Effect::Window { .. } => self,
            Effect::AdjustOptions { options } => ShellState { options, ..self },
            Effect::ConfigureScrolling { config } => ShellState {
                scrolling: ScrollingConfig { options: self.options, ..config },
                ..self
            },
        }
    }

    pub open spec fn after(self, effects: Seq<Effect>) -> Self
        decreases effects.len(),
    {
        if effects.len() == 0 {
            self
        } else {
            self.after(effects.drop_last()).after_effect(effects.last())
        }
    }

    /// Whether the shell holds the workspace's options, and the scrolling layer has what the
    /// workspace believes it to have.
    pub open spec fn in_step_with(self, workspace: WorkspaceState) -> bool {
        self.options == workspace.options && self.scrolling == workspace.scrolling
    }
}

proof fn lemma_after_concat(shell: ShellState, a: Seq<Effect>, b: Seq<Effect>)
    ensures
        shell.after(a + b) == shell.after(a).after(b),
    decreases b.len(),
{
    if b.len() == 0 {
        assert(a + b == a);
    } else {
        assert((a + b).drop_last() == a + b.drop_last());
        lemma_after_concat(shell, a, b.drop_last());
    }
}

proof fn lemma_after_one(shell: ShellState, effect: Effect)
    ensures
        shell.after(seq![effect]) == shell.after_effect(effect),
{
    assert(seq![effect].drop_last() == Seq::<Effect>::empty());
    reveal_with_fuel(ShellState::after, 2);
}

proof fn lemma_after_told(shell: ShellState, window: WindowId, events: Seq<WindowEvent>)
    ensures
        shell.after(crate::effects::told(window, events)) == shell,
    decreases events.len(),
{
    if events.len() > 0 {
        let effects = crate::effects::told(window, events);
        assert(effects.drop_last() == crate::effects::told(window, events.drop_last()));
        lemma_after_told(shell, window, events.drop_last());
    }
}

proof fn lemma_after_each_told(
    shell: ShellState,
    windows: Seq<WindowId>,
    events: Seq<WindowEvent>,
)
    ensures
        shell.after(crate::effects::each_told(windows, events)) == shell,
    decreases windows.len(),
{
    if windows.len() > 0 {
        let rest = crate::effects::each_told(windows.drop_last(), events);
        let last = crate::effects::told(windows.last(), events);
        lemma_after_each_told(shell, windows.drop_last(), events);
        lemma_after_concat(shell, rest, last);
        lemma_after_told(shell, windows.last(), events);
    }
}

/// When new options come in, the shell stays in step with the workspace.
pub proof fn law_new_options_keep_shell_in_step(
    workspace: WorkspaceState,
    base_options: OptionsHandle,
    shell: ShellState,
)
    ensures
        ({
            let after = workspace.with_base_options(base_options);
            shell.after(
                seq![
                    Effect::AdjustOptions { options: after.options },
                    Effect::ConfigureScrolling { config: after.scrolling },
                ],
            ).in_step_with(after)
        }),
{
    let after = workspace.with_base_options(base_options);
    let adjust = Effect::AdjustOptions { options: after.options };
    let configure = Effect::ConfigureScrolling { config: after.scrolling };
    assert(seq![adjust, configure] == seq![adjust] + seq![configure]);
    lemma_after_concat(shell, seq![adjust], seq![configure]);
    lemma_after_one(shell, adjust);
    lemma_after_one(shell.after_effect(adjust), configure);
}

/// When the view changes, the shell stays in step with the workspace.
pub proof fn law_view_change_keeps_shell_in_step(
    workspace: WorkspaceState,
    scale: Scale,
    transform: Transform,
    size: Size,
    working_area: Rectangle,
    windows: Seq<WindowId>,
    shell: ShellState,
)
    requires
        shell.in_step_with(workspace),
    ensures
        shell.after(
            workspace.view_effects(scale, transform, size, working_area, windows),
        ).in_step_with(workspace.with_view(scale, transform, size, working_area)),
{
    if !workspace.is_laid_out_for(scale, transform, size, working_area) {
        let after = workspace.with_view(scale, transform, size, working_area);
        let adjust = Effect::AdjustOptions { options: after.options };
        let configure = Effect::ConfigureScrolling { config: after.scrolling };
        let adjusting = if workspace.scale.fractional.equals(scale.fractional) {
            Seq::empty()
        } else {
            seq![adjust]
        };
        let events = seq![WindowEvent::PreferScaleTransform { scale, transform }];
        let telling = if workspace.scale_transform_differs(scale, transform) {
            crate::effects::each_told(windows, events)
        } else {
            Seq::empty()
        };
        assert(workspace.view_effects(scale, transform, size, working_area, windows) == adjusting
            + seq![configure] + telling);
        lemma_after_one(shell, adjust);
        let adjusted = shell.after(adjusting);
        assert(adjusted.options == after.options);
        lemma_after_concat(shell, adjusting, seq![configure]);
        lemma_after_one(adjusted, configure);
        lemma_after_concat(shell, adjusting + seq![configure], telling);
        lemma_after_each_told(adjusted.after_effect(configure), windows, events);
    }
}

/// When the output changes, the shell stays in step with the workspace.
pub proof fn law_set_output_keeps_shell_in_step(
    workspace: WorkspaceState,
    output: Option<OutputReport>,
    matches_original: bool,
    windows: Seq<WindowId>,
    shell: ShellState,
)
    requires
        shell.in_step_with(workspace),
    ensures
        shell.after(
            workspace.output_effects(output, matches_original, windows),
        ).in_step_with(workspace.with_output(output, matches_original)),
{
    if !workspace.is_on(output) {
        let leaving = crate::effects::each_told(windows, workspace.departure_events());
        lemma_after_each_told(shell, windows, workspace.departure_events());
        if let Some(report) = output {
            let attached = workspace.attached_to(report, matches_original);
            let resizing = attached.view_effects(
                report.scale,
                report.transform,
                report.size,
                report.working_area,
                windows,
            );
            let after = workspace.with_output(output, matches_original);
            let entering = crate::effects::each_told(windows, after.arrival_events());
            law_view_change_keeps_shell_in_step(
                attached,
                report.scale,
                report.transform,
                report.size,
                report.working_area,
                windows,
                shell,
            );
            lemma_after_concat(shell, leaving, resizing);
            lemma_after_concat(shell, leaving + resizing, entering);
            lemma_after_each_told(shell.after(resizing), windows, after.arrival_events());
        }
    }
}

/// A shell that is in step with a workspace has given the scrolling layer the workspace's own
/// view size, working area, scale, clock and options.
pub proof fn law_scrolling_layer_has_what_it_is_due(workspace: WorkspaceState, shell: ShellState)
    requires
        workspace.wf(),
        shell.in_step_with(workspace),
    ensures
        shell.scrolling == workspace.due_config(),
        shell.scrolling.options == shell.options,
        shell.options.base == workspace.base_options,
{
}

} // verus!
