//! What a view or an output makes of a workspace, number by number and effect by effect.

use vstd::prelude::*;

use crate::effects::{Effect, WindowEvent};
use crate::geometry::{Rectangle, Scale, Size, Transform};
use crate::ids::{OptionsHandle, OutputHandle, WindowId};
use crate::output::OutputState;
use crate::scrolling::{AdjustedOptions, ScrollingConfig};
use crate::state::WorkspaceState;

verus! {

/// The scrolling layer has the workspace's own numbers, clock and options, and the options are the
/// base options adjusted for the workspace's scale factor.
pub open spec fn is_synced(workspace: WorkspaceState) -> bool {
    &&& workspace.scrolling.view_size == workspace.view_size
    &&& workspace.scrolling.working_area == workspace.working_area
    &&& workspace.scrolling.scale == workspace.scale.fractional
    &&& workspace.scrolling.clock == workspace.clock
    &&& workspace.scrolling.options == workspace.options
    &&& workspace.options.base == workspace.base_options
    &&& workspace.options.scale.is_same_as(workspace.scale.fractional)
}

/// The workspace is laid out for these numbers, and so is its scrolling layer.
pub open spec fn follows(
    workspace: WorkspaceState,
    scale: Scale,
    transform: Transform,
    size: Size,
    working_area: Rectangle,
) -> bool {
    &&& workspace.transform == transform
    &&& workspace.scale.integer == scale.integer
    &&& workspace.scale.fractional.is_same_as(scale.fractional)
    &&& workspace.view_size.w.is_same_as(size.w)
    &&& workspace.view_size.h.is_same_as(size.h)
    &&& workspace.working_area.loc.x.is_same_as(working_area.loc.x)
    &&& workspace.working_area.loc.y.is_same_as(working_area.loc.y)
    &&& workspace.working_area.size.w.is_same_as(working_area.size.w)
    &&& workspace.working_area.size.h.is_same_as(working_area.size.h)
    &&& workspace.scrolling.scale.is_same_as(scale.fractional)
    &&& workspace.scrolling.view_size.w.is_same_as(size.w)
    &&& workspace.scrolling.view_size.h.is_same_as(size.h)
    &&& workspace.scrolling.working_area.loc.x.is_same_as(working_area.loc.x)
    &&& workspace.scrolling.working_area.loc.y.is_same_as(working_area.loc.y)
    &&& workspace.scrolling.working_area.size.w.is_same_as(working_area.size.w)
    &&& workspace.scrolling.working_area.size.h.is_same_as(working_area.size.h)
    &&& workspace.scrolling.options.scale.is_same_as(scale.fractional)
}

/// Whether two rectangles have the same four numbers.
pub open spec fn equal_areas(a: Rectangle, b: Rectangle) -> bool {
    &&& a.loc.x.has_same_value_as(b.loc.x)
    &&& a.loc.y.has_same_value_as(b.loc.y)
    &&& a.size.w.has_same_value_as(b.size.w)
    &&& a.size.h.has_same_value_as(b.size.h)
}

/// The invariant of a workspace says that it is synced.
pub proof fn law_invariant_means_synced(workspace: WorkspaceState)
    ensures
        workspace.wf() <==> is_synced(workspace),
{
}

/// However a workspace was laid out before, after a view has come in the workspace and its
/// scrolling layer have every number of that view, and nothing but the view has changed.
pub proof fn law_view_is_taken_over(
    workspace: WorkspaceState,
    scale: Scale,
    transform: Transform,
    size: Size,
    working_area: Rectangle,
)
    requires
        is_synced(workspace),
    ensures
        ({
            let after = workspace.with_view(scale, transform, size, working_area);
            &&& follows(after, scale, transform, size, working_area)
            &&& is_synced(after)
            &&& after.id == workspace.id
            &&& after.name == workspace.name
            &&& after.clock == workspace.clock
            &&& after.output == workspace.output
            &&& after.original_output == workspace.original_output
            &&& after.base_options == workspace.base_options
            // Options are left alone while the factor they were adjusted for is the same.
            &&& workspace.scale.fractional.has_same_value_as(scale.fractional) ==> after.options
                == workspace.options
        }),
{
}

/// A view that differs in any number, or in the integer scale or the transform, is followed by one
/// configuration of the scrolling layer with exactly the view's numbers. Before it the options are
/// adjusted where the scale factor differs. After it the windows, in tile order, are told the
/// scale and the transform, where one of these differs. A view that differs in nothing is followed
/// by nothing.
pub proof fn law_view_effects_in_order(
    workspace: WorkspaceState,
    scale: Scale,
    transform: Transform,
    size: Size,
    working_area: Rectangle,
    windows: Seq<WindowId>,
    i: int,
)
    ensures
        ({
            let effects = workspace.view_effects(scale, transform, size, working_area, windows);
            let after = workspace.with_view(scale, transform, size, working_area);
            let factor_differs = !workspace.scale.fractional.has_same_value_as(scale.fractional);
            let windows_care = factor_differs || workspace.scale.integer != scale.integer
                || workspace.transform != transform;
            let differs = windows_care || !workspace.view_size.w.has_same_value_as(size.w)
                || !workspace.view_size.h.has_same_value_as(size.h) || !equal_areas(
                workspace.working_area,
                working_area,
            );
            let options = if factor_differs {
                AdjustedOptions { base: workspace.base_options, scale: scale.fractional }
            } else {
                workspace.options
            };
            let config = ScrollingConfig {
                view_size: size,
                working_area,
                scale: scale.fractional,
                clock: workspace.clock,
                options,
            };
            let at = if factor_differs {
                1int
            } else {
                0int
            };
            &&& !differs ==> effects.len() == 0 && after == workspace
            &&& differs ==> {
                &&& after == (WorkspaceState {
                    scale,
                    transform,
                    view_size: size,
                    working_area,
                    options,
                    scrolling: config,
                    ..workspace
                })
                &&& effects.len() == at + 1 + if windows_care {
                    windows.len()
                } else {
                    0
                }
                &&& factor_differs ==> effects[0] == (Effect::AdjustOptions { options })
                &&& effects[at] == (Effect::ConfigureScrolling { config })
                &&& windows_care && 0 <= i < windows.len() ==> effects[at + 1 + i]
                    == (Effect::Window {
                    window: windows[i],
                    event: WindowEvent::PreferScaleTransform { scale, transform },
                })
            }
        }),
{
    crate::laws::numbers::law_shapes_go_by_their_numbers(
        (working_area.loc, working_area.loc),
        (workspace.view_size, size),
        (workspace.working_area, working_area),
        (workspace.scale, scale),
    );
    crate::laws::numbers::law_numbers_go_by_their_bits(
        workspace.scale.fractional,
        scale.fractional,
    );
    lemma_each_told_one(windows, seq![WindowEvent::PreferScaleTransform { scale, transform }]);
}

/// New options are adjusted for the scale factor that the workspace has, the scrolling layer gets
/// them, and nothing else changes.
pub proof fn law_options_are_taken_over(workspace: WorkspaceState, base_options: OptionsHandle)
    ensures
        ({
            let after = workspace.with_base_options(base_options);
            let options = AdjustedOptions { base: base_options, scale: workspace.scale.fractional };
            after == (WorkspaceState {
                base_options,
                options,
                scrolling: ScrollingConfig {
                    view_size: workspace.view_size,
                    working_area: workspace.working_area,
                    scale: workspace.scale.fractional,
                    clock: workspace.clock,
                    options,
                },
                ..workspace
            })
        }),
{
}

/// However a workspace was laid out before, once it has been put on an output that it was not on,
/// the workspace and its scrolling layer have every number that the output reports. The original
/// output gets the output's name exactly where the output goes by the original's name, and nothing
/// else changes.
pub proof fn law_output_is_taken_over(
    workspace: WorkspaceState,
    output: OutputState,
    matches_original: bool,
)
    requires
        is_synced(workspace),
        workspace.output != Some(output.handle),
    ensures
        ({
            let after = workspace.with_output(
                OutputState::report(Some(output)),
                matches_original,
            );
            &&& after.output == Some(output.handle)
            &&& follows(
                after,
                output.scale,
                output.transform,
                output.size,
                output.working_area,
            )
            &&& is_synced(after)
            &&& matches_original ==> after.original_output == output.name@
            &&& !matches_original ==> after.original_output == workspace.original_output
            &&& after.id == workspace.id
            &&& after.name == workspace.name
            &&& after.clock == workspace.clock
            &&& after.base_options == workspace.base_options
            &&& workspace.scale.fractional.has_same_value_as(output.scale.fractional)
                ==> after.options == workspace.options
        }),
{
}

/// The numbers that a workspace gets from an output do not depend on the output's identity or
/// name, nor on where the workspace was: they are the ones that the same report gives to a
/// workspace that stays on its output.
pub proof fn law_output_view_is_that_of_a_resize(
    workspace: WorkspaceState,
    output: OutputState,
    matches_original: bool,
)
    requires
        workspace.output != Some(output.handle),
    ensures
        ({
            let moved = workspace.with_output(OutputState::report(Some(output)), matches_original);
            let resized = workspace.with_view(
                output.scale,
                output.transform,
                output.size,
                output.working_area,
            );
            moved == (WorkspaceState {
                output: Some(output.handle),
                original_output: if matches_original {
                    output.name@
                } else {
                    workspace.original_output
                },
                ..resized
            })
        }),
{
}

/// On the way to an output the windows, in tile order, first leave the output that the workspace
/// was on, if any. Then comes what the new output's view brings with it. Last the windows, in tile
/// order, are each told the scale and the transform and enter the new output. A workspace that is
/// already there, or already off, does nothing.
pub proof fn law_output_effects_in_order(
    workspace: WorkspaceState,
    output: Option<OutputState>,
    matches_original: bool,
    windows: Seq<WindowId>,
    i: int,
)
    ensures
        ({
            let effects = workspace.output_effects(
                OutputState::report(output),
                matches_original,
                windows,
            );
            let after = workspace.with_output(OutputState::report(output), matches_original);
            let target = match output {
                Some(state) => Some(state.handle),
                None => None::<OutputHandle>,
            };
            let count = windows.len() as int;
            let left = if workspace.output is Some {
                count
            } else {
                0
            };
            &&& after.output == target
            &&& target == workspace.output ==> effects.len() == 0 && after == workspace
            &&& target != workspace.output ==> {
                &&& workspace.output is Some && 0 <= i < count ==> effects[i] == (Effect::Window {
                    window: windows[i],
                    event: WindowEvent::OutputLeave { output: workspace.output->0 },
                })
                &&& output is None ==> effects.len() == left && after == (WorkspaceState {
                    output: None,
                    ..workspace
                })
                &&& output matches Some(state) ==> {
                    let resizing = workspace.view_effects(
                        state.scale,
                        state.transform,
                        state.size,
                        state.working_area,
                        windows,
                    );
                    let entered = left + resizing.len();
                    &&& effects.len() == entered + 2 * count
                    &&& effects.subrange(left, entered) == resizing
                    &&& 0 <= i < count ==> {
                        &&& effects[entered + 2 * i] == (Effect::Window {
                            window: windows[i],
                            event: WindowEvent::PreferScaleTransform {
                                scale: after.scale,
                                transform: state.transform,
                            },
                        })
                        &&& effects[entered + 2 * i + 1] == (Effect::Window {
                            window: windows[i],
                            event: WindowEvent::OutputEnter { output: state.handle },
                        })
                    }
                }
            }
        }),
{
    let report = OutputState::report(output);
    let effects = workspace.output_effects(report, matches_original, windows);
    let after = workspace.with_output(report, matches_original);
    let leaving = crate::effects::each_told(windows, workspace.departure_events());
    if !workspace.is_on(report) {
        if workspace.output is Some {
            lemma_each_told_one(windows, workspace.departure_events());
        } else {
            lemma_each_told_none(windows, workspace.departure_events());
        }
        if let Some(state) = output {
            let resizing = workspace.view_effects(
                state.scale,
                state.transform,
                state.size,
                state.working_area,
                windows,
            );
            let entering = crate::effects::each_told(windows, after.arrival_events());
            lemma_each_told_two(windows, after.arrival_events());
            assert(effects == leaving + resizing + entering);
            assert(effects.subrange(
                leaving.len() as int,
                (leaving.len() + resizing.len()) as int,
            ) == resizing);
            let entered = leaving.len() + resizing.len();
            if 0 <= i < windows.len() {
                assert(effects[entered + 2 * i] == entering[2 * i]);
                assert(effects[entered + 2 * i + 1] == entering[2 * i + 1]);
            }
        }
    }
}

/// A window that comes in is told the scale and the transform of the workspace and then enters its
/// output; one that goes out leaves that output. Without an output neither is told anything.
pub proof fn law_window_events_in_order(workspace: WorkspaceState)
    ensures
        workspace.output is None ==> workspace.arrival_events().len() == 0
            && workspace.departure_events().len() == 0,
        workspace.output matches Some(output) ==> {
            let arrival = workspace.arrival_events();
            let departure = workspace.departure_events();
            &&& arrival.len() == 2
            &&& arrival[0] == (WindowEvent::PreferScaleTransform {
                scale: workspace.scale,
                transform: workspace.transform,
            })
            &&& arrival[1] == (WindowEvent::OutputEnter { output })
            &&& departure.len() == 1
            &&& departure[0] == (WindowEvent::OutputLeave { output })
        },
{
}

/// A window is told each event once and in order. Of several windows, the first one is told all of
/// the events, then the second one, and so on.
pub proof fn law_windows_are_told_in_order(
    windows: Seq<WindowId>,
    events: Seq<WindowEvent>,
    window: WindowId,
    i: int,
    j: int,
)
    ensures
        crate::effects::told(window, events).len() == events.len(),
        0 <= j < events.len() ==> crate::effects::told(window, events)[j] == (Effect::Window {
            window,
            event: events[j],
        }),
        crate::effects::each_told(windows, events).len() == windows.len() * events.len(),
        0 <= i < windows.len() && 0 <= j < events.len() ==> crate::effects::each_told(
            windows,
            events,
        )[i * events.len() + j] == (Effect::Window { window: windows[i], event: events[j] }),
{
    lemma_each_told(windows, events);
}

proof fn lemma_each_told(windows: Seq<WindowId>, events: Seq<WindowEvent>)
    ensures
        crate::effects::each_told(windows, events).len() == windows.len() * events.len(),
        forall|i: int, j: int|
            0 <= i < windows.len() && 0 <= j < events.len() ==> crate::effects::each_told(
                windows,
                events,
            )[i * events.len() + j] == (Effect::Window { window: #[trigger] windows[i], event:
                #[trigger] events[j] }),
    decreases windows.len(),
{
    let n = windows.len() as int;
    let m = events.len() as int;
    if n == 0 {
        assert(0 * m == 0) by (nonlinear_arith);
    } else {
        let rest = crate::effects::each_told(windows.drop_last(), events);
        let last = crate::effects::told(windows.last(), events);
        lemma_each_told(windows.drop_last(), events);
        assert((n - 1) * m + m == n * m) by (nonlinear_arith);
        assert forall|i: int, j: int| 0 <= i < n && 0 <= j < m implies crate::effects::each_told(
            windows,
            events,
        )[i * m + j] == (Effect::Window { window: #[trigger] windows[i], event: #[trigger] events[j]
        }) by {
            if i < n - 1 {
                assert(0 <= i * m + j < (n - 1) * m) by (nonlinear_arith)
                    requires
                        0 <= i < n - 1,
                        0 <= j < m,
                ;
                assert(windows.drop_last()[i] == windows[i]);
                assert((rest + last)[i * m + j] == rest[i * m + j]);
            } else {
                assert((rest + last)[(n - 1) * m + j] == last[j]);
            }
        }
    }
}

proof fn lemma_each_told_none(windows: Seq<WindowId>, events: Seq<WindowEvent>)
    requires
        events.len() == 0,
    ensures
        crate::effects::each_told(windows, events).len() == 0,
{
    lemma_each_told(windows, events);
    assert(windows.len() * 0 == 0) by (nonlinear_arith);
}

proof fn lemma_each_told_one(windows: Seq<WindowId>, events: Seq<WindowEvent>)
    requires
        events.len() == 1,
    ensures
        crate::effects::each_told(windows, events).len() == windows.len(),
        forall|i: int|
            0 <= i < windows.len() ==> #[trigger] crate::effects::each_told(windows, events)[i]
                == (Effect::Window { window: windows[i], event: events[0] }),
{
    let effects = crate::effects::each_told(windows, events);
    lemma_each_told(windows, events);
    assert(windows.len() * 1 == windows.len()) by (nonlinear_arith);
    assert forall|i: int| 0 <= i < windows.len() implies #[trigger] effects[i] == (Effect::Window {
        window: windows[i],
        event: events[0],
    }) by {
        assert(effects[i * events.len() + 0] == (Effect::Window {
            window: windows[i],
            event: events[0],
        }));
    }
}

proof fn lemma_each_told_two(windows: Seq<WindowId>, events: Seq<WindowEvent>)
    requires
        events.len() == 2,
    ensures
        crate::effects::each_told(windows, events).len() == 2 * windows.len(),
        forall|i: int|
            0 <= i < windows.len() ==> #[trigger] crate::effects::each_told(windows, events)[2 * i]
                == (Effect::Window { window: windows[i], event: events[0] }),
        forall|i: int|
            0 <= i < windows.len() ==> #[trigger] crate::effects::each_told(windows, events)[2 * i
                + 1] == (Effect::Window { window: windows[i], event: events[1] }),
{
    let effects = crate::effects::each_told(windows, events);
    lemma_each_told(windows, events);
    assert(windows.len() * 2 == 2 * windows.len()) by (nonlinear_arith);
    assert forall|i: int| 0 <= i < windows.len() implies #[trigger] effects[2 * i]
        == (Effect::Window { window: windows[i], event: events[0] }) by {
        assert(effects[i * events.len() + 0] == (Effect::Window {
            window: windows[i],
            event: events[0],
        }));
    }
    assert forall|i: int| 0 <= i < windows.len() implies #[trigger] effects[2 * i + 1]
        == (Effect::Window { window: windows[i], event: events[1] }) by {
        assert(effects[i * events.len() + 1] == (Effect::Window {
            window: windows[i],
            event: events[1],
        }));
    }
}

} // verus!
