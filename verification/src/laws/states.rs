//! How the state of a workspace develops.

use vstd::prelude::*;

use crate::effects::{Effect, WindowEvent};
use crate::geometry::{Rectangle, Scale, Size, Transform};
use crate::ids::{ClockHandle, OptionsHandle, WindowId};
use crate::invariants::{ScrollingReport, TileReport};
use crate::output::OutputReport;
use crate::state::WorkspaceState;
use crate::workspace::WorkspaceConfig;

verus! {

/// Whatever happens to its view and its output, a workspace keeps its invariant.
pub proof fn law_invariant_is_kept(
    workspace: WorkspaceState,
    base_options: OptionsHandle,
    scale: Scale,
    transform: Transform,
    size: Size,
    working_area: Rectangle,
    output: Option<OutputReport>,
    matches_original: bool,
)
    requires
        workspace.wf(),
    ensures
        workspace.with_base_options(base_options).wf(),
        workspace.with_view(scale, transform, size, working_area).wf(),
        workspace.with_output(output, matches_original).wf(),
{
}

/// A new workspace satisfies the invariant.
pub proof fn law_new_workspace_satisfies_invariant(
    report: OutputReport,
    config: Option<WorkspaceConfig>,
    clock: ClockHandle,
    base_options: OptionsHandle,
    id: u64,
)
    ensures
        WorkspaceState::on_output(report, config, clock, base_options, id).wf(),
        WorkspaceState::without_output(config, clock, base_options, id).wf(),
{
}

/// While outputs report positive sizes and positive finite scales, a workspace is laid out for
/// such a size and such a scale, from the start and also while there are no outputs.
pub proof fn law_numbers_stay_usable(
    workspace: WorkspaceState,
    report: OutputReport,
    matches_original: bool,
    config: Option<WorkspaceConfig>,
    clock: ClockHandle,
    base_options: OptionsHandle,
    id: u64,
)
    requires
        report.usable(),
    ensures
        WorkspaceState::on_output(report, config, clock, base_options, id).usable(),
        WorkspaceState::without_output(config, clock, base_options, id).usable(),
        workspace.usable() ==> {
            &&& workspace.with_base_options(base_options).usable()
            &&& workspace.with_view(
                report.scale,
                report.transform,
                report.size,
                report.working_area,
            ).usable()
            &&& workspace.with_output(Some(report), matches_original).usable()
            &&& workspace.with_output(None, matches_original).usable()
        },
{
}

/// A workspace that satisfies its invariant and has usable numbers passes the check of its
/// invariants, as long as the scrolling layer holds what it was handed and the tiles are in order.
pub proof fn law_invariant_passes_check(
    workspace: WorkspaceState,
    scrolling: ScrollingReport,
    tiles: Seq<TileReport>,
    moved: Option<WindowId>,
)
    requires
        workspace.wf(),
        workspace.usable(),
        scrolling.view_size == workspace.scrolling.view_size,
        scrolling.shares_clock && scrolling.shares_options && scrolling.is_valid,
        forall|i: int| 0 <= i < tiles.len() ==> (#[trigger] tiles[i]).in_order(moved),
    ensures
        crate::invariants::in_order(workspace, scrolling, tiles, moved),
{
}

/// To put a workspace where it already is changes nothing and tells nobody anything.
pub proof fn law_set_output_twice_is_once(
    workspace: WorkspaceState,
    output: Option<OutputReport>,
    matches_first: bool,
    matches_second: bool,
    windows: Seq<WindowId>,
)
    ensures
        ({
            let once = workspace.with_output(output, matches_first);
            &&& once.is_on(output)
            &&& once.with_output(output, matches_second) == once
            &&& once.output_effects(output, matches_second, windows) == Seq::<Effect>::empty()
        }),
{
}

/// A view that the workspace is already laid out for changes nothing and tells nobody anything.
pub proof fn law_known_view_is_silent(
    workspace: WorkspaceState,
    scale: Scale,
    transform: Transform,
    size: Size,
    working_area: Rectangle,
    windows: Seq<WindowId>,
)
    requires
        workspace.transform == transform,
        workspace.scale.equals(scale),
        workspace.view_size.equals(size),
        workspace.working_area.equals(working_area),
    ensures
        workspace.with_view(scale, transform, size, working_area) == workspace,
        workspace.view_effects(scale, transform, size, working_area, windows) == Seq::<
            Effect,
        >::empty(),
{
}

/// The state after one view after another.
pub open spec fn after_views(
    workspace: WorkspaceState,
    views: Seq<(Scale, Transform, Size, Rectangle)>,
) -> WorkspaceState
    decreases views.len(),
{
    if views.len() == 0 {
        workspace
    } else {
        let (scale, transform, size, working_area) = views.last();
        after_views(workspace, views.drop_last()).with_view(scale, transform, size, working_area)
    }
}

/// However many views a workspace has been laid out for, its options are the base options
/// adjusted for the last scale, so that roundings for earlier scales never pile up.
pub proof fn law_options_come_from_base_options(
    workspace: WorkspaceState,
    views: Seq<(Scale, Transform, Size, Rectangle)>,
)
    requires
        workspace.wf(),
    ensures
        after_views(workspace, views).wf(),
        after_views(workspace, views).base_options == workspace.base_options,
        after_views(workspace, views).options.base == workspace.base_options,
        views.len() > 0 ==> {
            let last = views.last().0.fractional;
            let adjusted_for = after_views(workspace, views).options.scale;
            adjusted_for.equals(last) || adjusted_for == last
        },
    decreases views.len(),
{
    if views.len() > 0 {
        law_options_come_from_base_options(workspace, views.drop_last());
    }
}

/// None of the numbers of a view is a not-a-number.
pub open spec fn view_is_numeric(scale: Scale, size: Size, working_area: Rectangle) -> bool {
    &&& !scale.fractional.nan()
    &&& !size.w.nan() && !size.h.nan()
    &&& !working_area.loc.x.nan() && !working_area.loc.y.nan()
    &&& !working_area.size.w.nan() && !working_area.size.h.nan()
}

/// To report a view again changes nothing and tells nobody anything.
pub proof fn law_same_view_again_is_silent(
    workspace: WorkspaceState,
    scale: Scale,
    transform: Transform,
    size: Size,
    working_area: Rectangle,
    windows: Seq<WindowId>,
)
    requires
        view_is_numeric(scale, size, working_area),
    ensures
        ({
            let once = workspace.with_view(scale, transform, size, working_area);
            &&& once.with_view(scale, transform, size, working_area) == once
            &&& once.view_effects(scale, transform, size, working_area, windows) == Seq::<
                Effect,
            >::empty()
        }),
{
}

/// When its output goes away a workspace remembers everything else, the original output
/// included, and the windows are told that they have left the output and nothing more.
pub proof fn law_disconnection_preserves_view(
    workspace: WorkspaceState,
    matches_original: bool,
    windows: Seq<WindowId>,
)
    ensures
        workspace.with_output(None, matches_original) == (WorkspaceState {
            output: None,
            ..workspace
        }),
        workspace.output_effects(None, matches_original, windows) == crate::effects::each_told(
            windows,
            workspace.departure_events(),
        ),
{
    if workspace.output is None {
        lemma_no_events(windows);
    }
}

proof fn lemma_no_events(windows: Seq<WindowId>)
    ensures
        crate::effects::each_told(windows, Seq::empty()) == Seq::<Effect>::empty(),
    decreases windows.len(),
{
    if windows.len() > 0 {
        lemma_no_events(windows.drop_last());
    }
}

/// A workspace whose output goes away and comes back as it was is what it was before, and all
/// that happens on the return is that the windows enter the output. Where the output goes by the
/// name of the original one, the original output is named as the output names itself.
pub proof fn law_reconnection_restores_workspace(
    workspace: WorkspaceState,
    report: OutputReport,
    matches_disconnected: bool,
    matches_original: bool,
    windows: Seq<WindowId>,
)
    requires
        workspace.output == Some(report.handle),
        workspace.is_laid_out_for(
            report.scale,
            report.transform,
            report.size,
            report.working_area,
        ),
    ensures
        ({
            let away = workspace.with_output(None, matches_disconnected);
            &&& away.with_output(Some(report), matches_original) == (WorkspaceState {
                original_output: if matches_original {
                    report.name
                } else {
                    workspace.original_output
                },
                ..workspace
            })
            &&& away.output_effects(Some(report), matches_original, windows)
                == crate::effects::each_told(windows, workspace.arrival_events())
        }),
{
    let away = workspace.with_output(None, matches_disconnected);
    let back = away.with_output(Some(report), matches_original);
    assert(back.arrival_events() == workspace.arrival_events());
    lemma_no_events(windows);
    assert(away.departure_events() == Seq::<WindowEvent>::empty());
}

/// Nothing that happens to its options, its view or its output changes which workspace it is,
/// what it is called or what drives its animations, and only an output that goes by the name of
/// the original output changes that name.
pub proof fn law_identity_is_kept(
    workspace: WorkspaceState,
    base_options: OptionsHandle,
    scale: Scale,
    transform: Transform,
    size: Size,
    working_area: Rectangle,
    output: Option<OutputReport>,
    matches_original: bool,
)
    ensures
        ({
            let a = workspace.with_base_options(base_options);
            let b = workspace.with_view(scale, transform, size, working_area);
            let c = workspace.with_output(output, matches_original);
            &&& a.id == workspace.id && b.id == workspace.id && c.id == workspace.id
            &&& a.name == workspace.name && b.name == workspace.name && c.name == workspace.name
            &&& a.clock == workspace.clock && b.clock == workspace.clock && c.clock
                == workspace.clock
            &&& a.original_output == workspace.original_output
            &&& b.original_output == workspace.original_output
            &&& !matches_original ==> c.original_output == workspace.original_output
            &&& c.is_on(output)
        }),
{
}

} // verus!
