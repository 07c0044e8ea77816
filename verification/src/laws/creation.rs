//! New workspaces.

use vstd::arithmetic::power2::pow2;
use vstd::prelude::*;

use crate::geometry::{ScaleKind, Transform};
use crate::ids::{ClockHandle, OptionsHandle};
use crate::output::OutputState;
use crate::state::WorkspaceState;
use crate::workspace::WorkspaceConfig;

verus! {

/// A new workspace has a name exactly where it was configured, and then the configured one. That
/// goes for workspaces on an output as for those without one, and whether or not the configuration
/// asks for an output.
pub proof fn law_configured_name_is_kept(
    output: OutputState,
    config: WorkspaceConfig,
    clock: ClockHandle,
    base_options: OptionsHandle,
    id: u64,
)
    ensures
        WorkspaceState::without_output(Some(config), clock, base_options, id).name == Some(
            config.name@,
        ),
        WorkspaceState::on_output(output@, Some(config), clock, base_options, id).name == Some(
            config.name@,
        ),
        WorkspaceState::without_output(None, clock, base_options, id).name is None,
        WorkspaceState::on_output(output@, None, clock, base_options, id).name is None,
{
}

/// The original output of a new workspace is the one that its configuration asks for. Where none is
/// asked for, it is the output that the workspace is on, and has no name where there is none.
pub proof fn law_configured_output_is_original(
    output: OutputState,
    config: Option<WorkspaceConfig>,
    clock: ClockHandle,
    base_options: OptionsHandle,
    id: u64,
)
    ensures
        ({
            let connected = WorkspaceState::on_output(output@, config, clock, base_options, id);
            let unconnected = WorkspaceState::without_output(config, clock, base_options, id);
            &&& config is Some && config->0.open_on_output is Some ==> {
                &&& connected.original_output == config->0.open_on_output->0@
                &&& unconnected.original_output == config->0.open_on_output->0@
            }
            &&& config is None || config->0.open_on_output is None ==> {
                &&& connected.original_output == output.name@
                &&& unconnected.original_output.len() == 0
            }
        }),
{
}

/// A new workspace on an output is laid out for what the output reports, and so is its scrolling
/// layer, whatever the configuration says; its options are the given ones, adjusted for the
/// output's scale.
pub proof fn law_new_workspace_follows_its_output(
    output: OutputState,
    config: Option<WorkspaceConfig>,
    clock: ClockHandle,
    base_options: OptionsHandle,
    id: u64,
)
    ensures
        ({
            let workspace = WorkspaceState::on_output(output@, config, clock, base_options, id);
            &&& workspace.output == Some(output.handle)
            &&& workspace.scale == output.scale
            &&& workspace.transform == output.transform
            &&& workspace.view_size == output.size
            &&& workspace.working_area == output.working_area
            &&& workspace.clock == clock
            &&& workspace.base_options == base_options
            &&& workspace.id == id
            &&& workspace.options.base == base_options
            &&& workspace.options.scale == output.scale.fractional
            &&& workspace.scrolling.view_size == output.size
            &&& workspace.scrolling.working_area == output.working_area
            &&& workspace.scrolling.scale == output.scale.fractional
            &&& workspace.scrolling.clock == clock
            &&& workspace.scrolling.options.base == base_options
            &&& workspace.scrolling.options.scale == output.scale.fractional
        }),
{
}

/// A new workspace without an output is laid out at scale 1 and not turned, on a view of 1280 by
/// 720 pixels that is all working area, and so is its scrolling layer, whatever the configuration
/// says; its options are the given ones, adjusted for that scale.
pub proof fn law_new_workspace_without_output_has_default_view(
    config: Option<WorkspaceConfig>,
    clock: ClockHandle,
    base_options: OptionsHandle,
    id: u64,
)
    ensures
        ({
            let workspace = WorkspaceState::without_output(config, clock, base_options, id);
            &&& workspace.output is None
            &&& workspace.scale.kind == ScaleKind::Integer
            &&& workspace.scale.integer == 1
            &&& workspace.scale.fractional.bits == 0x3ff0_0000_0000_0000
            &&& workspace.transform == Transform::Normal
            &&& workspace.view_size.rounded().w == 1280
            &&& workspace.view_size.rounded().h == 720
            &&& workspace.view_size.w.bits == 0x4094_0000_0000_0000
            &&& workspace.view_size.h.bits == 0x4086_8000_0000_0000
            &&& workspace.working_area.loc.x.bits == 0
            &&& workspace.working_area.loc.y.bits == 0
            &&& workspace.working_area.size == workspace.view_size
            &&& workspace.clock == clock
            &&& workspace.base_options == base_options
            &&& workspace.id == id
            &&& workspace.options.base == base_options
            &&& workspace.options.scale == workspace.scale.fractional
            &&& workspace.scrolling.view_size == workspace.view_size
            &&& workspace.scrolling.working_area == workspace.working_area
            &&& workspace.scrolling.scale == workspace.scale.fractional
            &&& workspace.scrolling.clock == clock
            &&& workspace.scrolling.options == workspace.options
        }),
{
    let workspace = WorkspaceState::without_output(config, clock, base_options, id);
    vstd::arithmetic::power2::lemma2_to64();
    vstd::arithmetic::power2::lemma2_to64_rest();
    let (low, unit) = (pow2(10) as int, pow2(42) as int);
    assert((1280 - low) * unit == 256 * 0x400_0000_0000) by (nonlinear_arith)
        requires
            low == 1024,
            unit == 0x400_0000_0000,
    ;
    let (low, unit) = (pow2(9) as int, pow2(43) as int);
    assert((720 - low) * unit == 208 * 0x800_0000_0000) by (nonlinear_arith)
        requires
            low == 512,
            unit == 0x800_0000_0000,
    ;
    crate::laws::numbers::law_whole_numbers_stay(workspace.view_size.w, 1280, 10);
    crate::laws::numbers::law_whole_numbers_stay(workspace.view_size.h, 720, 9);
}

} // verus!
