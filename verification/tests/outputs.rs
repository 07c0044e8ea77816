use niri_workspace::{
    AdjustedOptions, Binary64, ClockHandle, Effect, IdCounter, OptionsHandle, OutputHandle,
    OutputId, OutputState, Point, Rectangle, Scale, ScaleKind, ScrollingConfig, Size, Transform,
    WindowEvent, WindowId, Workspace, WorkspaceConfig,
};

const CLOCK: ClockHandle = ClockHandle(5);
const OPTIONS: OptionsHandle = OptionsHandle(70);

fn b(x: f64) -> Binary64 {
    Binary64::from_bits(x.to_bits())
}

fn integer_scale(n: i32) -> Scale {
    Scale { kind: ScaleKind::Integer, integer: n, fractional: b(n as f64) }
}

fn fractional_scale(x: f64) -> Scale {
    Scale { kind: ScaleKind::Fractional, integer: x.ceil() as i32, fractional: b(x) }
}

fn size(w: f64, h: f64) -> Size {
    Size { w: b(w), h: b(h) }
}

fn rect(x: f64, y: f64, w: f64, h: f64) -> Rectangle {
    Rectangle { loc: Point { x: b(x), y: b(y) }, size: size(w, h) }
}

fn output(n: u64) -> OutputState {
    OutputState {
        handle: OutputHandle(n),
        name: format!("make model serial{}", n),
        scale: integer_scale(1),
        transform: Transform::Normal,
        size: size(1920., 1080.),
        working_area: rect(0., 30., 1920., 1050.),
    }
}

fn config(name: &str, open_on_output: Option<&str>) -> Option<WorkspaceConfig> {
    Some(WorkspaceConfig {
        name: String::from(name),
        open_on_output: open_on_output.map(String::from),
    })
}

fn adjusted(scale: f64) -> AdjustedOptions {
    AdjustedOptions { base: OPTIONS, scale: b(scale) }
}

fn leave(window: u64, output: u64) -> Effect {
    Effect::Window {
        window: WindowId(window),
        event: WindowEvent::OutputLeave { output: OutputHandle(output) },
    }
}

fn enter(window: u64, output: u64) -> Effect {
    Effect::Window {
        window: WindowId(window),
        event: WindowEvent::OutputEnter { output: OutputHandle(output) },
    }
}

fn prefer(window: u64, scale: Scale, transform: Transform) -> Effect {
    Effect::Window {
        window: WindowId(window),
        event: WindowEvent::PreferScaleTransform { scale, transform },
    }
}

fn workspace_on(output: OutputState) -> Workspace {
    Workspace::new(output, CLOCK, OPTIONS, &mut IdCounter::starting_at(1))
}

fn windows() -> Vec<WindowId> {
    vec![WindowId(10), WindowId(20)]
}

#[test]
fn new_workspace_takes_over_its_output() {
    let mut ids = IdCounter::starting_at(3);
    let workspace = Workspace::new(output(1), CLOCK, OPTIONS, &mut ids);
    assert_eq!(workspace.id().get(), 3);
    assert_eq!(ids.next(), 4);
    assert_eq!(workspace.name(), None);
    assert_eq!(workspace.current_output(), Some(OutputHandle(1)));
    assert_eq!(workspace.original_output().as_str(), "make model serial1");
    assert_eq!(workspace.scale(), integer_scale(1));
    assert_eq!(workspace.transform(), Transform::Normal);
    assert_eq!(workspace.view_size(), size(1920., 1080.));
    assert_eq!(
        workspace.scrolling(),
        ScrollingConfig {
            view_size: size(1920., 1080.),
            working_area: rect(0., 30., 1920., 1050.),
            scale: b(1.),
            clock: CLOCK,
            options: adjusted(1.),
        }
    );
}

#[test]
fn configured_workspace_prefers_its_configured_output() {
    let mut ids = IdCounter::starting_at(1);
    let named = Workspace::new_with_config(
        output(1),
        config("chat", Some("DP-2")),
        CLOCK,
        OPTIONS,
        &mut ids,
    );
    assert_eq!(named.name(), Some(&String::from("chat")));
    assert_eq!(named.original_output().as_str(), "DP-2");
    assert_eq!(named.current_output(), Some(OutputHandle(1)));

    let anywhere =
        Workspace::new_with_config(output(1), config("mail", None), CLOCK, OPTIONS, &mut ids);
    assert_eq!(anywhere.name(), Some(&String::from("mail")));
    assert_eq!(anywhere.original_output().as_str(), "make model serial1");
    assert_ne!(named.id(), anywhere.id());
}

#[test]
fn new_workspace_without_outputs_gets_defaults() {
    let mut ids = IdCounter::starting_at(9);
    let workspace = Workspace::new_no_outputs(CLOCK, OPTIONS, &mut ids);
    assert_eq!(workspace.id().get(), 9);
    assert_eq!(workspace.name(), None);
    assert_eq!(workspace.current_output(), None);
    assert_eq!(workspace.original_output().as_str(), "");
    assert_eq!(workspace.scale(), integer_scale(1));
    assert_eq!(workspace.transform(), Transform::Normal);
    assert_eq!(workspace.view_size(), size(1280., 720.));
    assert_eq!(
        workspace.scrolling(),
        ScrollingConfig {
            view_size: size(1280., 720.),
            working_area: rect(0., 0., 1280., 720.),
            scale: b(1.),
            clock: CLOCK,
            options: adjusted(1.),
        }
    );

    let named = Workspace::new_with_config_no_outputs(
        config("chat", Some("DP-2")),
        CLOCK,
        OPTIONS,
        &mut ids,
    );
    assert_eq!(named.name(), Some(&String::from("chat")));
    assert_eq!(named.original_output().as_str(), "DP-2");
    let anywhere = Workspace::new_with_config_no_outputs(
        config("mail", None),
        CLOCK,
        OPTIONS,
        &mut ids,
    );
    assert_eq!(anywhere.original_output().as_str(), "");
}

#[test]
fn unnamed_workspace_counts_only_with_windows() {
    let mut ids = IdCounter::starting_at(1);
    let mut workspace =
        Workspace::new_with_config(output(1), config("chat", None), CLOCK, OPTIONS, &mut ids);
    assert!(workspace.has_windows_or_name(&[]));
    assert!(workspace.has_windows_or_name(&windows()));
    workspace.unname();
    assert_eq!(workspace.name(), None);
    assert!(!workspace.has_windows_or_name(&[]));
    assert!(workspace.has_windows_or_name(&windows()));
    assert_eq!(workspace.id().get(), 1);
}

#[test]
fn same_output_again_changes_nothing() {
    let mut workspace = workspace_on(output(1));
    let mut bigger = output(1);
    bigger.size = size(3840., 2160.);
    let effects = workspace.set_output(Some(bigger), true, &windows());
    assert!(effects.is_empty());
    assert_eq!(workspace.view_size(), size(1920., 1080.));

    let mut detached = Workspace::new_no_outputs(CLOCK, OPTIONS, &mut IdCounter::starting_at(1));
    assert!(detached.set_output(None, true, &windows()).is_empty());
}

#[test]
fn disconnection_preserves_everything_but_the_output() {
    let mut workspace = workspace_on(output(1));
    let before = workspace.scrolling();
    let effects = workspace.set_output(None, true, &windows());
    assert_eq!(effects, vec![leave(10, 1), leave(20, 1)]);
    assert_eq!(workspace.current_output(), None);
    assert_eq!(workspace.original_output().as_str(), "make model serial1");
    assert_eq!(workspace.view_size(), size(1920., 1080.));
    assert_eq!(workspace.scrolling(), before);
}

#[test]
fn reconnection_only_lets_the_windows_enter() {
    let mut workspace = workspace_on(output(1));
    workspace.set_output(None, false, &windows());
    let effects = workspace.set_output(Some(output(1)), false, &windows());
    assert_eq!(
        effects,
        vec![
            prefer(10, integer_scale(1), Transform::Normal),
            enter(10, 1),
            prefer(20, integer_scale(1), Transform::Normal),
            enter(20, 1),
        ]
    );
    assert_eq!(workspace.current_output(), Some(OutputHandle(1)));
}

#[test]
fn moving_to_another_output_tells_everybody_in_order() {
    let mut workspace = workspace_on(output(1));
    let scale = fractional_scale(1.5);
    let mut other = output(2);
    other.scale = scale;
    other.transform = Transform::Rotated90;
    other.size = size(720., 1280.);
    other.working_area = rect(0., 0., 720., 1280.);
    let effects = workspace.set_output(Some(other), false, &windows());
    let config = ScrollingConfig {
        view_size: size(720., 1280.),
        working_area: rect(0., 0., 720., 1280.),
        scale: b(1.5),
        clock: CLOCK,
        options: adjusted(1.5),
    };
    assert_eq!(
        effects,
        vec![
            leave(10, 1),
            leave(20, 1),
            Effect::AdjustOptions { options: adjusted(1.5) },
            Effect::ConfigureScrolling { config },
            prefer(10, scale, Transform::Rotated90),
            prefer(20, scale, Transform::Rotated90),
            prefer(10, scale, Transform::Rotated90),
            enter(10, 2),
            prefer(20, scale, Transform::Rotated90),
            enter(20, 2),
        ]
    );
    assert_eq!(workspace.scrolling(), config);
    assert_eq!(workspace.scale(), scale);
    assert_eq!(workspace.transform(), Transform::Rotated90);
    // The original output is remembered while the workspace is elsewhere.
    assert_eq!(workspace.original_output().as_str(), "make model serial1");
}

#[test]
fn matching_output_replaces_the_original_name() {
    let mut ids = IdCounter::starting_at(1);
    let mut workspace = Workspace::new_with_config_no_outputs(
        config("chat", Some("DP-2")),
        CLOCK,
        OPTIONS,
        &mut ids,
    );
    workspace.set_output(Some(output(1)), false, &[]);
    assert_eq!(workspace.original_output().as_str(), "DP-2");
    workspace.set_output(Some(output(2)), true, &[]);
    assert_eq!(workspace.original_output().as_str(), "make model serial2");
}

#[test]
fn same_view_again_is_silent() {
    let mut workspace = workspace_on(output(1));
    assert!(workspace.update_output_size(&output(1), &windows()).is_empty());
    let mut given_otherwise = output(1);
    given_otherwise.scale = Scale { kind: ScaleKind::Custom, ..integer_scale(1) };
    assert!(workspace.update_output_size(&given_otherwise, &windows()).is_empty());
    assert_eq!(workspace.scale().kind, ScaleKind::Integer);
}

#[test]
fn view_with_a_number_missing_is_never_the_same() {
    let mut broken = output(1);
    broken.size = size(f64::NAN, 1080.);
    let mut workspace = workspace_on(output(1));
    assert_eq!(workspace.update_output_size(&broken, &windows()).len(), 1);
    assert_eq!(workspace.update_output_size(&broken, &windows()).len(), 1);
}

#[test]
fn new_size_alone_only_configures_the_layout() {
    let mut workspace = workspace_on(output(1));
    let mut smaller = output(1);
    smaller.size = size(1600., 900.);
    let effects = workspace.update_output_size(&smaller, &windows());
    let config = ScrollingConfig {
        view_size: size(1600., 900.),
        working_area: rect(0., 30., 1920., 1050.),
        scale: b(1.),
        clock: CLOCK,
        options: adjusted(1.),
    };
    assert_eq!(effects, vec![Effect::ConfigureScrolling { config }]);
    assert_eq!(workspace.scrolling(), config);
    assert_eq!(workspace.view_size(), size(1600., 900.));
}

#[test]
fn new_working_area_alone_only_configures_the_layout() {
    let mut workspace = workspace_on(output(1));
    let mut cleared = output(1);
    cleared.working_area = rect(0., 0., 1920., 1080.);
    let effects = workspace.update_output_size(&cleared, &windows());
    assert_eq!(effects, vec![Effect::ConfigureScrolling { config: workspace.scrolling() }]);
    assert_eq!(workspace.scrolling().working_area, rect(0., 0., 1920., 1080.));
}

#[test]
fn new_transform_alone_tells_windows_but_keeps_options() {
    let mut workspace = workspace_on(output(1));
    let mut turned = output(1);
    turned.transform = Transform::Flipped180;
    let effects = workspace.update_output_size(&turned, &windows());
    assert_eq!(
        effects,
        vec![
            Effect::ConfigureScrolling { config: workspace.scrolling() },
            prefer(10, integer_scale(1), Transform::Flipped180),
            prefer(20, integer_scale(1), Transform::Flipped180),
        ]
    );
    assert_eq!(workspace.scrolling().options, adjusted(1.));
}

#[test]
fn new_advertised_integer_alone_tells_windows_but_keeps_options() {
    let mut workspace = workspace_on(output(1));
    let scale = Scale { kind: ScaleKind::Custom, integer: 2, fractional: b(1.) };
    let mut advertised = output(1);
    advertised.scale = scale;
    let effects = workspace.update_output_size(&advertised, &windows());
    assert_eq!(
        effects,
        vec![
            Effect::ConfigureScrolling { config: workspace.scrolling() },
            prefer(10, scale, Transform::Normal),
            prefer(20, scale, Transform::Normal),
        ]
    );
}

#[test]
fn new_scale_factor_adjusts_the_options() {
    let mut workspace = workspace_on(output(1));
    let scale = integer_scale(2);
    let mut scaled = output(1);
    scaled.scale = scale;
    let effects = workspace.update_output_size(&scaled, &windows());
    assert_eq!(
        effects,
        vec![
            Effect::AdjustOptions { options: adjusted(2.) },
            Effect::ConfigureScrolling { config: workspace.scrolling() },
            prefer(10, scale, Transform::Normal),
            prefer(20, scale, Transform::Normal),
        ]
    );
    assert_eq!(workspace.scrolling().options, adjusted(2.));
    assert_eq!(workspace.scrolling().scale, b(2.));
}

#[test]
fn options_are_always_adjusted_from_the_base_options() {
    let mut workspace = workspace_on(output(1));
    for factor in [1.25, 2., 1.75, 1.75, 1., 3.] {
        let mut scaled = output(1);
        scaled.scale = fractional_scale(factor);
        workspace.update_output_size(&scaled, &windows());
        assert_eq!(workspace.scrolling().options, adjusted(factor));
    }
}

#[test]
fn new_options_are_adjusted_for_the_current_scale() {
    let mut scaled = output(1);
    scaled.scale = fractional_scale(1.25);
    let mut workspace = workspace_on(scaled);
    let effects = workspace.update_config(OptionsHandle(71));
    let options = AdjustedOptions { base: OptionsHandle(71), scale: b(1.25) };
    assert_eq!(
        effects,
        vec![
            Effect::AdjustOptions { options },
            Effect::ConfigureScrolling { config: workspace.scrolling() },
        ]
    );
    assert_eq!(workspace.scrolling().options, options);
    assert_eq!(workspace.scrolling().view_size, size(1920., 1080.));

    // A later change of scale starts from the new options.
    workspace.update_output_size(&output(1), &[]);
    assert_eq!(
        workspace.scrolling().options,
        AdjustedOptions { base: OptionsHandle(71), scale: b(1.) }
    );
}

#[test]
fn output_names_carry_over() {
    assert_eq!(OutputId::new(&output(4)).as_str(), "make model serial4");
    assert_eq!(OutputId::from_name(String::from("eDP-1")).clone().as_str(), "eDP-1");
}
