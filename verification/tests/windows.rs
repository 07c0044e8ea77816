use niri_workspace::{
    AdjustedOptions, Binary64, ClockHandle, ColumnInsertion, DefaultWidth, Effect, IdCounter, NewWindowState,
    OptionsHandle, OutputHandle, OutputState, PlacedTile, Point, PointedTile, Rectangle, ResizeEdge,
    Scale, ScaleKind, ScrollingReport, Size, SizeI32, TileInsertion, TileReport, TileSetup,
    TileTarget, Transform, UnmapSnapshot, WindowEvent, WindowId, Workspace,
};

const CLOCK: ClockHandle = ClockHandle(5);
const OPTIONS: OptionsHandle = OptionsHandle(70);

fn b(x: f64) -> Binary64 {
    Binary64::from_bits(x.to_bits())
}

fn point(x: f64, y: f64) -> Point {
    Point { x: b(x), y: b(y) }
}

fn size(w: f64, h: f64) -> Size {
    Size { w: b(w), h: b(h) }
}

fn scale() -> Scale {
    Scale { kind: ScaleKind::Fractional, integer: 2, fractional: b(1.5) }
}

fn attached() -> Workspace {
    let output = OutputState {
        handle: OutputHandle(1),
        name: String::from("make model serial"),
        scale: scale(),
        transform: Transform::Rotated270,
        size: size(1280.6, 720.4),
        working_area: Rectangle { loc: point(0., 0.), size: size(1280.6, 720.4) },
    };
    Workspace::new(output, CLOCK, OPTIONS, &mut IdCounter::starting_at(1))
}

fn detached() -> Workspace {
    Workspace::new_no_outputs(CLOCK, OPTIONS, &mut IdCounter::starting_at(1))
}

fn arrival() -> Vec<WindowEvent> {
    vec![
        WindowEvent::PreferScaleTransform { scale: scale(), transform: Transform::Rotated270 },
        WindowEvent::OutputEnter { output: OutputHandle(1) },
    ]
}

fn setup() -> Option<TileSetup> {
    Some(TileSetup {
        scale: b(1.5),
        clock: CLOCK,
        options: AdjustedOptions { base: OPTIONS, scale: b(1.5) },
    })
}

fn to(window: u64, event: WindowEvent) -> Effect {
    Effect::Window { window: WindowId(window), event }
}

#[test]
fn arriving_window_is_told_scale_transform_and_output() {
    assert_eq!(attached().enter_output_for_window(), arrival());
    assert!(detached().enter_output_for_window().is_empty());
}

#[test]
fn new_window_gets_a_tile_in_a_new_column() {
    assert_eq!(
        attached().add_window(true, "half", false),
        TileInsertion {
            setup: setup(),
            events: arrival(),
            target: TileTarget::NewColumn {
                col_idx: None,
                activate: true,
                width: "half",
                is_full_width: false,
            },
        }
    );
    assert!(detached().add_window(true, 0, false).events.is_empty());
}

#[test]
fn new_window_goes_right_of_another() {
    assert_eq!(
        attached().add_window_right_of(WindowId(3), 640, true),
        TileInsertion {
            setup: setup(),
            events: arrival(),
            target: TileTarget::RightOf {
                right_of: WindowId(3),
                width: 640,
                is_full_width: true,
            },
        }
    );
}

#[test]
fn existing_tiles_keep_their_setup() {
    assert_eq!(
        attached().add_tile(Some(4), false, 640, true),
        TileInsertion {
            setup: None,
            events: arrival(),
            target: TileTarget::NewColumn {
                col_idx: Some(4),
                activate: false,
                width: 640,
                is_full_width: true,
            },
        }
    );
    assert_eq!(
        attached().add_tile_to_column(2, Some(1), true),
        TileInsertion::<i32> {
            setup: None,
            events: arrival(),
            target: TileTarget::InColumn { column: 2, tile_idx: Some(1), activate: true },
        }
    );
    assert_eq!(
        attached().add_tile_right_of(WindowId(3), 640, false),
        TileInsertion {
            setup: None,
            events: arrival(),
            target: TileTarget::RightOf {
                right_of: WindowId(3),
                width: 640,
                is_full_width: false,
            },
        }
    );
}

#[test]
fn column_comes_in_window_by_window() {
    assert_eq!(
        attached().add_column(&[WindowId(7), WindowId(8)], true),
        ColumnInsertion {
            effects: vec![
                to(7, arrival()[0]),
                to(7, arrival()[1]),
                to(8, arrival()[0]),
                to(8, arrival()[1]),
            ],
            col_idx: None,
            activate: true,
        }
    );
    assert!(detached().add_column(&[WindowId(7)], false).effects.is_empty());
}

#[test]
fn removed_windows_leave_the_output() {
    let leave = WindowEvent::OutputLeave { output: OutputHandle(1) };
    assert_eq!(attached().remove_tile(WindowId(7)), vec![to(7, leave)]);
    assert!(detached().remove_tile(WindowId(7)).is_empty());
    assert_eq!(attached().remove_active_tile(Some(WindowId(7))), Some(vec![to(7, leave)]));
    assert_eq!(detached().remove_active_tile(Some(WindowId(7))), Some(vec![]));
    assert_eq!(attached().remove_active_tile(None), None);
    assert_eq!(
        attached().remove_active_column(Some(&[WindowId(7), WindowId(8)])),
        Some(vec![to(7, leave), to(8, leave)])
    );
    assert_eq!(detached().remove_active_column(Some(&[WindowId(7)])), Some(vec![]));
    assert_eq!(attached().remove_active_column(None), None);
}

#[test]
fn default_width_is_resolved() {
    let workspace = attached();
    assert_eq!(
        workspace.resolve_default_width(Some(Some(3))),
        DefaultWidth::Asked { width: Some(3) }
    );
    assert_eq!(
        workspace.resolve_default_width::<i32>(Some(None)),
        DefaultWidth::Asked { width: None }
    );
    assert_eq!(
        workspace.resolve_default_width::<i32>(None),
        DefaultWidth::OfOptions {
            options: AdjustedOptions { base: OPTIONS, scale: b(1.5) },
        }
    );
}

#[test]
fn new_window_is_configured() {
    let asked = SizeI32 { w: 300, h: 200 };
    let bounds = SizeI32 { w: 1000, h: 700 };
    let tiled = NewWindowState {
        scale: scale(),
        transform: Transform::Rotated270,
        size: asked,
        bounds,
    };
    assert_eq!(attached().configure_new_window(false, asked, bounds), tiled);
    assert_eq!(
        attached().configure_new_window(true, asked, bounds),
        NewWindowState { size: SizeI32 { w: 1281, h: 720 }, ..tiled }
    );
}

#[test]
fn windows_are_found() {
    let windows = [WindowId(3), WindowId(1), WindowId(3)];
    assert!(Workspace::has_windows(&windows));
    assert!(!Workspace::has_windows(&[]));
    assert!(Workspace::has_window(&windows, WindowId(1)));
    assert!(!Workspace::has_window(&windows, WindowId(2)));
    assert_eq!(Workspace::find_wl_surface(&[false, true, true]), Some(1));
    assert_eq!(Workspace::find_wl_surface(&[false, false]), None);
    assert_eq!(Workspace::clear_unmap_snapshot(&windows, WindowId(3)), Some(0));
    assert_eq!(Workspace::clear_unmap_snapshot(&windows, WindowId(1)), Some(1));
    assert_eq!(Workspace::clear_unmap_snapshot(&windows, WindowId(2)), None);
}

#[test]
fn snapshot_is_seen_from_the_tile() {
    let tiles = [
        PlacedTile { window: WindowId(3), pos: point(0., 0.) },
        PlacedTile { window: WindowId(1), pos: point(100., -20.5) },
    ];
    assert_eq!(
        attached().store_unmap_snapshot_if_empty(&tiles, WindowId(1)),
        Some(UnmapSnapshot {
            tile: 1,
            is_active: false,
            view_rect: Rectangle { loc: point(-100., 20.5), size: size(1280.6, 720.4) },
            output_scale: b(1.5),
        })
    );
    assert_eq!(attached().store_unmap_snapshot_if_empty(&tiles, WindowId(2)), None);
}

fn pointed(input: bool, activation: bool, x: f64, y: f64) -> PointedTile {
    PointedTile {
        in_input_region: input,
        in_activation_region: activation,
        surface_pos: point(x + 1000., y + 1000.),
        pos_within_tile: point(x, y),
        third: size(300. / 3., 150. / 3.),
        two_thirds: size(2. * 300. / 3., 2. * 150. / 3.),
    }
}

fn edges(top: bool, bottom: bool, left: bool, right: bool) -> Option<ResizeEdge> {
    Some(ResizeEdge { top, bottom, left, right })
}

#[test]
fn first_window_under_the_pointer_is_found() {
    let miss = pointed(false, false, -5., -5.);
    let border = pointed(false, true, 1., 1.);
    let inside = pointed(true, true, 150., 75.);
    assert_eq!(Workspace::window_under(&[]), None);
    assert_eq!(Workspace::window_under(&[miss, miss]), None);
    assert_eq!(
        Workspace::window_under(&[miss, inside, border]),
        Some((1, Some(point(1150., 1075.))))
    );
    assert_eq!(Workspace::window_under(&[miss, border, inside]), Some((1, None)));
    assert_eq!(
        Workspace::window_under(&[pointed(true, false, 0., 0.)]),
        Some((0, Some(point(1000., 1000.))))
    );
}

#[test]
fn edges_are_those_of_the_nearest_thirds() {
    let at = |x, y| Workspace::resize_edges_under(&[pointed(true, true, x, y)]);
    assert_eq!(at(10., 10.), edges(true, false, true, false));
    assert_eq!(at(150., 10.), edges(true, false, false, false));
    assert_eq!(at(290., 10.), edges(true, false, false, true));
    assert_eq!(at(10., 75.), edges(false, false, true, false));
    assert_eq!(at(150., 75.), edges(false, false, false, false));
    assert_eq!(at(290., 140.), edges(false, true, false, true));
    // Exactly at a third the pointer is in the middle.
    assert_eq!(at(100., 50.), edges(false, false, false, false));
    assert_eq!(at(200., 100.), edges(false, false, false, false));
    assert_eq!(at(f64::NAN, 10.), edges(true, false, false, false));
}

#[test]
fn edges_are_found_where_a_window_is() {
    let miss = pointed(false, false, 10., 10.);
    let border = pointed(false, true, 10., 75.);
    let inside = pointed(true, true, 290., 75.);
    assert_eq!(Workspace::resize_edges_under(&[]), None);
    assert_eq!(Workspace::resize_edges_under(&[miss]), None);
    assert_eq!(
        Workspace::resize_edges_under(&[miss, border, inside]),
        edges(false, false, true, false)
    );
    for tiles in [vec![miss], vec![miss, border], vec![inside, miss], vec![]] {
        assert_eq!(
            Workspace::window_under(&tiles).is_some(),
            Workspace::resize_edges_under(&tiles).is_some()
        );
    }
}

fn scrolling_report() -> ScrollingReport {
    ScrollingReport {
        view_size: size(1280.6, 720.4),
        shares_clock: true,
        shares_options: true,
        is_valid: true,
    }
}

#[test]
fn invariants_of_a_sound_workspace_hold() {
    let tile = TileReport {
        window: WindowId(3),
        interactive_move_offset: point(0., -0.),
        is_pixel_aligned: true,
    };
    assert!(attached().verify_invariants(&scrolling_report(), &[tile, tile], None));
    let moved = TileReport { interactive_move_offset: point(4., 0.), ..tile };
    assert!(attached().verify_invariants(&scrolling_report(), &[moved], Some(WindowId(3))));
    assert!(!attached().verify_invariants(&scrolling_report(), &[moved], Some(WindowId(4))));
    assert!(!attached().verify_invariants(&scrolling_report(), &[tile, moved], None));
    let unaligned = TileReport { is_pixel_aligned: false, ..tile };
    assert!(!attached().verify_invariants(&scrolling_report(), &[unaligned], Some(WindowId(3))));
}

#[test]
fn invariants_of_an_unsound_layout_fail() {
    let report = scrolling_report();
    let workspace = attached();
    let fails = |report: ScrollingReport| !workspace.verify_invariants(&report, &[], None);
    assert!(!fails(report));
    assert!(fails(ScrollingReport { view_size: size(1280., 720.), ..report }));
    assert!(fails(ScrollingReport { shares_clock: false, ..report }));
    assert!(fails(ScrollingReport { shares_options: false, ..report }));
    assert!(fails(ScrollingReport { is_valid: false, ..report }));
}

#[test]
fn invariants_of_unusable_numbers_fail() {
    for (w, h, factor) in [
        (0., 720., 1.),
        (1280., -1., 1.),
        (1280., f64::NAN, 1.),
        (1280., 720., 0.),
        (1280., 720., f64::INFINITY),
        (1280., 720., f64::NAN),
    ] {
        let output = OutputState {
            handle: OutputHandle(1),
            name: String::from("make model serial"),
            scale: Scale { kind: ScaleKind::Fractional, integer: 1, fractional: b(factor) },
            transform: Transform::Normal,
            size: size(w, h),
            working_area: Rectangle { loc: point(0., 0.), size: size(w, h) },
        };
        let workspace = Workspace::new(output, CLOCK, OPTIONS, &mut IdCounter::starting_at(1));
        let report = ScrollingReport { view_size: size(w, h), ..scrolling_report() };
        assert!(!workspace.verify_invariants(&report, &[], None), "{} {} {}", w, h, factor);
    }
}

#[test]
fn window_that_moves_leaves_one_output_and_enters_the_other() {
    let from = attached();
    let to_workspace = detached();
    let mut heard: Vec<WindowEvent> = Vec::new();
    for effect in from.remove_tile(WindowId(7)) {
        if let Effect::Window { window, event } = effect {
            assert_eq!(window, WindowId(7));
            heard.push(event);
        }
    }
    heard.extend(to_workspace.add_tile(None, true, 0, false).events);
    heard.extend(from.add_tile(None, true, 0, false).events);
    assert_eq!(
        heard,
        vec![
            WindowEvent::OutputLeave { output: OutputHandle(1) },
            arrival()[0],
            arrival()[1],
        ]
    );
}
