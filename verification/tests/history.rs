use niri_workspace::{
    AdjustedOptions, Binary64, ClockHandle, Effect, IdCounter, OptionsHandle, OutputHandle,
    OutputState, Point, Rectangle, Scale, ScaleKind, ScrollingConfig, Size, Transform, WindowEvent,
    WindowId, Workspace,
};

fn b(x: f64) -> Binary64 {
    Binary64::from_bits(x.to_bits())
}

fn output(n: u64, factor: f64, transform: Transform) -> OutputState {
    let size = Size { w: b(1920. / factor), h: b(1080. / factor) };
    OutputState {
        handle: OutputHandle(n),
        name: format!("output {}", n),
        scale: Scale {
            kind: ScaleKind::Fractional,
            integer: factor.ceil() as i32,
            fractional: b(factor),
        },
        transform,
        size,
        working_area: Rectangle { loc: Point::origin(), size },
    }
}

/// A window that remembers what it was told.
struct Client {
    id: WindowId,
    outputs: Vec<OutputHandle>,
    preferred: Option<(Scale, Transform)>,
}

impl Client {
    fn new(id: u64) -> Self {
        Client { id: WindowId(id), outputs: Vec::new(), preferred: None }
    }

    fn hear(&mut self, event: WindowEvent) {
        match event {
            WindowEvent::OutputEnter { output } => {
                if !self.outputs.contains(&output) {
                    self.outputs.push(output);
                }
            }
            WindowEvent::OutputLeave { output } => self.outputs.retain(|o| *o != output),
            WindowEvent::PreferScaleTransform { scale, transform } => {
                self.preferred = Some((scale, transform));
            }
        }
    }
}

/// A shell that carries out effects.
struct Shell {
    workspace: Workspace,
    clients: Vec<Client>,
    options: AdjustedOptions,
    scrolling: ScrollingConfig,
}

impl Shell {
    fn new(workspace: Workspace) -> Self {
        let scrolling = workspace.scrolling();
        Shell { workspace, clients: Vec::new(), options: scrolling.options, scrolling }
    }

    fn ids(&self) -> Vec<WindowId> {
        self.clients.iter().map(|client| client.id).collect()
    }

    fn carry_out(&mut self, effects: Vec<Effect>) {
        for effect in effects {
            match effect {
                Effect::Window { window, event } => {
                    for client in &mut self.clients {
                        if client.id == window {
                            client.hear(event);
                        }
                    }
                }
                Effect::AdjustOptions { options } => self.options = options,
                Effect::ConfigureScrolling { config } => {
                    self.scrolling = ScrollingConfig { options: self.options, ..config };
                }
            }
        }
    }

    fn add(&mut self, id: u64) {
        let mut client = Client::new(id);
        for event in self.workspace.add_window(true, 0, false).events {
            client.hear(event);
        }
        self.clients.push(client);
    }

    fn remove(&mut self, id: u64) -> Client {
        let at = self.clients.iter().position(|client| client.id == WindowId(id)).unwrap();
        let mut client = self.clients.remove(at);
        for effect in self.workspace.remove_tile(client.id) {
            if let Effect::Window { window, event } = effect {
                assert_eq!(window, client.id);
                client.hear(event);
            }
        }
        client
    }

    fn set_output(&mut self, output: Option<OutputState>, matches_original: bool) {
        let ids = self.ids();
        let effects = self.workspace.set_output(output, matches_original, &ids);
        self.carry_out(effects);
    }

    fn resize(&mut self, output: OutputState) {
        let ids = self.ids();
        let effects = self.workspace.update_output_size(&output, &ids);
        self.carry_out(effects);
    }

    fn check(&self) {
        let current = self.workspace.current_output();
        for client in &self.clients {
            assert_eq!(client.outputs, current.into_iter().collect::<Vec<_>>());
            if current.is_some() {
                let (scale, transform) = client.preferred.unwrap();
                assert!(scale.equal_to(self.workspace.scale()));
                assert_eq!(transform, self.workspace.transform());
            }
        }
        assert_eq!(self.scrolling, self.workspace.scrolling());
        assert_eq!(self.options, self.workspace.scrolling().options);
        assert_eq!(self.options.scale, self.workspace.scale().fractional);
        assert_eq!(self.scrolling.view_size, self.workspace.view_size());
    }
}

#[test]
fn windows_and_layout_stay_in_step_with_the_workspace() {
    let workspace = Workspace::new_no_outputs(
        ClockHandle(1),
        OptionsHandle(2),
        &mut IdCounter::starting_at(1),
    );
    let mut shell = Shell::new(workspace);
    shell.check();
    shell.add(1);
    shell.check();
    shell.set_output(Some(output(1, 1., Transform::Normal)), false);
    shell.check();
    shell.add(2);
    shell.check();
    shell.resize(output(1, 1.5, Transform::Normal));
    shell.check();
    shell.resize(output(1, 1.5, Transform::Flipped));
    shell.check();
    shell.set_output(Some(output(2, 2., Transform::Rotated90)), true);
    shell.check();
    assert_eq!(shell.workspace.original_output().as_str(), "output 2");
    let effects = shell.workspace.update_config(OptionsHandle(3));
    shell.carry_out(effects);
    shell.check();
    assert_eq!(shell.options.base, OptionsHandle(3));
    shell.set_output(None, false);
    shell.check();
    assert_eq!(shell.workspace.original_output().as_str(), "output 2");
    shell.add(3);
    shell.check();
    shell.set_output(Some(output(1, 1., Transform::Normal)), false);
    shell.check();
    let removed = shell.remove(2);
    assert!(removed.outputs.is_empty());
    shell.check();
    assert_eq!(shell.workspace.id().get(), 1);
}

#[test]
fn other_windows_hear_nothing() {
    let mut workspace = Workspace::new(
        output(1, 1., Transform::Normal),
        ClockHandle(1),
        OptionsHandle(2),
        &mut IdCounter::starting_at(1),
    );
    let effects =
        workspace.set_output(Some(output(2, 2., Transform::Flipped)), false, &[WindowId(5)]);
    for effect in effects {
        if let Effect::Window { window, .. } = effect {
            assert_eq!(window, WindowId(5));
        }
    }
}
