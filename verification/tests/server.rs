use std::collections::HashMap;
use xwayland_satellite::configure::Reconfigure;
use xwayland_satellite::decoration::TITLEBAR_HEIGHT;
use xwayland_satellite::focus::{FocusRequest, TouchDown};
use xwayland_satellite::geometry::{PendingSurfaceState, WinSize, WindowDims};
use xwayland_satellite::globals::{Global, SupportedVersions};
use xwayland_satellite::output::{OutputDimensionsSource, SurfaceScaleFactor, WindowConfigure};
use xwayland_satellite::pointer::{PointerAction, PointerEvent, SurfaceRef};
use xwayland_satellite::role::SurfaceRole;
use xwayland_satellite::roles::{PopupPlan, RolePlan, ToplevelPlan};
use xwayland_satellite::state::{CompositorFeatures, InnerServerState, Interface};
use xwayland_satellite::surface_events::ScaledConfigure;
use xwayland_satellite::titlebar::DrawDecision;
use xwayland_satellite::viewport::decorated_height;
use xwayland_satellite::window::WmNormalHints;
use xwayland_satellite::windows::{DecorationMode, ToplevelRequest};
use xwayland_satellite::world::{Handle, Parts, SurfaceAttach, SurfaceSerial};
use xwayland_satellite::xstate::{SetState, WmHints, WmName};

const POOL: bool = true;

/// Both sides of the bridge, as far as the state can tell.
struct Fixture {
    state: InnerServerState,
    /// What the X server knows of its windows.
    windows: HashMap<u32, WindowDims>,
    focused_window: Option<u32>,
    /// Positions that the X server was told of each output, by protocol.
    geometry: HashMap<u64, Vec<(i32, i32)>>,
    logical: HashMap<u64, Vec<(i32, i32)>>,
    surface_serial: u64,
    seat: u64,
    globals: u32,
}

fn dims(x: i16, y: i16, width: u16, height: u16) -> WindowDims {
    WindowDims {
        x,
        y,
        width,
        height,
    }
}

fn scale_of(scale: SurfaceScaleFactor) -> f64 {
    scale.n120 as f64 / 120.0
}

fn fixed(value: f64) -> i32 {
    (value * 256.0) as i32
}

impl Fixture {
    fn with_features(features: CompositorFeatures) -> Self {
        let mut state = InnerServerState::new(features);
        let seat = state.bind_seat(1000, 1);
        Self {
            state,
            windows: HashMap::new(),
            focused_window: None,
            geometry: HashMap::new(),
            logical: HashMap::new(),
            surface_serial: 1,
            seat,
            globals: 1000,
        }
    }

    fn new() -> Self {
        Self::with_features(CompositorFeatures {
            activation: true,
            fractional_scale: false,
            decoration_manager: true,
            xdg_wm_base_version: 6,
        })
    }

    fn new_fractional() -> Self {
        Self::with_features(CompositorFeatures {
            activation: true,
            fractional_scale: true,
            decoration_manager: true,
            xdg_wm_base_version: 6,
        })
    }

    fn configure_x11(&mut self, configures: Vec<WindowConfigure>) {
        for configure in configures {
            self.set_window_dims(configure.window, configure.dims);
        }
    }

    fn set_window_dims(&mut self, window: u32, d: PendingSurfaceState) {
        self.windows.insert(
            window,
            dims(d.x as i16, d.y as i16, d.width as u16, d.height as u16),
        );
    }

    /// What follows each batch of events.
    fn run(&mut self) {
        let (positions, configures) = self.state.settle_output_offset();
        for position in positions {
            let told = match position.source {
                OutputDimensionsSource::Wl => &mut self.geometry,
                OutputDimensionsSource::Xdg => &mut self.logical,
            };
            told.entry(position.output)
                .or_default()
                .push((position.x, position.y));
        }
        self.configure_x11(configures);
        self.state.settle_scale();
        match self.state.apply_focus().0 {
            FocusRequest::Window(data) => self.focused_window = Some(data.window),
            FocusRequest::NoWindow => self.focused_window = None,
            FocusRequest::Nothing => {}
        }
        for configure in self.state.flush_pending_x11_configures() {
            self.set_window_dims(configure.window, configure.dims);
        }
    }

    fn new_output(&mut self, x: i32, y: i32) -> u64 {
        self.globals += 1;
        let output = self.state.bind_output(self.globals);
        self.move_output(output, x, y);
        assert!(self.state.handle_output_mode(output, true, 1000, 1000));
        self.run();
        output
    }

    fn move_output(&mut self, output: u64, x: i32, y: i32) {
        let update = self.state.handle_output_geometry(output, x, y, 0);
        self.configure_x11(update.configures);
        if let Some(position) = update.position {
            self.geometry.entry(output).or_default().push(position);
        }
        self.run();
    }

    fn move_xdg_output(&mut self, output: u64, x: i32, y: i32) {
        let (configures, position) = self.state.handle_logical_position(output, x, y);
        self.configure_x11(configures);
        if let Some(position) = position {
            self.logical.entry(output).or_default().push(position);
        }
        self.run();
    }

    fn check_output_position(&mut self, output: u64, x: i32, y: i32) {
        let told = self.geometry.remove(&output).unwrap_or_default();
        assert!(!told.is_empty(), "Didn't get geometry event");
        for position in told {
            assert_eq!(position, (x, y));
        }
    }

    fn check_output_quiet(&self, output: u64) {
        assert!(!self.geometry.contains_key(&output));
        assert!(!self.logical.contains_key(&output));
    }

    fn new_window(&mut self, window: u32, override_redirect: bool, d: WindowDims) {
        self.windows.insert(window, d);
        self.state.new_window(window, override_redirect, d, None);
    }

    fn next_serial(&mut self) -> SurfaceSerial {
        let serial = self.surface_serial;
        self.surface_serial += 1;
        SurfaceSerial {
            low: (serial & 0xFF) as u32,
            high: ((serial >> 8) & 0xFF) as u32,
        }
    }

    /// Maps a window, gives it a surface and attaches a buffer to that.
    fn map_window(&mut self, window: u32) -> (u64, RolePlan) {
        assert!(self.state.map_window(window, 0, POOL).is_none());
        self.associate_window(window)
    }

    fn associate_window(&mut self, window: u32) -> (u64, RolePlan) {
        let surface = self.state.new_surface();
        let serial = self.next_serial();
        self.state.set_window_serial(window, serial);
        let created = self
            .state
            .set_surface_serial(surface, serial, POOL)
            .expect("no role created");
        let attach = SurfaceAttach {
            buffer: Some(77),
            x: 0,
            y: 0,
        };
        assert!(!self.state.surface_attach(surface, attach));
        (surface, created.plan)
    }

    /// Configures the role of a surface. Returns the buffer that it may show from then on.
    fn configure(&mut self, surface: u64) -> Option<u64> {
        if let Some(work) = self.state.begin_configure(surface) {
            let scale = scale_of(work.scale);
            let scaled = ScaledConfigure {
                x: (work.x as f64 * scale) as i32,
                y: (work.y as f64 * scale) as i32,
                width: work.width.map(|w| (w as f64 * scale) as u16),
                height: work.height.map(|h| (h as f64 * scale) as u16),
                height_below_titlebar: work
                    .height_below_titlebar
                    .map(|h| (h as f64 * scale) as u16),
            };
            self.state.apply_configure(surface, scaled);
            self.update_viewport(surface);
        }
        let held = self.state.finish_configure(surface);
        held.attach.and_then(|attach| attach.buffer)
    }

    /// The size at which a surface is shown.
    fn update_viewport(&mut self, surface: u64) -> (i32, i32) {
        let parts = self.state.parts_of(surface).unwrap();
        let scale = scale_of(parts.scale.unwrap());
        let d = parts.data.unwrap().attrs.dims;
        let width = (d.width as f64 / scale) as i32;
        let height = (d.height as f64 / scale) as i32;
        let update = self
            .state
            .update_surface_viewport(surface, width, height)
            .expect("no viewport");
        update
            .destination
            .map(|d| (d.width, d.height))
            .unwrap_or((0, 0))
    }

    fn configure_toplevel(
        &mut self,
        surface: u64,
        width: i32,
        height: i32,
        fullscreen: bool,
    ) -> Option<u64> {
        self.state
            .toplevel_configure(surface, width, height, fullscreen);
        let buffer = self.configure(surface);
        self.run();
        buffer
    }

    /// Configures a popup where it asked to be.
    fn configure_popup(&mut self, surface: u64, plan: &PopupPlan) -> Option<u64> {
        let scale = scale_of(plan.scale);
        self.state.popup_configure(
            surface,
            PendingSurfaceState {
                x: (plan.x as f64 / scale) as i32,
                y: (plan.y as f64 / scale) as i32,
                width: ((plan.width as f64 / scale) as i32).max(1),
                height: ((plan.height as f64 / scale) as i32).max(1),
            },
            false,
        );
        let buffer = self.configure(surface);
        self.run();
        buffer
    }

    fn focus_toplevel(&mut self, surface: u64) {
        assert!(self
            .state
            .keyboard_enter(self.seat, 1, SurfaceRef::Entity(surface)));
        self.run();
    }

    fn move_surface_to_output(&mut self, surface: u64, output: u64) {
        let update = self.state.surface_enter(surface, output);
        assert!(update.forward);
        self.configure_x11(update.configure.into_iter().collect());
        if update.viewport {
            self.update_viewport(surface);
        }
        self.run();
    }

    fn create_toplevel(&mut self, window: u32) -> (u64, ToplevelPlan) {
        self.new_window(window, false, dims(0, 0, 50, 50));
        let (surface, plan) = self.map_window(window);
        let RolePlan::Toplevel(plan) = plan else {
            panic!("surface role: {plan:?}");
        };
        assert_eq!(
            self.configure_toplevel(surface, 100, 100, false),
            Some(77)
        );
        self.focus_toplevel(surface);
        assert_eq!(self.windows[&window], dims(0, 0, 100, 100));
        (surface, plan)
    }

    fn create_popup(
        &mut self,
        window: u32,
        parent_window: u32,
        parent_surface: u64,
        d: WindowDims,
        scale: f64,
    ) -> (u64, PopupPlan) {
        self.new_window(window, true, d);
        let (surface, plan) = self.map_window(window);
        let plan = self.check_popup(surface, plan, parent_window, parent_surface, d, scale);
        assert_eq!(self.configure_popup(surface, &plan), Some(77));
        (surface, plan)
    }

    fn check_popup(
        &self,
        surface: u64,
        plan: RolePlan,
        parent_window: u32,
        parent_surface: u64,
        d: WindowDims,
        scale: f64,
    ) -> PopupPlan {
        let RolePlan::Popup(plan) = plan else {
            panic!("surface was not a popup: {plan:?}");
        };
        assert_ne!(surface, parent_surface);
        assert_eq!(plan.entity, surface);
        assert_eq!(plan.parent, parent_surface);
        assert_eq!((plan.width, plan.height), (d.width, d.height));
        assert_eq!(scale_of(plan.scale), scale);
        let parent = self.windows[&parent_window];
        assert_eq!(
            (plan.anchor_width, plan.anchor_height),
            (parent.width, parent.height)
        );
        assert_eq!((plan.x, plan.y), (d.x - parent.x, d.y - parent.y));
        plan
    }

    fn toplevel(&self, surface: u64) -> xwayland_satellite::role::ToplevelData {
        self.state
            .parts_of(surface)
            .unwrap()
            .role
            .unwrap()
            .toplevel()
            .unwrap()
    }

    /// The compositor grants what is asked of a toplevel.
    fn grant(&mut self, surface: u64, request: Option<ToplevelRequest>) {
        let fullscreen = match request {
            Some(ToplevelRequest::SetFullscreen) => true,
            Some(ToplevelRequest::UnsetFullscreen) => false,
            other => panic!("unexpected request: {other:?}"),
        };
        self.configure_toplevel(surface, 100, 100, fullscreen);
    }

    fn add_pointer(&mut self) {
        assert!(self.state.get_pointer(self.seat, 2));
    }

    fn move_pointer_to(&mut self, surface: u64, x: f64, y: f64) -> Vec<PointerAction> {
        let parts = self.state.parts_of(self.seat).unwrap();
        let mut actions = Vec::new();
        if let Some(xwayland_satellite::pointer::CurrentSurface::Xwayland(old)) = parts.current {
            actions = self.state.handle_pointer_event(
                self.seat,
                PointerEvent::Leave {
                    serial: 2,
                    surface: SurfaceRef::Entity(old),
                    alive: true,
                },
            );
        }
        actions.extend(self.state.handle_pointer_event(
            self.seat,
            PointerEvent::Enter {
                serial: 3,
                surface: SurfaceRef::Entity(surface),
                surface_x: fixed(x),
                surface_y: fixed(y),
            },
        ));
        self.run();
        actions
    }
}

#[test]
fn tests_toplevel_flow() {
    let mut f = Fixture::new();
    let window = 1;
    let (surface, _) = f.create_toplevel(window);

    // The compositor asks for the window to be closed, which leaves its surface alone.
    f.state.forget_window(window);
    f.run();
    assert!(f.state.parts_of(surface).is_some());

    // For some reason, we can get two UnmapNotify events
    assert!(matches!(
        f.state.unmap_window(window),
        Some(SurfaceRole::Toplevel(Some(_)))
    ));
    assert!(f.state.unmap_window(window).is_none());
    f.state.destroy_window(window);
    f.state.surface_destroy(surface);
    f.run();

    assert!(f.state.parts_of(surface).is_none());
    assert!(f.state.lookup(window).is_none());
}

#[test]
fn popup_flow_simple() {
    let mut f = Fixture::new();
    let (toplevel, _) = f.create_toplevel(1);
    let (popup, _) = f.create_popup(2, 1, toplevel, dims(0, 0, 50, 50), 1.0);

    f.state.unmap_window(2);
    f.state.destroy_window(2);
    f.state.surface_destroy(popup);
    f.run();

    assert!(f.state.parts_of(popup).is_none());
}

#[test]
fn pass_through_globals() {
    let mut f = Fixture::new();
    let supported = SupportedVersions {
        compositor: 6,
        shm: 2,
        seat: 9,
        output: 4,
        relative_pointer: 1,
        drm: 2,
        dmabuf: 5,
        xdg_output: 3,
        pointer_constraints: 1,
        tablet: 2,
        drm_syncobj: 1,
    };
    let offered = [
        ("wl_compositor", Interface::Compositor),
        ("wl_shm", Interface::Shm),
        ("wl_output", Interface::Output),
        ("wl_seat", Interface::Seat),
        ("zwp_linux_dmabuf_v1", Interface::Dmabuf),
        ("zwp_relative_pointer_manager_v1", Interface::RelativePointer),
        ("zxdg_output_manager_v1", Interface::XdgOutput),
        ("wl_drm", Interface::Drm),
        ("zwp_pointer_constraints_v1", Interface::PointerConstraints),
        ("zwp_tablet_manager_v2", Interface::Tablet),
        ("wp_linux_drm_syncobj_manager_v1", Interface::DrmSyncobj),
    ];
    for (name, (interface, kind)) in offered.into_iter().enumerate() {
        let global = Global {
            name: name as u32,
            interface: interface.to_owned(),
            version: 3,
        };
        let info = f
            .state
            .new_global(&global, &supported)
            .unwrap_or_else(|| panic!("Missing global {interface}"));
        assert_eq!(info.interface, kind);
        assert_eq!(info.version, supported.of(kind).min(3));
        assert_eq!(f.state.globals_map[&(name as u32)], info);
    }
    for interface in ["xdg_wm_base", "wl_subcompositor", "wl_outputs", ""] {
        let global = Global {
            name: 99,
            interface: interface.to_owned(),
            version: 1,
        };
        assert!(f.state.new_global(&global, &supported).is_none());
    }
    assert_eq!(f.state.globals_map.len(), offered.len());
}

#[test]
fn last_activated_toplevel_is_focused() {
    let mut f = Fixture::new();
    let (first, _) = f.create_toplevel(1);
    assert_eq!(
        f.focused_window,
        Some(1),
        "new toplevel's window is not focused"
    );

    f.create_toplevel(2);
    assert_eq!(f.focused_window, Some(2), "toplevel focus did not switch");

    f.configure_toplevel(first, 100, 100, false);
    f.run();
    assert_eq!(
        f.focused_window,
        Some(2),
        "toplevel focus did not stay the same"
    );
}

#[test]
fn popup_window_changes_surface() {
    let mut f = Fixture::new();
    let (toplevel, _) = f.create_toplevel(1);
    let (old, _) = f.create_popup(2, 1, toplevel, dims(0, 0, 50, 50), 1.0);

    f.state.unmap_window(2);
    f.state.surface_destroy(old);
    f.run();
    assert!(!f.state.parts_of(old).unwrap().surface);

    let (surface, plan) = f.map_window(2);
    assert_ne!(old, surface);
    assert!(f.state.parts_of(old).is_none());
    let plan = f.check_popup(surface, plan, 1, toplevel, dims(0, 0, 50, 50), 1.0);
    assert!(matches!(
        f.state.parts_of(surface).unwrap().role,
        Some(SurfaceRole::Popup(Some(_)))
    ));

    f.configure_popup(surface, &plan);
    assert!(matches!(
        f.state.parts_of(surface).unwrap().role,
        Some(SurfaceRole::Popup(Some(_)))
    ));
}

#[test]
fn override_redirect_window_after_toplevel_close() {
    let mut f = Fixture::new();
    let (first, _) = f.create_toplevel(1);
    f.state.forget_window(1);
    f.run();
    f.state.unmap_window(1);
    f.state.destroy_window(1);
    f.state.surface_destroy(first);
    f.run();
    assert!(f.state.parts_of(first).is_none());

    f.new_window(2, true, WindowDims::default());
    let (_, plan) = f.map_window(2);
    assert!(matches!(plan, RolePlan::Toplevel(_)), "wrong role: {plan:?}");
}

#[test]
fn fullscreen() {
    let mut f = Fixture::new();
    let (surface, _) = f.create_toplevel(1);

    let request = f.state.set_fullscreen(1, SetState::Add);
    f.grant(surface, request);
    assert!(f.toplevel(surface).fullscreen);

    let request = f.state.set_fullscreen(1, SetState::Remove);
    f.grant(surface, request);
    assert!(!f.toplevel(surface).fullscreen);

    let request = f.state.set_fullscreen(1, SetState::Toggle);
    f.grant(surface, request);
    assert!(f.toplevel(surface).fullscreen);

    let request = f.state.set_fullscreen(1, SetState::Toggle);
    f.grant(surface, request);
    assert!(!f.toplevel(surface).fullscreen);
}

#[test]
fn window_title_and_class() {
    let mut f = Fixture::new();
    f.create_toplevel(1);

    assert_eq!(
        f.state.set_win_title(1, WmName::WmName("window".into())),
        Some("window".into())
    );
    assert_eq!(
        f.state.set_win_class(1, "class".into()),
        Some("class".into())
    );
    assert_eq!(
        f.state
            .set_win_title(1, WmName::NetWmName("superwindow".into())),
        Some("superwindow".into())
    );
    // The title stays what it was.
    assert_eq!(
        f.state.set_win_title(1, WmName::WmName("shwindow".into())),
        None
    );
}

#[test]
fn window_group_properties() {
    let mut f = Fixture::new();
    f.state.new_window(1, false, dims(0, 0, 1, 1), None);
    assert_eq!(
        f.state.set_win_title(1, WmName::WmName("window".into())),
        None
    );
    assert_eq!(f.state.set_win_class(1, "class".into()), None);

    f.new_window(2, false, dims(0, 0, 50, 50));
    f.state.set_win_hints(
        2,
        WmHints {
            input: None,
            window_group: Some(1),
        },
    );
    let (_, plan) = f.map_window(2);
    let RolePlan::Toplevel(plan) = plan else {
        panic!("wrong role: {plan:?}");
    };
    assert_eq!(plan.title, Some("window".into()));
    assert_eq!(plan.app_id, Some("class".into()));
}

#[test]
fn raise_window_on_pointer_event() {
    let mut f = Fixture::new();
    f.add_pointer();
    let (first, _) = f.create_toplevel(1);
    let (second, _) = f.create_toplevel(2);
    assert_eq!(f.focused_window, Some(2));

    let actions = f.move_pointer_to(second, 0.0, 0.0);
    assert!(actions.contains(&PointerAction::RaiseToTop { window: 2 }));
    assert_eq!(f.focused_window, Some(2));
    assert_eq!(f.state.last_hovered, Some(2));

    let actions = f.move_pointer_to(first, 0.0, 0.0);
    assert!(actions.contains(&PointerAction::RaiseToTop { window: 1 }));
    assert_eq!(f.focused_window, Some(2));
    assert_eq!(f.state.last_hovered, Some(1));
}

#[test]
fn override_redirect_choose_hover_window() {
    let mut f = Fixture::new();
    f.add_pointer();
    let (first, _) = f.create_toplevel(1);
    f.create_toplevel(2);
    assert_eq!(f.focused_window, Some(2));

    f.move_pointer_to(first, 0.0, 0.0);
    assert_eq!(f.state.last_hovered, Some(1));

    f.new_window(3, true, dims(0, 0, 1, 1));
    let (_, plan) = f.map_window(3);
    let RolePlan::Popup(plan) = plan else {
        panic!("wrong role: {plan:?}");
    };
    assert_eq!(plan.parent, first);
}

#[test]
fn output_offset() {
    let mut f = Fixture::new();
    let output = f.new_output(0, 0);
    assert!(f.state.bind_xdg_output(output));
    f.move_xdg_output(output, 500, 100);
    {
        let (surface, _) = f.create_toplevel_at(1, 0, 0);
        f.move_surface_to_output(surface, output);
        assert_eq!((f.windows[&1].x, f.windows[&1].y), (500, 100));
        f.state.unmap_window(1);
        f.state.surface_destroy(surface);
        f.run();
    }

    let (surface, plan) = f.map_window(1);
    f.move_surface_to_output(surface, output);
    assert!(
        matches!(plan, RolePlan::Toplevel(_)),
        "surface role: {plan:?}"
    );
    f.configure_toplevel(surface, 100, 100, false);
    f.focus_toplevel(surface);
    assert_eq!((f.windows[&1].x, f.windows[&1].y), (500, 100));

    let (popup, plan) = f.create_popup(2, 1, surface, dims(510, 110, 50, 50), 1.0);
    f.move_surface_to_output(popup, output);
    assert_eq!((plan.x, plan.y), (10, 10));

    f.state.unmap_window(2);
    f.state.surface_destroy(popup);
    f.run();

    let (popup, plan) = f.map_window(2);
    let RolePlan::Popup(plan) = plan else {
        panic!("wrong role: {plan:?}");
    };
    f.move_surface_to_output(popup, output);
    f.configure_popup(popup, &plan);
    assert_eq!((plan.x, plan.y), (10, 10));
}

impl Fixture {
    fn create_toplevel_at(&mut self, window: u32, x: i16, y: i16) -> (u64, ToplevelPlan) {
        let created = self.create_toplevel(window);
        assert_eq!(
            (self.windows[&window].x, self.windows[&window].y),
            (x, y)
        );
        created
    }
}

#[test]
fn output_offset_change() {
    let mut f = Fixture::new();
    let output = f.new_output(500, 100);
    let (surface, _) = f.create_toplevel(1);
    f.move_surface_to_output(surface, output);
    let position = |f: &Fixture| (f.windows[&1].x, f.windows[&1].y);
    assert_eq!(position(&f), (500, 100));

    f.move_output(output, 600, 200);
    assert_eq!(position(&f), (600, 200));

    assert!(f.state.bind_xdg_output(output));
    f.move_xdg_output(output, 0, 0);
    // The logical position takes priority over that of the output.
    assert_eq!(position(&f), (0, 0));

    f.move_xdg_output(output, 1000, 22);
    assert_eq!(position(&f), (1000, 22));

    f.move_output(output, 600, 200);
    assert_eq!(position(&f), (1000, 22));
}

#[test]
fn reconfigure_popup() {
    let mut f = Fixture::new();
    let (toplevel, _) = f.create_toplevel(1);
    let (popup, _) = f.create_popup(2, 1, toplevel, dims(20, 40, 50, 50), 1.0);

    let new_dims = dims(40, 60, 80, 100);
    let Reconfigure::Popup(reposition) = f.state.reconfigure_window(2, new_dims, POOL) else {
        panic!("popup was not repositioned");
    };
    assert_eq!(reposition.entity, popup);
    assert_eq!((reposition.x, reposition.y), (40, 60));
    assert_eq!((reposition.width, reposition.height), (80, 100));
    assert_eq!(scale_of(reposition.scale), 1.0);

    f.state.popup_configure(
        popup,
        PendingSurfaceState {
            x: 40,
            y: 60,
            width: 80,
            height: 100,
        },
        false,
    );
    f.configure(popup);
    f.run();
    assert_eq!(f.windows[&2], new_dims);
}

#[test]
fn reconfigure_popup_after_map() {
    let mut f = Fixture::new();
    let (toplevel, _) = f.create_toplevel(1);

    let new_dims = dims(40, 60, 80, 100);
    f.new_window(2, true, dims(20, 40, 10, 10));
    assert!(f.state.map_window(2, 0, POOL).is_none());
    f.state.reconfigure_window(2, new_dims, POOL);
    let (surface, plan) = f.associate_window(2);
    let plan = f.check_popup(surface, plan, 1, toplevel, new_dims, 1.0);
    assert_eq!(f.configure_popup(surface, &plan), Some(77));
    assert_eq!(f.windows[&2], new_dims);
}

#[test]
fn reconfigure_toplevel() {
    let mut f = Fixture::new();
    let (surface, _) = f.create_toplevel(1);
    let current = |f: &Fixture| f.state.parts_of(surface).unwrap().data.unwrap().attrs.dims;
    assert_eq!(current(&f), dims(0, 0, 100, 100));
    assert_eq!(f.update_viewport(surface), (100, 100));

    // A toplevel can be resized, but not change position
    assert!(matches!(
        f.state.reconfigure_window(1, dims(20, 20, 80, 120), POOL),
        Reconfigure::Viewport(entity) if entity == surface
    ));
    assert_eq!(current(&f), dims(0, 0, 80, 120));
    assert_eq!(f.update_viewport(surface), (80, 120));
}

#[test]
fn fullscreen_heuristic() {
    let mut f = Fixture::new();
    let output = f.new_output(0, 0);
    let (surface, _) = f.create_toplevel(1);
    f.move_surface_to_output(surface, output);

    for (window, override_redirect) in [(2, false), (3, true)] {
        // Outputs are 1000x1000
        f.new_window(window, override_redirect, dims(0, 0, 1000, 1000));
        let (_, plan) = f.map_window(window);
        let RolePlan::Toplevel(plan) = plan else {
            panic!("Expected toplevel, got {plan:?}");
        };
        assert!(plan.fullscreen);
    }
}

#[test]
fn negative_output_position() {
    let mut f = Fixture::new();
    let output = f.new_output(-500, -500);
    f.check_output_position(output, 0, 0);

    let output2 = f.new_output(0, 0);
    f.check_output_position(output2, 500, 500);
    f.check_output_quiet(output);

    let output3 = f.new_output(500, 500);
    f.check_output_position(output3, 1000, 1000);
    f.check_output_quiet(output);
    f.check_output_quiet(output2);
}

#[test]
fn negative_output_position_update_offset() {
    let mut f = Fixture::new();
    let output = f.new_output(-500, -500);
    f.check_output_position(output, 0, 0);

    let output2 = f.new_output(0, -1000);
    f.check_output_position(output, 0, 500);
    f.check_output_position(output2, 500, 0);

    let output3 = f.new_output(-1000, 0);
    f.check_output_position(output, 500, 500);
    f.check_output_position(output2, 1000, 0);
    f.check_output_position(output3, 0, 1000);
}

#[test]
fn negative_output_xdg_position_update_offset() {
    let mut f = Fixture::new();
    let output = f.new_output(-500, -500);
    f.check_output_position(output, 0, 0);

    let output2 = f.new_output(0, 0);
    assert!(f.state.bind_xdg_output(output2));
    f.move_xdg_output(output2, 0, -1000);
    f.check_output_position(output, 0, 500);
    assert_eq!(f.logical[&output2].last(), Some(&(500, 0)));
}

#[test]
fn negative_output_position_remove_offset() {
    let mut f = Fixture::new();
    let output = f.new_output(-500, -500);
    f.check_output_position(output, 0, 0);

    f.move_output(output, 500, 500);
    f.check_output_position(output, 500, 500);
}

#[test]
fn scaled_output_popup() {
    let mut f = Fixture::new();
    let output = f.new_output(0, 0);
    assert!(f.state.handle_output_scale(output, 2));
    f.run();

    let (toplevel, _) = f.create_toplevel(1);
    f.move_surface_to_output(toplevel, output);

    let initial_dims = dims(50, 50, 50, 50);
    let (popup, _) = f.create_popup(2, 1, toplevel, initial_dims, 2.0);
    f.move_surface_to_output(popup, output);
    assert_eq!(
        initial_dims, f.windows[&2],
        "X11 dimensions changed after configure"
    );
}

#[test]
fn fractional_scale_popup() {
    let mut f = Fixture::new_fractional();
    let output = f.new_output(0, 0);
    let (toplevel, _) = f.create_toplevel(1);
    f.state.preferred_scale(toplevel, 180); // 1.5 scale
    f.move_surface_to_output(toplevel, output);

    let initial_dims = dims(60, 60, 60, 60);
    f.create_popup(2, 1, toplevel, initial_dims, 1.5);
    assert_eq!(
        initial_dims, f.windows[&2],
        "X11 dimensions changed after configure"
    );
}

#[test]
fn scaled_output_small_popup() {
    let mut f = Fixture::new();
    let output = f.new_output(0, 0);
    assert!(f.state.handle_output_scale(output, 2));
    f.run();

    let (toplevel, _) = f.create_toplevel(1);
    f.move_surface_to_output(toplevel, output);

    let (popup, _) = f.create_popup(2, 1, toplevel, dims(50, 50, 1, 1), 2.0);
    f.move_surface_to_output(popup, output);
    assert!(f.windows[&2].width > 0);
    assert!(f.windows[&2].height > 0);
}

#[test]
fn fractional_scale_small_popup() {
    let mut f = Fixture::new_fractional();
    let output = f.new_output(0, 0);
    let (toplevel, _) = f.create_toplevel(1);
    assert!(f.state.preferred_scale(toplevel, 180)); // 1.5 scale
    f.move_surface_to_output(toplevel, output);
    assert_eq!(f.update_viewport(toplevel), (66, 66));

    let (_, plan) = f.create_popup(2, 1, toplevel, dims(0, 0, 1, 1), 1.5);
    assert!(f.windows[&2].width > 0);
    assert!(f.windows[&2].height > 0);
    assert_eq!((plan.width, plan.height), (1, 1));

    let Reconfigure::Popup(reposition) = f.state.reconfigure_window(2, dims(0, 0, 2, 1), POOL)
    else {
        panic!("popup was not repositioned");
    };
    assert_eq!((reposition.width, reposition.height), (2, 1));
    assert_eq!(scale_of(reposition.scale), 1.5);
    assert_eq!((reposition.width as f64 / 1.5) as i32, 1);
}

#[test]
fn toplevel_size_limits_scaled() {
    fn hints(min: i32, max: i32) -> WmNormalHints {
        WmNormalHints {
            min_size: Some(WinSize {
                width: min,
                height: min,
            }),
            max_size: Some(WinSize {
                width: max,
                height: max,
            }),
        }
    }
    fn limits(f: &mut Fixture, surface: u64) -> ((i32, i32), (i32, i32)) {
        let parts = f.state.parts_of(surface).unwrap();
        let d = parts.data.unwrap().attrs.dims;
        let update = f
            .state
            .update_surface_viewport(surface, d.width as i32, d.height as i32)
            .unwrap();
        let limits = update.limits.unwrap();
        let scale = scale_of(limits.scale);
        let limit = |size: WinSize| {
            (
                (size.width as f64 / scale) as i32,
                decorated_height(
                    (size.height as f64 / scale) as i32,
                    limits.decorations_height,
                ),
            )
        };
        (
            limit(limits.hints.min_size.unwrap()),
            limit(limits.hints.max_size.unwrap()),
        )
    }

    let mut f = Fixture::new();
    let output = f.new_output(0, 0);
    assert!(f.state.handle_output_scale(output, 2));
    f.run();

    f.new_window(1, false, dims(0, 0, 50, 50));
    assert!(f.state.set_size_hints(1, hints(20, 100)).is_none());
    let (surface, _) = f.map_window(1);
    f.configure_toplevel(surface, 50, 50, false);
    f.move_surface_to_output(surface, output);
    assert_eq!(limits(&mut f, surface), ((10, 10), (50, 50)));

    assert!(f.state.set_size_hints(1, hints(40, 200)).is_some());
    assert_eq!(limits(&mut f, surface), ((20, 20), (100, 100)));

    // test sizing with decorations
    assert!(f.state.decoration_configure(surface, false, POOL));
    f.configure_toplevel(surface, 100, 100, false);
    assert_eq!(limits(&mut f, surface), ((20, 45), (100, 125)));
}

#[test]
fn subpopup_positioning() {
    let mut f = Fixture::new();
    f.add_pointer();
    let (toplevel, _) = f.create_toplevel(1);
    f.move_pointer_to(toplevel, 0.0, 0.0);

    let (popup, _) = f.create_popup(2, 1, toplevel, dims(25, 25, 50, 50), 1.0);
    f.move_pointer_to(popup, 1.0, 1.0);

    f.create_popup(3, 1, toplevel, dims(50, 50, 50, 50), 1.0);
    assert_eq!(f.windows[&3].x, 50);
    assert_eq!(f.windows[&3].y, 50);
}

#[test]
fn transient_for_toplevel() {
    let mut f = Fixture::new();
    let (toplevel, _) = f.create_toplevel(1);

    f.new_window(2, false, dims(0, 0, 50, 50));
    f.state.set_transient_for(2, 1);
    let (_, plan) = f.map_window(2);
    let RolePlan::Toplevel(plan) = plan else {
        panic!("wrong role: {plan:?}");
    };
    assert_eq!(plan.parent, Some(toplevel));
}

#[test]
fn touch_fractional_scale() {
    let mut f = Fixture::new_fractional();
    let output = f.new_output(0, 0);
    let (surface, _) = f.create_toplevel(1);
    f.move_surface_to_output(surface, output);

    let touch = |f: &mut Fixture| {
        let outcome = f.state.touch_down(f.seat, SurfaceRef::Entity(surface));
        let TouchDown::Window {
            surface: over,
            window,
            scale,
        } = outcome
        else {
            panic!("Got unexpected outcome: {outcome:?}");
        };
        assert_eq!((over, window), (surface, 1));
        assert_eq!(f.state.touch_scale(f.seat), Some(scale));
        (20.0 * scale_of(scale), 40.0 * scale_of(scale))
    };

    assert_eq!(touch(&mut f), (20.0, 40.0));
    f.state.preferred_scale(surface, 180); // 1.5 scale
    assert_eq!(touch(&mut f), (20.0 * 1.5, 40.0 * 1.5));
}

#[test]
fn tablet_tool_fractional_scale() {
    let mut f = Fixture::new_fractional();
    let output = f.new_output(0, 0);
    let (surface, _) = f.create_toplevel(1);
    f.move_surface_to_output(surface, output);
    let tablet = f.state.spawn(Parts::empty());
    let tool = f.state.spawn(Parts::empty());
    let motion = |f: &Fixture| {
        let scale = scale_of(f.state.tool_scale(tool));
        (20.0 * scale, 40.0 * scale)
    };

    assert_eq!(
        f.state.tool_proximity_in(tool, surface, Some(tablet)),
        Some(1)
    );
    assert_eq!(motion(&f), (20.0, 40.0));

    f.state.preferred_scale(surface, 180); // 1.5 scale
    assert_eq!(
        f.state.tool_proximity_in(tool, surface, Some(tablet)),
        Some(1)
    );
    assert_eq!(motion(&f), (20.0 * 1.5, 40.0 * 1.5));

    // Neither a stale surface nor a stale tablet is approached.
    assert_eq!(f.state.tool_proximity_in(tool, tablet, Some(tablet)), None);
    assert_eq!(f.state.tool_proximity_in(tool, surface, None), None);
}

#[test]
fn output_updated_before_x_connection() {
    let mut f = Fixture::new();
    let output = f.new_output(-20, -20);

    let (surface, _) = f.create_toplevel(1);
    f.move_surface_to_output(surface, output);
    f.run();
    assert_eq!(f.windows[&1].x, 0);
    assert_eq!(f.windows[&1].y, 0);
}

#[test]
fn quick_destroy_window_with_serial() {
    let mut f = Fixture::new();
    f.new_window(1, false, dims(0, 0, 50, 50));
    f.state.map_window(1, 0, POOL);
    let surface = f.state.new_surface();
    let serial = f.next_serial();
    f.state.set_window_serial(1, serial);
    f.state.unmap_window(1);
    f.state.destroy_window(1);
    assert!(f.state.set_surface_serial(surface, serial, POOL).is_none());
    f.run();
    assert!(
        f.state.parts_of(surface).unwrap().role.is_none(),
        "Surface unexpectedly has role"
    );
}

#[test]
fn scaled_pointer_lock_position_hint() {
    let mut f = Fixture::new_fractional();
    f.add_pointer();
    let output = f.new_output(0, 0);
    let (surface, _) = f.create_toplevel(1);
    f.state.preferred_scale(surface, 180); // 1.5 scale
    f.move_surface_to_output(surface, output);

    let lock = f.state.lock_pointer(surface).expect("Missing lock");
    let scale = scale_of(f.state.lock_scale(lock).unwrap());
    assert_eq!((75.0 / scale, 75.0 / scale), (50.0, 50.0));

    f.state.unlock_pointer(lock);
    assert_eq!(f.state.lock_scale(lock), None);
    assert_eq!(f.state.lock_pointer(lock), None);
}

#[test]
fn client_side_decorations() {
    let mut f = Fixture::new();
    let (surface, plan) = f.create_toplevel(1);
    assert_eq!(plan.decoration_mode, Some(DecorationMode::ServerSide));
    assert!(!plan.satellite);

    assert!(f.state.decoration_configure(surface, false, POOL));
    f.configure_toplevel(surface, 100, 100, false);
    assert_eq!(f.windows[&1], dims(0, 0, 100, 75));
    let decorations = f.toplevel(surface).decoration.satellite.unwrap();
    assert_eq!(decorations.titlebar_height(), 25);
    assert!(decorations.should_draw);
    assert_eq!(TITLEBAR_HEIGHT, 25);

    f.configure_toplevel(surface, 100, 100, true);
    assert_eq!(f.windows[&1], dims(0, 0, 100, 100));
    assert!(!f.toplevel(surface).decoration.satellite.unwrap().should_draw);

    assert!(!f.state.decoration_configure(surface, true, POOL));
    f.configure_toplevel(surface, 100, 100, false);
    assert_eq!(f.windows[&1], dims(0, 0, 100, 100));
    assert!(f.toplevel(surface).decoration.satellite.is_none());
}

#[test]
fn client_side_decorations_no_global() {
    let mut f = Fixture::with_features(CompositorFeatures {
        activation: true,
        fractional_scale: false,
        decoration_manager: false,
        xdg_wm_base_version: 6,
    });
    f.new_window(1, false, dims(0, 0, 50, 50));
    let (surface, plan) = f.map_window(1);
    let RolePlan::Toplevel(plan) = plan else {
        panic!("got surface with unexpected role: {plan:?}");
    };
    assert_eq!(plan.decoration_mode, None);
    assert!(plan.satellite);
    let decorations = f.toplevel(surface).decoration.satellite.unwrap();
    assert_eq!(decorations.titlebar_height(), 25);
}

#[test]
fn resize_decorations_on_reconfigure() {
    let mut f = Fixture::new();
    let (surface, _) = f.create_toplevel(1);
    assert!(f.state.decoration_configure(surface, false, POOL));
    f.configure_toplevel(surface, 100, 100, false);
    assert_eq!(f.windows[&1], dims(0, 0, 100, 75));
    let decorations = f.toplevel(surface).decoration.satellite.unwrap();
    assert_eq!((decorations.width, decorations.titlebar_height()), (100, 25));

    assert!(matches!(
        f.state.reconfigure_window(1, dims(0, 0, 200, 200), POOL),
        Reconfigure::Viewport(entity) if entity == surface
    ));
    f.update_viewport(surface);
    let decorations = f.toplevel(surface).decoration.satellite.unwrap();
    assert_eq!((decorations.width, decorations.titlebar_height()), (200, 25));
}

/// A pointer that enters a popup is announced once it moves.
#[test]
fn popup_pointer_motion_workaround() {
    let mut f = Fixture::new();
    f.add_pointer();
    let (toplevel, _) = f.create_toplevel(1);
    let (popup, _) = f.create_popup(2, 1, toplevel, dims(25, 25, 50, 50), 1.0);

    assert_eq!(f.move_pointer_to(popup, 1.0, 1.0), vec![]);
    let actions = f.state.handle_pointer_event(
        f.seat,
        PointerEvent::Motion {
            time: 7,
            surface_x: fixed(2.0),
            surface_y: fixed(3.0),
        },
    );
    assert!(actions
        .iter()
        .any(|action| matches!(action, PointerAction::Enter { surface, .. } if *surface == popup)));
    assert!(actions
        .iter()
        .any(|action| matches!(action, PointerAction::Motion { time: 7, .. })));
}

/// A seat that is bound has a live object, which the pointer does not share.
#[test]
fn seats_are_bound_with_their_global() {
    let mut f = Fixture::new();
    let parts = f.state.parts_of(f.seat).unwrap();
    assert_eq!(parts.global, Some(1000));
    assert_eq!(parts.seat, Some(Handle { id: 1, alive: true }));
    f.add_pointer();
    let parts = f.state.parts_of(f.seat).unwrap();
    assert_eq!(parts.pointer, Some(Handle { id: 2, alive: true }));
    assert!(parts.server_pointer);
    assert_eq!(
        f.state.release_pointer(f.seat),
        Some(Handle { id: 2, alive: true })
    );
    assert_eq!(f.state.release_pointer(f.seat), None);
    assert!(!f.state.parts_of(f.seat).unwrap().server_pointer);
}

#[test]
fn decorations_are_drawn_anew_where_they_are_drawn() {
    let mut f = Fixture::new();
    let (first, _) = f.create_toplevel(1);
    f.create_toplevel(2);
    assert!(f.state.decorations_to_redraw().is_empty());
    assert!(f.state.decoration_configure(first, false, POOL));
    assert!(f.state.decorations_to_redraw().is_empty());
    f.configure_toplevel(first, 100, 100, false);
    assert_eq!(f.state.decorations_to_redraw(), vec![first]);
    assert!(matches!(
        f.state.draw_decorations(first, 100, 75),
        DrawDecision::Redraw { .. }
    ));
}
