use xwayland_satellite::configure::{ConfigureMove, ConfigureResize, MoveRequest, Reconfigure};
use xwayland_satellite::decorated::{
    CursorAction, DecorationClick, DecorationRelease,
};
use xwayland_satellite::decoration::DecorationPart;
use xwayland_satellite::focus::{FocusRequest, TouchDown};
use xwayland_satellite::geometry::{ConfigWindowMask, PendingSurfaceState, WindowDims};
use xwayland_satellite::globals::{Global, SupportedVersions};
use xwayland_satellite::output::{OutputScaleFactor, SurfaceScaleFactor};
use xwayland_satellite::pointer::{
    find_move_candidate, ForwardedPointerCursor, NoMoveCandidate, PointerAction, PointerEvent,
    SurfaceRef, BUTTON_LEFT,
};
use xwayland_satellite::resize::{CursorShape, MoveResizeDirection, ResizeEdge};
use xwayland_satellite::role::SurfaceRole;
use xwayland_satellite::roles::RolePlan;
use xwayland_satellite::state::{
    CompositorFeatures, FocusData, InnerServerState, Interface, PendingActivation,
};
use xwayland_satellite::titlebar::DrawDecision;
use xwayland_satellite::viewport::decorated_height;
use xwayland_satellite::window::{
    ConfigureInteraction, Decorations, InitialToplevelMapState, WindowData, WindowOutputOffset,
    DEFERRED_INITIAL_TOPLEVEL_TIMEOUT,
};
use xwayland_satellite::windows::ToplevelRequest;
use xwayland_satellite::world::{Handle, SurfaceAttach, SurfaceSerial};
use xwayland_satellite::xstate::SetState;

const POOL: bool = true;

fn dims(x: i16, y: i16, width: u16, height: u16) -> WindowDims {
    WindowDims {
        x,
        y,
        width,
        height,
    }
}

fn mask(x: bool, y: bool, width: bool, height: bool) -> ConfigWindowMask {
    ConfigWindowMask {
        x,
        y,
        width,
        height,
    }
}

const ALL: ConfigWindowMask = ConfigWindowMask {
    x: true,
    y: true,
    width: true,
    height: true,
};

fn state(decoration_manager: bool) -> InnerServerState {
    InnerServerState::new(CompositorFeatures {
        activation: true,
        fractional_scale: false,
        decoration_manager,
        xdg_wm_base_version: 6,
    })
}

/// Gives a window a surface before it is mapped.
fn with_surface(state: &mut InnerServerState, window: u32) -> u64 {
    let surface = state.new_surface();
    let serial = SurfaceSerial {
        low: window,
        high: 0,
    };
    state.set_window_serial(window, serial);
    assert!(state.surface_is_joinable(surface, serial));
    assert!(state.set_surface_serial(surface, serial, POOL).is_none());
    assert_eq!(state.lookup(window).unwrap().0, surface);
    surface
}

/// A mapped, configured toplevel that the pointer pressed, and the seat.
fn pressed_toplevel(state: &mut InnerServerState, window: u32, serial: u32) -> (u64, u64) {
    state.new_window(window, false, dims(10, 20, 100, 200), None);
    let surface = with_surface(state, window);
    let created = state.map_window(window, 0, POOL).expect("no role");
    assert!(matches!(created.plan, RolePlan::Toplevel(_)));
    state.toplevel_configure(surface, 100, 200, false);
    state.begin_configure(surface);
    let seat = pointing_seat(state);
    state.handle_pointer_event(seat, enter(surface, 1));
    state.handle_pointer_event(seat, button(serial, true));
    (surface, seat)
}

fn pointing_seat(state: &mut InnerServerState) -> u64 {
    state.new_global(
        &Global {
            name: 9,
            interface: "wl_seat".into(),
            version: 9,
        },
        &versions(),
    );
    let seat = state.bind_seat(9, 90);
    state.get_pointer(seat, 91);
    seat
}

fn versions() -> SupportedVersions {
    SupportedVersions {
        compositor: 6,
        shm: 1,
        seat: 8,
        output: 4,
        relative_pointer: 1,
        drm: 2,
        dmabuf: 4,
        xdg_output: 3,
        pointer_constraints: 1,
        tablet: 1,
        drm_syncobj: 1,
    }
}

fn enter(surface: u64, serial: u32) -> PointerEvent {
    PointerEvent::Enter {
        serial,
        surface: SurfaceRef::Entity(surface),
        surface_x: 0,
        surface_y: 0,
    }
}

fn button(serial: u32, pressed: bool) -> PointerEvent {
    PointerEvent::Button {
        serial,
        time: 0,
        button: BUTTON_LEFT,
        pressed,
    }
}

fn data(state: &InnerServerState, window: u32) -> WindowData {
    state.lookup_data(window).unwrap().2
}

#[test]
fn a_window_without_a_place_waits_for_its_geometry() {
    let mut state = state(true);
    state.new_window(1, false, dims(0, 0, 50, 50), None);
    with_surface(&mut state, 1);
    assert!(state.map_window(1, 1000, POOL).is_none());
    assert_eq!(
        data(&state, 1).deferred_initial_toplevel_deadline(),
        Some(1000 + DEFERRED_INITIAL_TOPLEVEL_TIMEOUT)
    );
    assert!(state.expired_windows(1199).is_empty());
    assert_eq!(state.expired_windows(1200), vec![1]);
    let released = state.release_expired_deferred_initial_toplevels(1200, POOL);
    assert_eq!(released.len(), 1);
    assert_eq!(released[0].0, 1);
    assert!(released[0].1.is_some());
    assert!(state
        .release_expired_deferred_initial_toplevels(5000, POOL)
        .is_empty());
    assert_eq!(
        data(&state, 1).initial_toplevel_map_state,
        InitialToplevelMapState::Released
    );
}

#[test]
fn each_window_that_waited_is_released_once() {
    let mut state = state(true);
    for window in [1, 2, 3] {
        state.new_window(window, false, dims(0, 0, 50, 50), None);
        with_surface(&mut state, window);
        assert!(state
            .map_window(window, 1000 + u64::from(window), POOL)
            .is_none());
    }
    let mut expired = state.expired_windows(1202);
    expired.sort();
    assert_eq!(expired, vec![1, 2]);
    let mut released: Vec<u32> = state
        .release_expired_deferred_initial_toplevels(1203, POOL)
        .iter()
        .map(|(window, _)| *window)
        .collect();
    released.sort();
    assert_eq!(released, vec![1, 2, 3]);
}

#[test]
fn geometry_ends_the_wait() {
    let mut state = state(true);
    state.new_window(1, false, dims(0, 0, 50, 50), None);
    let surface = with_surface(&mut state, 1);
    assert!(state.map_window(1, 0, POOL).is_none());
    let place = dims(5, 6, 70, 80);
    assert!(state.window_finds_place(1, place));
    let outcome = state.reconfigure_window(1, place, POOL);
    let Reconfigure::Released(Some(created)) = outcome else {
        panic!("unexpected outcome: {outcome:?}");
    };
    assert!(matches!(created.plan, RolePlan::Toplevel(plan) if plan.entity == surface));
    assert_eq!(data(&state, 1).attrs.dims, place);
    assert!(matches!(
        state.reconfigure_window(1, place, POOL),
        Reconfigure::Nothing
    ));
    // From now on only the size is taken over.
    assert!(matches!(
        state.reconfigure_window(1, dims(9, 9, 90, 90), POOL),
        Reconfigure::Viewport(entity) if entity == surface
    ));
    assert_eq!(data(&state, 1).attrs.dims, dims(5, 6, 90, 90));
}

#[test]
fn windows_that_owe_nothing_to_their_place_do_not_wait() {
    let mut data = WindowData::new(false, dims(0, 0, 10, 10));
    assert!(data.should_defer_initial_toplevel_map());
    data.attrs.decorations = Some(Decorations {
        serverside: true,
        resize_handles: true,
    });
    assert!(!data.should_defer_initial_toplevel_map());
    assert!(!WindowData::new(true, dims(0, 0, 10, 10)).should_defer_initial_toplevel_map());
    assert!(!WindowData::new(false, dims(1, 0, 10, 10)).should_defer_initial_toplevel_map());
    data.defer_initial_toplevel_map(7);
    assert!(data.has_deferred_initial_toplevel_map());
    assert!(data.release_initial_toplevel_map());
    assert!(!data.release_initial_toplevel_map());
}

#[test]
fn popups_need_a_place() {
    let mut state = state(true);
    state.new_window(1, false, dims(10, 10, 50, 50), None);
    state.new_window(2, true, dims(0, 0, 20, 20), None);
    with_surface(&mut state, 2);
    assert!(state.window_finds_place(2, dims(0, 0, 20, 20)));
    // The window that popups belong to has no surface.
    state.last_hovered = Some(1);
    assert!(!state.window_finds_place(2, dims(0, 0, 20, 20)));
    // As large as an output it needs none.
    let output = state.bind_output(3);
    state.handle_output_mode(output, true, 640, 480);
    assert!(state.window_finds_place(2, dims(0, 0, 640, 480)));
}

#[test]
fn popups_are_focused_with_their_first_configuration() {
    let mut state = state(true);
    pressed_toplevel(&mut state, 1, 5);
    state.new_window(2, true, dims(30, 40, 20, 20), None);
    let popup = with_surface(&mut state, 2);
    let created = state.map_window(2, 0, POOL).unwrap();
    assert!(matches!(created.plan, RolePlan::Popup(plan) if plan.entity == popup));
    let place = PendingSurfaceState {
        x: 1,
        y: 2,
        width: 20,
        height: 20,
    };
    state.popup_configure(popup, place, false);
    assert_eq!(state.to_focus, None);
    state.popup_configure(popup, place, true);
    assert_eq!(
        state.to_focus,
        Some(FocusData {
            window: 2,
            output: None
        })
    );
    state.begin_configure(popup);
    state.to_focus = None;
    state.popup_configure(popup, place, true);
    assert_eq!(state.to_focus, None);
}

#[test]
fn configure_requests_place_windows_without_a_role() {
    let mut state = state(true);
    state.new_window(1, false, dims(10, 20, 50, 60), None);
    let asked = mask(true, false, false, true);
    assert!(state.should_forward_configure_position(1, asked));
    assert!(state
        .handle_configure_request(1, asked, dims(1, 2, 3, 4), 0, POOL)
        .is_none());
    assert_eq!(data(&state, 1).attrs.dims, dims(1, 20, 50, 4));
    with_surface(&mut state, 1);
    state.map_window(1, 0, POOL).unwrap();
    // A toplevel is placed by the compositor.
    assert!(!state.should_forward_configure_position(1, mask(true, true, false, false)));
    assert!(state.should_forward_configure_position(1, ALL));
    assert!(state.should_forward_configure_position(77, ALL));
    assert!(state
        .handle_configure_request(1, ALL, dims(9, 9, 9, 9), 0, POOL)
        .is_none());
    assert_eq!(data(&state, 1).attrs.dims, dims(1, 20, 50, 4));
}

#[test]
fn a_press_lets_a_window_drag_itself() {
    let mut state = state(true);
    let (surface, _) = pressed_toplevel(&mut state, 1, 5);
    let moved = dims(11, 20, 100, 200);
    assert_eq!(
        state.begin_configure_move(1, moved, ALL),
        ConfigureMove::Start(MoveRequest {
            entity: surface,
            seat: 90,
            serial: 5
        })
    );
    assert!(state.has_active_configure_interaction(1));
    assert_eq!(
        state.begin_configure_move(1, moved, ALL),
        ConfigureMove::Moving
    );
    // A new size is no move, and while the window is moved no resize either.
    assert_eq!(
        state.begin_configure_move(1, dims(11, 20, 101, 200), ALL),
        ConfigureMove::NotHandled
    );
    assert_eq!(
        state.begin_configure_resize(1, dims(10, 20, 101, 200), ALL),
        ConfigureResize::Handled
    );
    assert_eq!(state.clear_active_configure_interactions(), vec![surface]);
    assert!(!state.has_active_configure_interaction(1));
    assert!(state.clear_active_configure_interactions().is_empty());
}

#[test]
fn a_press_lets_a_window_resize_itself() {
    let mut state = state(true);
    let (surface, _) = pressed_toplevel(&mut state, 1, 5);
    let start = |outcome| match outcome {
        ConfigureResize::Start(Some(request)) => (request.serial, request.edge),
        other => panic!("unexpected outcome: {other:?}"),
    };
    assert_eq!(
        start(state.begin_configure_resize(1, dims(10, 20, 110, 200), ALL)),
        (5, ResizeEdge::Right)
    );
    // The same request again, another edge, and one that contradicts.
    assert_eq!(
        state.begin_configure_resize(1, dims(10, 20, 110, 200), ALL),
        ConfigureResize::Handled
    );
    assert_eq!(
        start(state.begin_configure_resize(1, dims(10, 20, 110, 210), ALL)),
        (5, ResizeEdge::BottomRight)
    );
    assert_eq!(
        state.begin_configure_resize(1, dims(0, 20, 110, 200), ALL),
        ConfigureResize::Handled
    );
    assert_eq!(
        data(&state, 1).configure_interaction,
        Some(ConfigureInteraction::Resize {
            serial: 5,
            direction: MoveResizeDirection::SizeBottomRight
        })
    );
    assert!(state.clear_configure_interaction_for_window(1));
    assert!(!state.clear_configure_interaction_for_entity(surface));
    assert_eq!(
        state.begin_configure_resize(1, dims(10, 20, 100, 200), ALL),
        ConfigureResize::NotHandled
    );
    // Borders lock the resize that they start.
    let request = state.resize_window_by_edge(1, ResizeEdge::TopLeft).unwrap();
    assert_eq!(request.edge, ResizeEdge::TopLeft);
    assert_eq!(
        state.begin_configure_resize(1, dims(10, 20, 500, 200), ALL),
        ConfigureResize::Handled
    );
}

#[test]
fn without_a_press_nothing_is_dragged() {
    let mut state = state(true);
    state.new_window(1, false, dims(10, 20, 100, 200), None);
    with_surface(&mut state, 1);
    state.map_window(1, 0, POOL).unwrap();
    assert_eq!(state.move_window(1), None);
    assert_eq!(
        state.resize_window(1, MoveResizeDirection::SizeTop),
        None
    );
    assert_eq!(
        state.begin_configure_move(1, dims(11, 20, 100, 200), ALL),
        ConfigureMove::NotHandled
    );
    assert!(state.begin_wayland_move_interaction(1, 3));
    assert!(!state.begin_wayland_move_interaction(2, 3));
}

#[test]
fn states_of_toplevels() {
    let mut state = state(true);
    let (surface, _) = pressed_toplevel(&mut state, 1, 5);
    assert_eq!(
        state.set_maximized(1, SetState::Toggle),
        Some(ToplevelRequest::SetMaximized)
    );
    assert_eq!(
        state.set_fullscreen(1, SetState::Remove),
        Some(ToplevelRequest::UnsetFullscreen)
    );
    assert_eq!(state.set_minimized(1), Some(ToplevelRequest::SetMinimized));
    assert_eq!(state.set_minimized(2), None);
    assert_eq!(
        state.toplevel_configure(surface, 10, 10, true),
        Some(true)
    );
    assert_eq!(state.toplevel_configure(surface, 10, 10, true), None);
    assert_eq!(
        state.set_fullscreen(1, SetState::Toggle),
        Some(ToplevelRequest::UnsetFullscreen)
    );
}

#[test]
fn surfaces_hold_back_until_configured() {
    let mut state = state(true);
    state.new_window(1, false, dims(10, 20, 100, 200), None);
    let surface = with_surface(&mut state, 1);
    let attach = SurfaceAttach {
        buffer: Some(3),
        x: 0,
        y: 0,
    };
    assert!(state.surface_attach(surface, attach));
    assert!(state.surface_frame(surface, 8));
    state.map_window(1, 0, POOL).unwrap();
    assert!(!state.surface_is_configured(surface));
    assert!(!state.surface_attach(surface, attach));
    assert!(!state.surface_frame(surface, 8));
    state.begin_configure(surface);
    let held = state.finish_configure(surface);
    assert_eq!(held.attach, Some(attach));
    assert_eq!(held.callback, Some(8));
    assert_eq!(state.finish_configure(surface).attach, None);
    assert!(state.surface_attach(surface, attach));

    let role = state.surface_destroy(surface);
    assert!(matches!(role, Some(SurfaceRole::Toplevel(Some(_)))));
    assert!(!state.parts_of(surface).unwrap().surface);
    assert!(state.surface_destroy(12345).is_none());
}

#[test]
fn a_destroyed_surface_has_no_decoration_object() {
    let mut state = state(true);
    let (surface, _) = pressed_toplevel(&mut state, 1, 5);
    let wl = |state: &InnerServerState| match state.parts_of(surface).unwrap().role {
        Some(SurfaceRole::Toplevel(Some(toplevel))) => toplevel.decoration.wl,
        _ => panic!("no toplevel"),
    };
    let asking = |serverside| Decorations {
        serverside,
        resize_handles: true,
    };
    assert!(wl(&state));
    assert!(state.set_win_decorations(1, asking(false)).is_some());

    let role = state.surface_destroy(surface);
    assert!(matches!(
        role,
        Some(SurfaceRole::Toplevel(Some(toplevel))) if toplevel.decoration.wl
    ));
    assert!(!wl(&state));
    assert_eq!(state.set_win_decorations(1, asking(true)), None);
    assert_eq!(
        state.parts_of(surface).unwrap().data.unwrap().attrs.decorations,
        Some(asking(true))
    );
}

#[test]
fn decorated_windows_react_to_clicks() {
    let mut state = state(false);
    let (surface, _) = pressed_toplevel(&mut state, 1, 5);
    let update = state.update_surface_viewport(surface, 300, 75).unwrap();
    assert_eq!(update.draw, DrawDecision::Redraw { callback: None });
    let mut parts = state.parts_of(surface).unwrap();
    let mut decorations = xwayland_satellite::decorated::satellite(&parts).unwrap();
    decorations.plan_titlebar(300, 25, 24);
    parts = xwayland_satellite::surface_events::replace_satellite(&parts, Some(decorations));
    state.set_parts(surface, parts);
    assert_eq!(state.decorations_to_redraw(), vec![surface]);

    let titlebar = DecorationPart::Titlebar;
    let close = (277 * 256, 12 * 256);
    let maximize = (237 * 256, 12 * 256);
    let minimize = (197 * 256, 12 * 256);
    state.decoration_motion(surface, titlebar, close.0, close.1);
    assert_eq!(
        state.decoration_click(surface, 6),
        (DecorationClick::Nothing, true)
    );
    assert_eq!(
        state.decoration_release(surface),
        (DecorationRelease::Close { window: 1 }, true)
    );
    state.decoration_motion(surface, titlebar, maximize.0, maximize.1);
    state.decoration_click(surface, 7);
    assert_eq!(
        state.decoration_release(surface).0,
        DecorationRelease::ToggleMaximized(Some(ToplevelRequest::SetMaximized))
    );
    state.decoration_motion(surface, titlebar, minimize.0, minimize.1);
    state.decoration_click(surface, 8);
    assert_eq!(
        state.decoration_release(surface).0,
        DecorationRelease::Minimize {
            window: 1,
            request: Some(ToplevelRequest::SetMinimized)
        }
    );
    assert!(state.decoration_leave(surface));

    state.decoration_motion(surface, titlebar, 50 * 256, 12 * 256);
    assert_eq!(
        state.decoration_click(surface, 9),
        (DecorationClick::Move, false)
    );
    assert_eq!(
        data(&state, 1).configure_interaction,
        Some(ConfigureInteraction::Move { serial: 9 })
    );
    // While it is moved its borders cannot be dragged.
    let (motion, input_changed) = state
        .decoration_motion(surface, DecorationPart::Frame, 10 * 256, 60 * 256)
        .unwrap();
    assert_eq!(motion.edge, None);
    assert!(input_changed);
    state.clear_active_configure_interactions();
    let (motion, _) = state
        .decoration_motion(surface, DecorationPart::Frame, 10 * 256, 60 * 256)
        .unwrap();
    assert_eq!(motion.edge, Some(ResizeEdge::Left));
    let (click, redraw) = state.decoration_click(surface, 10);
    assert!(!redraw);
    let DecorationClick::Resize(Some(request)) = click else {
        panic!("unexpected click: {click:?}");
    };
    assert_eq!((request.edge, request.serial), (ResizeEdge::Left, 5));
    assert_eq!(
        state.decoration_motion(12345, titlebar, 0, 0),
        None
    );
}

#[test]
fn cursors_follow_the_borders() {
    let mut state = state(false);
    let (surface, seat) = pressed_toplevel(&mut state, 1, 5);
    // Before the pointer entered anything no shape can be set.
    assert_eq!(
        state.update_decoration_pointer_cursor(seat, Some(ResizeEdge::Top)),
        CursorAction::Nothing
    );
    let mut parts = state.parts_of(seat).unwrap();
    parts.enter_serial = Some(4);
    parts.shape_device = true;
    parts.resize_edge = None;
    state.set_parts(seat, parts);
    let shape = |shape| CursorAction::SetShape { serial: 4, shape };
    assert_eq!(
        state.update_decoration_pointer_cursor(seat, None),
        shape(CursorShape::Default)
    );
    assert_eq!(
        state.update_decoration_pointer_cursor(seat, None),
        CursorAction::Nothing
    );
    assert_eq!(
        state.update_decoration_pointer_cursor(seat, Some(ResizeEdge::TopLeft)),
        shape(CursorShape::NwseResize)
    );
    assert_eq!(
        state.update_pointer_resize_cursor(seat, Some(ResizeEdge::TopLeft)),
        CursorAction::Nothing
    );
    assert!(state.set_cursor(
        seat,
        ForwardedPointerCursor {
            surface: Some(surface),
            hotspot_x: 1,
            hotspot_y: 2
        }
    ));
    assert_eq!(
        state.update_pointer_resize_cursor(seat, None),
        CursorAction::Restore {
            serial: 4,
            surface: Some(surface),
            hotspot_x: 1,
            hotspot_y: 2
        }
    );
}

#[test]
fn focus_is_shown_by_decorations() {
    let mut state = state(false);
    let (first, seat) = pressed_toplevel(&mut state, 1, 5);
    state.update_surface_viewport(first, 300, 75);
    assert_eq!(
        state.apply_focus(),
        (FocusRequest::Nothing, (None, None))
    );
    assert!(state.keyboard_enter(seat, 6, SurfaceRef::Entity(first)));
    let (request, redraw) = state.apply_focus();
    assert!(matches!(request, FocusRequest::Window(focus) if focus.window == 1));
    assert_eq!(redraw, (None, Some(first)));
    assert_eq!(state.last_kb_serial.unwrap().serial, 6);
    state.keyboard_key(seat, 7);
    assert_eq!(state.last_kb_serial.unwrap().serial, 7);

    // Left and entered again in one batch: the enter wins.
    assert!(state.keyboard_leave(SurfaceRef::Entity(first), true));
    assert!(state.keyboard_enter(seat, 8, SurfaceRef::Entity(first)));
    let (request, redraw) = state.apply_focus();
    assert!(matches!(request, FocusRequest::Window(focus) if focus.window == 1));
    assert_eq!(redraw, (None, None));
    assert!(!state.keyboard_leave(SurfaceRef::Entity(first), false));
    assert!(state.keyboard_leave(SurfaceRef::Entity(first), true));
    assert_eq!(
        state.apply_focus(),
        (FocusRequest::NoWindow, (Some(first), None))
    );
    assert_eq!(state.last_focused_toplevel, None);
}

#[test]
fn tokens_wait_for_their_windows() {
    let mut state = state(true);
    let token = |window, token: &str| PendingActivation {
        window,
        token: token.into(),
    };
    state.new_window(1, false, dims(1, 1, 5, 5), None);
    state.new_window(2, false, dims(1, 1, 5, 5), None);
    let surface = with_surface(&mut state, 2);
    state.pending_activations = vec![
        token(1, "a"),
        token(2, "b"),
        token(3, "c"),
        token(2, "d"),
    ];
    let ready = state.handle_activations();
    let ready: Vec<_> = ready
        .iter()
        .map(|(entity, pending)| (*entity, pending.token.as_str()))
        .collect();
    assert_eq!(ready, vec![(surface, "b"), (surface, "d")]);
    let rest: Vec<_> = state
        .pending_activations
        .iter()
        .map(|pending| pending.token.as_str())
        .collect();
    assert_eq!(rest, vec!["a", "c"]);
}

#[test]
fn processes_are_read_once() {
    let mut state = state(true);
    assert!(!state.note_pid(None));
    assert!(state.note_pid(Some(7)));
    assert!(!state.note_pid(Some(7)));
    assert!(state.note_pid(Some(8)));
}

#[test]
fn the_smallest_scale_is_told() {
    let mut state = state(true);
    assert_eq!(state.smallest_output_scale(), SurfaceScaleFactor { n120: 120 });
    let first = state.bind_output(1);
    let second = state.bind_output(2);
    state.handle_output_scale(first, 3);
    state.handle_output_scale(second, 2);
    let scale = SurfaceScaleFactor { n120: 240 };
    assert_eq!(state.settle_scale(), Some(scale));
    assert_eq!(state.settle_scale(), None);
    assert_eq!(state.new_global_scale(), Some(scale));
    assert_eq!(state.new_global_scale(), None);
    state.published_x11_scale = scale;
    // A hundredth more or less is not told.
    assert!(state.update_output_scale(second, OutputScaleFactor::Fractional(241)));
    state.updated_outputs.push(second);
    assert_eq!(
        state.settle_scale(),
        Some(SurfaceScaleFactor { n120: 241 })
    );
    assert_eq!(state.new_global_scale(), None);
    // A fractional scale stays.
    assert!(!state.update_output_scale(second, OutputScaleFactor::Output(1)));
}

#[test]
fn batches_are_settled_once() {
    let mut state = state(false);
    let (surface, seat) = pressed_toplevel(&mut state, 1, 5);
    state.update_surface_viewport(surface, 300, 75);
    let output = state.bind_output(3);
    state.handle_output_geometry(output, -40, 30, 0);
    state.handle_output_scale(output, 2);
    assert!(state.keyboard_enter(seat, 6, SurfaceRef::Entity(surface)));
    state.pending_activations = vec![PendingActivation {
        window: 1,
        token: "token".into(),
    }];
    let outcome = state.settle_batch();
    assert_eq!(outcome.positions.len(), 1);
    assert_eq!((outcome.positions[0].x, outcome.positions[0].y), (0, 30));
    assert_eq!(outcome.scale, Some(SurfaceScaleFactor { n120: 240 }));
    assert!(matches!(outcome.focus, FocusRequest::Window(focus) if focus.window == 1));
    assert_eq!(outcome.redraw, (None, Some(surface)));
    assert_eq!(outcome.activations.len(), 1);
    assert_eq!(outcome.activations[0].0, surface);

    let outcome = state.settle_batch();
    assert!(outcome.positions.is_empty() && outcome.configures.is_empty());
    assert_eq!(outcome.scale, None);
    assert_eq!(outcome.focus, FocusRequest::Nothing);
    assert_eq!(outcome.redraw, (None, None));
    assert!(outcome.activations.is_empty());
}

#[test]
fn surfaces_follow_the_scale() {
    let mut state = state(true);
    let (surface, _) = pressed_toplevel(&mut state, 1, 5);
    let scale = SurfaceScaleFactor { n120: 240 };
    let surfaces = state.surfaces_to_rescale(scale);
    assert_eq!(surfaces.len(), 1);
    assert_eq!(surfaces[0].entity, surface);
    assert_eq!(surfaces[0].old_scale.n120, 120);
    assert_eq!((surfaces[0].width, surfaces[0].height), (100, 200));
    assert!(state.rescale_surface(surface, scale, 200, 400));
    assert!(!state.rescale_surface(surface, scale, 200, 400));
    assert!(state.surfaces_to_rescale(scale).is_empty());
    let configures = state.flush_pending_x11_configures();
    assert_eq!(configures.len(), 1);
    assert_eq!(
        (configures[0].dims.width, configures[0].dims.height),
        (200, 400)
    );
    assert!(state.flush_pending_x11_configures().is_empty());
}

#[test]
fn globals_are_offered_by_name() {
    let mut state = state(true);
    assert!(state.room_left());
    let global = |name, interface: &str, version| Global {
        name,
        interface: interface.into(),
        version,
    };
    let offered = state
        .new_global(&global(4, "wl_output", 7), &versions())
        .unwrap();
    assert_eq!((offered.interface, offered.version), (Interface::Output, 4));
    assert!(state
        .new_global(&global(5, "xdg_wm_base", 6), &versions())
        .is_none());
    let output = state.bind_output(4);
    assert!(state.bind_xdg_output(output));
    assert!(!state.bind_xdg_output(12345));
    let removed = state.remove_global(4).unwrap();
    assert_eq!(removed.interface, Interface::Output);
    assert!(state.remove_global(4).is_none());
    let parts = state.parts_of(output).unwrap();
    assert!(parts.output_dims.is_none() && parts.output_scale.is_none());
}

#[test]
fn removed_seats_move_nothing() {
    let mut state = state(true);
    let (surface, seat) = pressed_toplevel(&mut state, 1, 5);
    assert_eq!(
        find_move_candidate(&state.world, &state.globals_map, surface),
        Ok(seat)
    );
    state.remove_global(9).unwrap();
    assert_eq!(
        find_move_candidate(&state.world, &state.globals_map, surface),
        Err(NoMoveCandidate::Missing)
    );
    // A press that was queued behind the removal is of no use either.
    state.handle_pointer_event(seat, button(6, true));
    assert_eq!(
        find_move_candidate(&state.world, &state.globals_map, surface),
        Err(NoMoveCandidate::Missing)
    );
}

#[test]
fn releases_and_capabilities_end_presses() {
    let mut state = state(true);
    let (surface, seat) = pressed_toplevel(&mut state, 1, 5);
    let actions = state.handle_pointer_event(seat, button(6, false));
    assert_eq!(
        actions,
        vec![PointerAction::Button {
            serial: 6,
            time: 0,
            button: BUTTON_LEFT,
            pressed: false
        }]
    );
    let find = |state: &InnerServerState| {
        find_move_candidate(&state.world, &state.globals_map, surface)
    };
    assert_eq!(find(&state), Err(NoMoveCandidate::Missing));
    state.handle_pointer_event(seat, button(7, true));
    assert_eq!(find(&state), Ok(seat));
    state.handle_seat_capabilities(seat, true);
    assert_eq!(find(&state), Ok(seat));
    state.handle_seat_capabilities(seat, false);
    assert_eq!(find(&state), Err(NoMoveCandidate::Missing));
    assert_eq!(
        state.release_pointer(seat),
        Some(Handle {
            id: 91,
            alive: true
        })
    );
    assert!(state.release_pointer(seat).is_none());
}

#[test]
fn windows_move_along_with_their_outputs() {
    let mut data = WindowData::new(false, dims(0, 0, 10, 10));
    let offset = |x, y| WindowOutputOffset { x, y };
    let moved = data.update_output_offset_on_enter(offset(100, 50)).unwrap();
    assert_eq!((moved.x, moved.y), (100, 50));
    assert_eq!(data.update_output_offset_on_enter(offset(7, 7)), None);
    assert_eq!(data.update_output_offset(offset(100, 50)), None);
    let before = data;
    data.update_output_offset(offset(-30, 50)).unwrap();
    assert_eq!(data.attrs.dims.x, -30);
    data.update_output_offset(offset(100, 50)).unwrap();
    assert_eq!(data, before);
    // A window that came with a place keeps it.
    let mut data = WindowData::new(false, dims(3, 4, 10, 10));
    assert_eq!(data.update_output_offset(offset(100, 50)), None);
    assert_eq!(data.attrs.dims, dims(3, 4, 10, 10));
    assert!(data.has_output_offset());
}

#[test]
fn tools_and_touches_take_the_scale_of_surfaces() {
    let mut state = state(true);
    let (surface, seat) = pressed_toplevel(&mut state, 1, 5);
    let mut parts = state.parts_of(surface).unwrap();
    parts.scale = Some(SurfaceScaleFactor { n120: 180 });
    state.set_parts(surface, parts);
    assert_eq!(
        state.touch_down(seat, SurfaceRef::Entity(surface)),
        TouchDown::Window {
            surface,
            window: 1,
            scale: SurfaceScaleFactor { n120: 180 }
        }
    );
    assert_eq!(
        state.touch_scale(seat),
        Some(SurfaceScaleFactor { n120: 180 })
    );
    assert_eq!(
        state.touch_down(seat, SurfaceRef::Unknown),
        TouchDown::Ignored
    );
    assert_eq!(
        state.touch_down(seat, SurfaceRef::Decoration(surface)),
        TouchDown::Decoration {
            parent: surface,
            seat: 90
        }
    );
    let lock = state.lock_pointer(surface).unwrap();
    assert_eq!(
        state.lock_scale(lock),
        Some(SurfaceScaleFactor { n120: 180 })
    );
    state.unlock_pointer(lock);
    assert_eq!(state.lock_scale(lock), None);
    assert!(state.lock_pointer(lock).is_none());
}

#[test]
fn limits_do_not_overflow() {
    assert_eq!(decorated_height(10, 25), 35);
    assert_eq!(decorated_height(i32::MAX, 25), i32::MAX);
    assert_eq!(decorated_height(i32::MIN, -1), i32::MIN);
}
