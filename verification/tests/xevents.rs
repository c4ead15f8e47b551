use xwayland_satellite::geometry::{ConfigWindowMask, WinSize, WindowDims};
use xwayland_satellite::roles::RolePlan;
use xwayland_satellite::state::{CompositorFeatures, InnerServerState};
use xwayland_satellite::window::WmNormalHints;
use xwayland_satellite::world::SurfaceSerial;
use xwayland_satellite::xevents::{
    decide_event, preferred_title, Atoms, FetchedAttributes, MessageData, WindowProperty, XAction,
    XEvent,
};
use xwayland_satellite::xstate::{
    class_bytes, configure_values, wm_class, wm_name, ConfigWindow, SetState, WindowTypes, WmHints,
    WmName,
};

const ROOT: u32 = 500;

fn atoms() -> Atoms {
    Atoms {
        wl_surface_id: 1,
        wl_surface_serial: 2,
        net_wm_state: 3,
        wm_fullscreen: 4,
        wm_hints: 35,
        wm_normal_hints: 40,
        wm_name: 39,
        net_wm_name: 5,
        wm_class: 67,
    }
}

fn decide(event: XEvent) -> XAction {
    decide_event(event, ROOT, &atoms())
}

fn dims(x: i16, y: i16, width: u16, height: u16) -> WindowDims {
    WindowDims {
        x,
        y,
        width,
        height,
    }
}

fn state() -> InnerServerState {
    InnerServerState::new(CompositorFeatures {
        activation: false,
        fractional_scale: false,
        decoration_manager: true,
        xdg_wm_base_version: 6,
    })
}

#[test]
fn integration_toplevel_flow() {
    let mut state = state();
    let window = 7;
    let created = decide(XEvent::CreateNotify {
        window,
        parent: ROOT,
        override_redirect: false,
        dims: dims(0, 0, 200, 200),
    });
    let XAction::NewWindow {
        window,
        override_redirect,
        dims: d,
        parent: None,
    } = created
    else {
        panic!("unexpected action: {created:?}");
    };
    state.new_window(window, override_redirect, d, None);
    assert_eq!(
        decide(XEvent::MapNotify { window }),
        XAction::Mapped { window }
    );
    assert!(state.map_window(window, 0, true).is_none());
    let surface = state.new_surface();
    let serial = SurfaceSerial { low: 1, high: 0 };
    state.set_window_serial(window, serial);
    let created = state.set_surface_serial(surface, serial, true).unwrap();
    assert!(matches!(created.plan, RolePlan::Toplevel(_)));

    assert_eq!(
        decide(XEvent::PropertyNotify {
            window,
            atom: 39,
            new_value: true
        }),
        XAction::ReadProperty {
            window,
            property: WindowProperty::Name
        }
    );
    let title = wm_name(false, b"window").unwrap();
    assert_eq!(state.set_win_title(window, title), Some("window".into()));

    assert_eq!(
        decide(XEvent::PropertyNotify {
            window,
            atom: 67,
            new_value: true
        }),
        XAction::ReadProperty {
            window,
            property: WindowProperty::Class
        }
    );
    let class = wm_class(b"instance\0class\0").unwrap();
    assert_eq!(state.set_win_class(window, class), Some("class".into()));

    state.forget_window(window);
    assert_eq!(
        decide(XEvent::UnmapNotify { window }),
        XAction::Unmapped { window }
    );
    state.unmap_window(window);
    assert_eq!(
        decide(XEvent::DestroyNotify { window }),
        XAction::DestroyWindow { window }
    );
    state.destroy_window(window);
    assert!(state.lookup(window).is_none());
    let parts = state.parts_of(surface).expect("No surface data");
    assert!(parts.role.and_then(|role| role.toplevel()).is_none());
}

#[test]
fn a_parent_other_than_the_root_is_kept() {
    let create = |parent| {
        decide(XEvent::CreateNotify {
            window: 9,
            parent,
            override_redirect: true,
            dims: dims(1, 2, 3, 4),
        })
    };
    let new_window = |parent| XAction::NewWindow {
        window: 9,
        override_redirect: true,
        dims: dims(1, 2, 3, 4),
        parent,
    };
    assert_eq!(create(ROOT), new_window(None));
    assert_eq!(create(0), new_window(None));
    assert_eq!(create(8), new_window(Some(8)));
}

#[test]
fn reparented_windows_come_and_go() {
    assert_eq!(
        decide(XEvent::ReparentNotify {
            window: 9,
            parent: ROOT
        }),
        XAction::AdoptWindow { window: 9 }
    );
    assert_eq!(
        decide(XEvent::ReparentNotify {
            window: 9,
            parent: 10
        }),
        XAction::DestroyWindow { window: 9 }
    );
}

#[test]
fn client_messages_are_told_apart() {
    let message = |message, first, second, third| {
        decide(XEvent::ClientMessage {
            window: 9,
            message,
            data: MessageData {
                first,
                second,
                third,
            },
        })
    };
    assert_eq!(message(1, 0, 0, 0), XAction::SurfaceIdRefused);
    assert_eq!(
        message(2, 11, 12, 13),
        XAction::SetSerial {
            window: 9,
            serial: SurfaceSerial { low: 11, high: 12 }
        }
    );
    let fullscreen = |action, times| XAction::ChangeFullscreen {
        window: 9,
        action,
        times,
    };
    assert_eq!(message(3, 0, 4, 0), fullscreen(SetState::Remove, 1));
    assert_eq!(message(3, 1, 0, 4), fullscreen(SetState::Add, 1));
    assert_eq!(message(3, 2, 4, 4), fullscreen(SetState::Toggle, 2));
    assert_eq!(message(3, 3, 4, 4), XAction::Ignore);
    assert_eq!(message(3, 1, 8, 8), XAction::Ignore);
    assert_eq!(message(99, 1, 4, 4), XAction::Ignore);
}

#[test]
fn deleted_and_unknown_properties_are_ignored() {
    let property = |atom, new_value| {
        decide(XEvent::PropertyNotify {
            window: 9,
            atom,
            new_value,
        })
    };
    assert_eq!(property(35, false), XAction::Ignore);
    assert_eq!(property(36, true), XAction::Ignore);
    for (atom, property_read) in [
        (35, WindowProperty::Hints),
        (40, WindowProperty::SizeHints),
        (39, WindowProperty::Name),
        (5, WindowProperty::NetName),
        (67, WindowProperty::Class),
    ] {
        assert_eq!(
            property(atom, true),
            XAction::ReadProperty {
                window: 9,
                property: property_read
            }
        );
    }
    assert_eq!(decide(XEvent::MappingNotify), XAction::Ignore);
    assert_eq!(
        decide(XEvent::MapRequest { window: 9 }),
        XAction::MapWindow { window: 9 }
    );
}

#[test]
fn configure_requests_are_granted_as_asked() {
    let mask = ConfigWindowMask {
        x: true,
        y: false,
        width: true,
        height: true,
    };
    let d = dims(-3, 4, 50, 60);
    assert_eq!(
        decide(XEvent::ConfigureRequest {
            window: 9,
            mask,
            dims: d
        }),
        XAction::Configure {
            window: 9,
            mask,
            dims: d
        }
    );
    assert_eq!(
        configure_values(mask, d),
        vec![
            ConfigWindow::X(-3),
            ConfigWindow::Width(50),
            ConfigWindow::Height(60)
        ]
    );
    let none = ConfigWindowMask {
        x: false,
        y: false,
        width: false,
        height: false,
    };
    assert_eq!(configure_values(none, d), vec![]);
}

#[test]
fn size_hints_are_read_where_flagged() {
    let value = [16 | 32, 0, 0, 0, 0, 20, 30, 100, 0xffff_ffff];
    assert_eq!(
        WmNormalHints::from_property(&value),
        Some(WmNormalHints {
            min_size: Some(WinSize {
                width: 20,
                height: 30
            }),
            max_size: Some(WinSize {
                width: 100,
                height: -1
            }),
        })
    );
    assert_eq!(
        WmNormalHints::from_property(&[1 | 2 | 64]),
        Some(WmNormalHints {
            min_size: None,
            max_size: None
        })
    );
    assert_eq!(WmNormalHints::from_property(&[]), None);
    assert_eq!(WmNormalHints::from_property(&value[..6]), None);
    assert_eq!(WmNormalHints::from_property(&value[..8]), None);
    assert!(WmNormalHints::from_property(&[16, 0, 0, 0, 0, 1, 2]).is_some());
}

#[test]
fn hints_are_read_where_flagged() {
    let value = [1 | 64, 1, 0, 0, 0, 0, 0, 0, 77];
    assert_eq!(
        WmHints::from_property(&value),
        Some(WmHints {
            input: Some(true),
            window_group: Some(77)
        })
    );
    assert_eq!(
        WmHints::from_property(&[1, 2]),
        Some(WmHints {
            input: Some(false),
            window_group: None
        })
    );
    assert_eq!(
        WmHints::from_property(&[2]),
        Some(WmHints {
            input: None,
            window_group: None
        })
    );
    assert_eq!(WmHints::from_property(&[1]), None);
    assert_eq!(WmHints::from_property(&value[..8]), None);
    assert_eq!(WmHints::from_property(&[]), None);
}

#[test]
fn only_windows_that_refuse_it_are_not_focused() {
    let hints = |input| {
        Some(WmHints {
            input,
            window_group: None,
        })
    };
    assert!(WmHints::takes_focus(None));
    assert!(WmHints::takes_focus(hints(None)));
    assert!(WmHints::takes_focus(hints(Some(true))));
    assert!(!WmHints::takes_focus(hints(Some(false))));
}

#[test]
fn class_follows_the_instance() {
    assert_eq!(class_bytes(b"instance\0class\0"), Some(b"class".to_vec()));
    assert_eq!(class_bytes(b"\0\0"), Some(vec![]));
    assert_eq!(class_bytes(b"instance\0class"), None);
    assert_eq!(class_bytes(b"instance\0"), None);
    assert_eq!(class_bytes(b"instance"), None);
    assert_eq!(class_bytes(b"a\0b\0c\0"), None);
    assert_eq!(class_bytes(b""), None);
    assert_eq!(wm_class(b"i\0caf\xc3\xa9\0"), Some("caf\u{e9}".into()));
    assert_eq!(wm_class(b"i\0a\xffb\0"), Some("a\u{fffd}b".into()));
    assert_eq!(wm_class(b"i"), None);
}

#[test]
fn titles_are_text() {
    assert!(matches!(wm_name(true, b"a b"), Some(WmName::NetWmName(n)) if n == "a b"));
    assert!(matches!(wm_name(false, b""), Some(WmName::WmName(n)) if n.is_empty()));
    assert!(wm_name(true, b"\xff").is_none());
    let name = wm_name(true, "caf\u{e9}".as_bytes()).unwrap();
    assert_eq!(name.name(), "caf\u{e9}");
}

#[test]
fn the_better_title_is_preferred() {
    let net = || Some(WmName::NetWmName("net".into()));
    let plain = || Some(WmName::WmName("plain".into()));
    assert_eq!(preferred_title(net(), plain()).unwrap().name(), "net");
    assert_eq!(preferred_title(None, plain()).unwrap().name(), "plain");
    assert_eq!(preferred_title(net(), None).unwrap().name(), "net");
    assert!(preferred_title(None, None).is_none());
}

#[test]
fn attributes_reach_the_toplevel_once_there_is_one() {
    let mut state = state();
    let hints = WmNormalHints {
        min_size: Some(WinSize {
            width: 10,
            height: 10,
        }),
        max_size: None,
    };
    let fetched = || FetchedAttributes {
        title: Some(WmName::WmName("title".into())),
        class: Some("class".into()),
        size_hints: Some(hints),
    };
    state.new_window(1, false, dims(0, 0, 50, 50), None);
    let update = state.handle_window_attributes(1, fetched());
    assert_eq!(update.title, None);
    assert_eq!(update.app_id, None);
    assert_eq!(update.size_hints, None);

    state.map_window(1, 0, true);
    let surface = state.new_surface();
    let serial = SurfaceSerial { low: 1, high: 0 };
    state.set_window_serial(1, serial);
    let created = state.set_surface_serial(surface, serial, true).unwrap();
    let RolePlan::Toplevel(plan) = created.plan else {
        panic!("wrong role");
    };
    assert_eq!(plan.title, Some("title".into()));
    assert_eq!(plan.app_id, Some("class".into()));
    assert_eq!(plan.size_hints.unwrap().hints, hints);

    let update = state.handle_window_attributes(1, fetched());
    assert_eq!(update.title, Some("title".into()));
    assert_eq!(update.app_id, Some("class".into()));
    // These are no news.
    assert_eq!(update.size_hints, None);

    let update = state.handle_window_attributes(2, fetched());
    assert_eq!((update.title, update.app_id), (None, None));
}

#[test]
fn window_types_have_names() {
    let types = WindowTypes {
        normal: 1,
        dialog: 2,
        splash: 3,
        menu: 4,
        utility: 5,
    };
    assert_eq!(types.get_type(1), Some("Normal"));
    assert_eq!(types.get_type(2), Some("Dialog"));
    assert_eq!(types.get_type(3), None);
    assert_eq!(types.get_type(4), Some("Menu"));
    assert_eq!(types.get_type(5), Some("Utility"));
    assert_eq!(types.get_type(6), None);
}

#[test]
fn states_are_changed_by_number() {
    assert_eq!(SetState::from_number(0), Some(SetState::Remove));
    assert_eq!(SetState::from_number(1), Some(SetState::Add));
    assert_eq!(SetState::from_number(2), Some(SetState::Toggle));
    assert_eq!(SetState::from_number(3), None);
    assert!(SetState::Toggle.apply(false));
    assert!(!SetState::Toggle.apply(SetState::Toggle.apply(false)));
    assert!(!SetState::Remove.apply(true));
}
