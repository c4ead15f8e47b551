use xwayland_satellite::selection::{
    Clipboard, ControlSourceEvents, Primary, SeatSelections, SelectionData, SelectionEvents,
    SelectionOffer, SelectionRequest, SelectionSource, SelectionStates, SelectionType, SourceKind,
    SourcePlan,
};
use xwayland_satellite::world::Handle;

fn nothing() -> SelectionEvents {
    SelectionEvents {
        offer: None,
        withdrawn: false,
        requests: vec![],
        cancelled: vec![],
    }
}

fn no_control() -> ControlSourceEvents {
    ControlSourceEvents {
        requests: vec![],
        cancelled: vec![],
    }
}

fn offer(id: u64, alive: bool, mimes: &[&str]) -> SelectionEvents {
    SelectionEvents {
        offer: Some(SelectionOffer {
            offer: id,
            alive,
            mime_types: mimes.iter().map(|mime| mime.to_string()).collect(),
        }),
        ..nothing()
    }
}

fn request(source: u64, mime: &str, pipe: u64) -> SelectionRequest {
    SelectionRequest {
        source,
        mime_type: mime.into(),
        pipe,
    }
}

fn device(id: u64) -> Handle {
    Handle { id, alive: true }
}

fn with_seat() -> SelectionStates {
    let mut states = SelectionStates::new(true, true, true);
    assert_eq!(
        states.seat_created(1, 2, device(3)),
        SeatSelections {
            clipboard: None,
            primary: None
        }
    );
    states
}

fn source<T: SelectionType>(states: &SelectionStates) -> &Option<SelectionData> {
    match T::kind() {
        SourceKind::Clipboard => &states.clipboard.as_ref().unwrap().source,
        SourceKind::Primary => &states.primary.as_ref().unwrap().source,
    }
}

fn copy_from_x11<T: SelectionType>() {
    let mut states = with_seat();
    let plan = states.plan_source::<T>(Some(9));
    let core = match T::kind() {
        SourceKind::Clipboard => 1,
        SourceKind::Primary => 2,
    };
    assert_eq!(
        plan,
        SourcePlan::Core {
            device: core,
            serial: 9
        }
    );
    assert_eq!(
        states.set_selection_source::<T>(SelectionSource::Core(10), 100),
        None
    );
    let actions = states.handle_selection_events::<T>(
        SelectionEvents {
            requests: vec![
                request(10, "text", 5),
                request(11, "text", 6),
                request(10, "data", 7),
            ],
            ..nothing()
        },
        no_control(),
    );
    let written: Vec<_> = actions
        .writes
        .iter()
        .map(|write| (write.data, write.mime_type.as_str(), write.pipe))
        .collect();
    assert_eq!(written, vec![(100, "text", 5), (100, "data", 7)]);
    assert_eq!(actions.destroyed, None);
}

fn copy_from_wayland<T: SelectionType>() {
    let mut states = with_seat();
    states.handle_selection_events::<T>(offer(4, true, &["text", "data"]), no_control());
    let selection = states.new_selection::<T>().expect("No new selection");
    assert_eq!(selection.offer, 4);
    assert_eq!(selection.mime_types, vec!["text", "data"]);
    assert!(states.new_selection::<T>().is_none());
}

fn selection_x11_then_wayland<T: SelectionType>() {
    let mut states = with_seat();
    states.set_selection_source::<T>(SelectionSource::Core(10), 100);
    // An offer alone does not take the selection away.
    states.handle_selection_events::<T>(offer(4, true, &["asdf"]), no_control());
    assert!(states.new_selection::<T>().is_none());
    assert!(matches!(
        source::<T>(&states),
        Some(SelectionData::X11 { data: 100, .. })
    ));

    let mut events = offer(4, true, &["asdf", "boing"]);
    events.cancelled = vec![10];
    states.handle_selection_events::<T>(events, no_control());
    let selection = states.new_selection::<T>().expect("No new selection");
    assert_eq!(selection.mime_types, vec!["asdf", "boing"]);
}

#[test]
fn clipboard_copy_from_x11() {
    copy_from_x11::<Clipboard>();
}

#[test]
fn primary_copy_from_x11() {
    copy_from_x11::<Primary>();
}

#[test]
fn clipboard_copy_from_wayland() {
    copy_from_wayland::<Clipboard>();
}

#[test]
fn primary_copy_from_wayland() {
    copy_from_wayland::<Primary>();
}

#[test]
fn clipboard_selection_x11_then_wayland() {
    selection_x11_then_wayland::<Clipboard>();
}

#[test]
fn primary_selection_x11_then_wayland() {
    selection_x11_then_wayland::<Primary>();
}

#[test]
fn quick_empty_data_offer() {
    let mut states = with_seat();
    // The offer is gone by the time it is looked at.
    states.handle_selection_events::<Clipboard>(offer(4, false, &["text"]), no_control());
    let selection = states.new_selection::<Clipboard>();
    assert!(selection.is_none());
}

#[test]
fn without_a_serial_the_control_protocol_is_used() {
    let mut states = SelectionStates::new(true, true, true);
    assert_eq!(
        states.plan_source::<Clipboard>(None),
        SourcePlan::Control { on: None }
    );
    let waiting = SelectionSource::Control {
        source: 20,
        published: false,
    };
    states.set_selection_source::<Clipboard>(waiting, 100);
    // The source waits for a seat, and is set once.
    assert_eq!(
        states.seat_created(1, 2, device(3)),
        SeatSelections {
            clipboard: Some(20),
            primary: None
        }
    );
    assert_eq!(
        states.seat_created(4, 5, device(6)),
        SeatSelections {
            clipboard: None,
            primary: None
        }
    );
    assert_eq!(
        states.plan_source::<Primary>(None),
        SourcePlan::Control { on: Some(6) }
    );

    let actions = states.handle_selection_events::<Clipboard>(
        SelectionEvents {
            requests: vec![request(20, "text", 1)],
            cancelled: vec![20],
            ..nothing()
        },
        ControlSourceEvents {
            requests: vec![request(20, "text", 2), request(21, "text", 3)],
            cancelled: vec![21],
        },
    );
    assert_eq!(actions.writes.len(), 1);
    assert_eq!(actions.writes[0].pipe, 2);
    assert_eq!(actions.destroyed, None);

    let actions = states.handle_selection_events::<Clipboard>(
        nothing(),
        ControlSourceEvents {
            requests: vec![],
            cancelled: vec![20],
        },
    );
    assert_eq!(actions.destroyed, Some(20));
    assert!(source::<Clipboard>(&states).is_none());
}

#[test]
fn a_new_source_replaces_the_old_one() {
    let mut states = with_seat();
    let control = |source| SelectionSource::Control {
        source,
        published: true,
    };
    assert_eq!(
        states.set_selection_source::<Primary>(control(30), 100),
        None
    );
    assert_eq!(
        states.set_selection_source::<Primary>(control(31), 101),
        Some(30)
    );
    assert_eq!(
        states.set_selection_source::<Primary>(SelectionSource::Core(32), 102),
        Some(31)
    );
}

#[test]
fn what_the_compositor_lacks_is_left_alone() {
    let mut states = SelectionStates::new(true, false, false);
    states.seat_created(1, 2, device(3));
    assert!(states.control.is_none());
    assert_eq!(
        states.plan_source::<Clipboard>(None),
        SourcePlan::Retained
    );
    assert_eq!(
        states.plan_source::<Primary>(Some(3)),
        SourcePlan::Unsupported
    );
    assert_eq!(
        states.set_selection_source::<Primary>(SelectionSource::Core(1), 1),
        None
    );
    assert!(states.primary.is_none());
    states.handle_selection_events::<Primary>(offer(4, true, &["text"]), no_control());
    assert!(states.new_selection::<Primary>().is_none());
}

fn an_offer_waits_for_the_owner<T: SelectionType>() {
    let mut states = with_seat();
    states.set_selection_source::<T>(SelectionSource::Core(10), 100);
    states.handle_selection_events::<T>(offer(4, true, &["asdf", "boing"]), no_control());
    states.handle_selection_events::<T>(nothing(), no_control());
    assert!(states.new_selection::<T>().is_none());

    // The source is cancelled later, with no new offer.
    states.handle_selection_events::<T>(
        SelectionEvents {
            cancelled: vec![10],
            ..nothing()
        },
        no_control(),
    );
    let selection = states.new_selection::<T>().expect("No new selection");
    assert_eq!(selection.offer, 4);
    assert_eq!(selection.mime_types, vec!["asdf", "boing"]);
    states.handle_selection_events::<T>(nothing(), no_control());
    assert!(states.new_selection::<T>().is_none());
}

#[test]
fn clipboard_offer_waits_for_the_owner() {
    an_offer_waits_for_the_owner::<Clipboard>();
}

#[test]
fn primary_offer_waits_for_the_owner() {
    an_offer_waits_for_the_owner::<Primary>();
}

#[test]
fn an_offer_waits_behind_another() {
    let mut states = with_seat();
    states.handle_selection_events::<Clipboard>(offer(4, true, &["a"]), no_control());
    states.handle_selection_events::<Clipboard>(offer(5, true, &["b"]), no_control());
    states.handle_selection_events::<Clipboard>(offer(6, true, &["c"]), no_control());
    assert_eq!(states.new_selection::<Clipboard>().unwrap().offer, 4);
    assert!(states.new_selection::<Clipboard>().is_none());
    // Of those that came meanwhile the newest is taken up.
    states.handle_selection_events::<Clipboard>(nothing(), no_control());
    assert_eq!(states.new_selection::<Clipboard>().unwrap().offer, 6);
    states.handle_selection_events::<Clipboard>(nothing(), no_control());
    assert!(states.new_selection::<Clipboard>().is_none());
}

#[test]
fn an_offer_that_is_withdrawn_is_not_taken_up() {
    let mut states = with_seat();
    states.set_selection_source::<Primary>(SelectionSource::Core(10), 100);
    states.handle_selection_events::<Primary>(offer(4, true, &["a"]), no_control());
    states.handle_selection_events::<Primary>(
        SelectionEvents {
            withdrawn: true,
            ..nothing()
        },
        no_control(),
    );
    let cancelled = || SelectionEvents {
        cancelled: vec![10],
        ..nothing()
    };
    states.handle_selection_events::<Primary>(cancelled(), no_control());
    assert!(states.new_selection::<Primary>().is_none());

    // A newer offer stands though the one before was withdrawn.
    let mut newer = offer(5, true, &["b"]);
    newer.withdrawn = true;
    states.handle_selection_events::<Primary>(newer, no_control());
    assert_eq!(states.new_selection::<Primary>().unwrap().offer, 5);

    // One that is gone by the time that its turn comes is dropped.
    states.set_selection_source::<Clipboard>(SelectionSource::Core(10), 100);
    states.handle_selection_events::<Clipboard>(offer(6, false, &["c"]), no_control());
    states.handle_selection_events::<Clipboard>(cancelled(), no_control());
    assert!(states.new_selection::<Clipboard>().is_none());
    assert!(states.clipboard.as_ref().unwrap().offer.is_none());
}
