use std::collections::HashMap;
use xwayland_satellite::pointer::{
    create_move_candidate, find_move_candidate, invalidate_move_candidate,
    invalidate_move_candidates_for_seat_global, invalidate_move_candidates_for_source,
    invalidate_pointer_source, CurrentSurface, NoMoveCandidate,
};
use xwayland_satellite::state::{CompositorFeatures, InnerServerState};
use xwayland_satellite::world::{Handle, Parts};

/// A state with bound seats: the entity of a seat also hosts the pointer and the name of the
/// global that it was bound from.
struct SeatWorld {
    state: InnerServerState,
    globals: HashMap<u32, ()>,
    objects: u64,
}

impl SeatWorld {
    fn new() -> Self {
        Self {
            state: InnerServerState::new(CompositorFeatures {
                activation: false,
                fractional_scale: false,
                decoration_manager: false,
                xdg_wm_base_version: 6,
            }),
            globals: HashMap::new(),
            objects: 0,
        }
    }

    /// A new object of the compositor.
    fn object(&mut self) -> Handle {
        self.objects += 1;
        Handle {
            id: self.objects,
            alive: true,
        }
    }

    fn add_seat(&mut self, global: u32) -> u64 {
        let seat = self.object();
        let pointer = self.object();
        self.globals.insert(global, ());
        let mut parts = Parts::empty();
        parts.seat = Some(seat);
        parts.pointer = Some(pointer);
        parts.global = Some(global);
        self.state.spawn(parts)
    }

    fn add_window(&mut self) -> u64 {
        self.state.spawn(Parts::empty())
    }

    /// Replaces the seat's pointer, as `wl_seat.get_pointer` does for an existing entity.
    fn rebind_pointer(&mut self, seat: u64) {
        let pointer = self.object();
        assert!(self.state.get_pointer(seat, pointer.id));
    }

    fn candidate(&self, seat: u64) -> Option<(u64, u32)> {
        self.state
            .parts_of(seat)
            .unwrap()
            .candidate
            .map(|candidate| (candidate.source, candidate.serial))
    }

    fn press(&mut self, seat: u64, source: u64, serial: u32) {
        create_move_candidate(
            &mut self.state.world,
            &self.globals,
            seat,
            source,
            serial,
        );
    }

    fn find(&self, source: u64) -> Result<u64, NoMoveCandidate> {
        find_move_candidate(&self.state.world, &self.globals, source)
    }
}

#[test]
fn press_creates_a_findable_candidate() {
    let mut w = SeatWorld::new();
    let seat = w.add_seat(1);
    let window = w.add_window();

    w.press(seat, window, 42);

    assert_eq!(w.candidate(seat), Some((window, 42)));
    assert_eq!(w.find(window), Ok(seat));
}

#[test]
fn a_new_press_replaces_the_previous_candidate() {
    let mut w = SeatWorld::new();
    let seat = w.add_seat(1);
    let first = w.add_window();
    let second = w.add_window();

    w.press(seat, first, 1);
    w.press(seat, second, 2);

    assert_eq!(w.candidate(seat), Some((second, 2)));
    assert_eq!(w.find(first), Err(NoMoveCandidate::Missing));
    assert_eq!(w.find(second), Ok(seat));
}

#[test]
fn candidates_belong_to_the_pressed_window_only() {
    let mut w = SeatWorld::new();
    let seat = w.add_seat(1);
    let pressed = w.add_window();
    let other = w.add_window();

    w.press(seat, pressed, 7);

    assert_eq!(w.find(other), Err(NoMoveCandidate::Missing));
    // Asking for the wrong window doesn't spend the candidate either.
    assert_eq!(w.find(pressed), Ok(seat));
}

#[test]
fn invalidation_drops_the_candidate() {
    let mut w = SeatWorld::new();
    let seat = w.add_seat(1);
    let window = w.add_window();

    w.press(seat, window, 3);
    invalidate_move_candidate(&mut w.state.world, seat);

    assert_eq!(w.candidate(seat), None);
    assert_eq!(w.find(window), Err(NoMoveCandidate::Missing));

    // A later real press works again: nothing is stuck in a consumed state.
    w.press(seat, window, 4);
    assert_eq!(w.find(window), Ok(seat));
}

#[test]
fn invalidating_a_source_clears_every_seat_holding_it() {
    let mut w = SeatWorld::new();
    let first = w.add_seat(1);
    let second = w.add_seat(2);
    let window = w.add_window();
    let other_window = w.add_window();

    w.press(first, window, 1);
    w.press(second, other_window, 2);
    invalidate_move_candidates_for_source(&mut w.state.world, window);

    assert_eq!(w.candidate(first), None);
    assert_eq!(w.candidate(second), Some((other_window, 2)));
}

#[test]
fn removing_a_seat_global_clears_all_of_its_binds() {
    let mut w = SeatWorld::new();
    // The same global bound twice, plus an unrelated seat.
    let first = w.add_seat(1);
    let second = w.add_seat(1);
    let unrelated = w.add_seat(2);
    let window = w.add_window();

    w.press(first, window, 1);
    w.press(second, window, 2);
    w.press(unrelated, window, 3);

    w.globals.remove(&1);
    invalidate_move_candidates_for_seat_global(&mut w.state.world, 1);

    assert_eq!(w.candidate(first), None);
    assert_eq!(w.candidate(second), None);
    assert_eq!(w.candidate(unrelated), Some((window, 3)));
    assert_eq!(w.find(window), Ok(unrelated));
}

#[test]
fn a_press_queued_behind_a_global_removal_does_not_recreate_a_candidate() {
    let mut w = SeatWorld::new();
    let seat = w.add_seat(1);
    let window = w.add_window();

    w.globals.remove(&1);
    invalidate_move_candidates_for_seat_global(&mut w.state.world, 1);
    w.press(seat, window, 5);

    assert_eq!(w.candidate(seat), None);
    assert_eq!(w.find(window), Err(NoMoveCandidate::Missing));
}

#[test]
fn a_removed_seat_global_hides_an_existing_candidate() {
    let mut w = SeatWorld::new();
    let seat = w.add_seat(1);
    let window = w.add_window();

    w.press(seat, window, 9);
    w.globals.remove(&1);

    assert_eq!(w.find(window), Err(NoMoveCandidate::Missing));
}

#[test]
fn a_replaced_pointer_does_not_inherit_the_press() {
    let mut w = SeatWorld::new();
    let seat = w.add_seat(1);
    let window = w.add_window();

    w.press(seat, window, 11);
    // Simulates the candidate outliving a get_pointer that recreated the pointer object.
    w.rebind_pointer(seat);

    assert_eq!(w.find(window), Err(NoMoveCandidate::Missing));
}

#[test]
fn a_seat_without_a_pointer_has_no_candidate() {
    let mut w = SeatWorld::new();
    let seat = w.add_seat(1);
    let window = w.add_window();

    assert!(w.state.release_pointer(seat).is_some());
    w.press(seat, window, 13);

    assert_eq!(w.candidate(seat), None);
    assert_eq!(w.find(window), Err(NoMoveCandidate::Missing));
}

#[test]
fn several_seats_pressing_the_same_window_are_ambiguous() {
    let mut w = SeatWorld::new();
    let first = w.add_seat(1);
    let second = w.add_seat(2);
    let window = w.add_window();

    w.press(first, window, 1);
    w.press(second, window, 2);

    assert_eq!(w.find(window), Err(NoMoveCandidate::Ambiguous));

    // Once one of them is gone the other is unambiguous again.
    invalidate_move_candidate(&mut w.state.world, first);
    assert_eq!(w.find(window), Ok(second));
}

#[test]
fn a_source_that_goes_is_forgotten_by_pointers() {
    let mut w = SeatWorld::new();
    let seat = w.add_seat(1);
    let window = w.add_window();
    let other = w.add_window();

    w.press(seat, window, 1);
    let mut parts = w.state.parts_of(seat).unwrap();
    parts.current = Some(CurrentSurface::Xwayland(window));
    assert!(w.state.set_parts(seat, parts));

    invalidate_pointer_source(&mut w.state.world, other);
    assert_eq!(w.candidate(seat), Some((window, 1)));
    assert_eq!(
        w.state.parts_of(seat).unwrap().current,
        Some(CurrentSurface::Xwayland(window))
    );

    invalidate_pointer_source(&mut w.state.world, window);
    assert_eq!(w.candidate(seat), None);
    assert_eq!(w.state.parts_of(seat).unwrap().current, None);
}
