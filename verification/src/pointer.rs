//! Pointers: what they are on, and which press may start a move.

use vstd::prelude::*;
use std::collections::HashMap;
use crate::output::SurfaceScaleFactor;
use crate::role::SurfaceRole;
use crate::state::InnerServerState;
use crate::world;
use crate::world::Parts;

verus! {

/// The surface that a pointer event names.
#[derive(Clone, Copy, Debug, PartialEq, Eq, Structural)]
pub enum SurfaceRef {
    /// The surface of an entity.
    Entity(u64),
    /// A decoration of the entity's toplevel.
    Decoration(u64),
    /// A surface that is not known.
    Unknown,
}

/// An enter event that waits for the pointer to move. Positions are in fixed point.
#[derive(Clone, Copy, Debug, PartialEq, Eq, Structural)]
pub struct PendingEnter {
    pub serial: u32,
    pub surface: SurfaceRef,
    pub surface_x: i32,
    pub surface_y: i32,
}

/// What a pointer is on.
#[derive(Clone, Copy, Debug, PartialEq, Eq, Structural)]
pub enum CurrentSurface {
    Xwayland(u64),
    Decoration(u64),
}

/// The last left press on a window: the seat's object and the serial.
#[derive(Clone, Copy, Debug, PartialEq, Eq, Structural)]
pub struct LastClickSerial {
    pub seat: u64,
    pub serial: u32,
}

/// A left press that was delivered and may be used once to start a move.
#[derive(Clone, Copy, Debug, PartialEq, Eq, Structural)]
pub struct MoveCandidate {
    /// The entity whose surface the pointer was on.
    pub source: u64,
    /// The serial of the press.
    pub serial: u32,
    /// The pointer object that delivered the press.
    pub pointer: u64,
}

/// The cursor image that the X server last asked for.
#[derive(Clone, Copy, Debug, PartialEq, Eq, Structural)]
pub struct ForwardedPointerCursor {
    pub surface: Option<u64>,
    pub hotspot_x: i32,
    pub hotspot_y: i32,
}

/// Why no move candidate could be used for a window.
#[derive(Clone, Copy, Debug, PartialEq, Eq, Structural)]
pub enum NoMoveCandidate {
    /// No usable candidate belongs to this window.
    Missing,
    /// Several seats have a candidate for this window, and nothing tells them apart.
    Ambiguous,
}

impl CurrentSurface {
    /// Whether the pointer is on a decoration.
    pub fn is_decoration(&self) -> (r: bool)
        ensures
            r == (self is Decoration),
    {
        matches!(self, CurrentSurface::Decoration(..))
    }
}

/// An entity without a move candidate.
pub open spec fn without_candidate(parts: Parts) -> Parts {
    Parts { candidate: None, ..parts }
}

/// All entities, with the candidate of one seat gone.
pub open spec fn invalidated(parts: Map<u64, Parts>, seat: u64) -> Map<u64, Parts> {
    if parts.contains_key(seat) {
        parts.insert(seat, without_candidate(parts[seat]))
    } else {
        parts
    }
}

/// Whether an entity holds a candidate that was created over `source`.
pub open spec fn pressed_over(parts: Parts, source: u64) -> bool {
    parts.candidate matches Some(candidate) && candidate.source == source
}

/// All entities, with the candidates that were created over `source` gone.
pub open spec fn invalidated_for_source(parts: Map<u64, Parts>, source: u64) -> Map<u64, Parts> {
    parts.map_values(
        |p: Parts|
            if pressed_over(p, source) {
                without_candidate(p)
            } else {
                p
            },
    )
}

/// An entity that no longer refers to the surface of `source`.
pub open spec fn forgetting_source(parts: Parts, source: u64) -> Parts {
    Parts {
        current: if parts.current == Some(CurrentSurface::Xwayland(source)) {
            None
        } else {
            parts.current
        },
        candidate: if pressed_over(parts, source) {
            None
        } else {
            parts.candidate
        },
        ..parts
    }
}

/// All entities, with the candidates of the seats of one global gone.
pub open spec fn invalidated_for_global(parts: Map<u64, Parts>, global: u32) -> Map<u64, Parts> {
    parts.map_values(
        |p: Parts|
            if p.global == Some(global) {
                without_candidate(p)
            } else {
                p
            },
    )
}

/// The candidate that a press on `source` gives a seat: none once the seat's global is gone, or
/// if the seat has no pointer.
pub open spec fn candidate_for(
    parts: Parts,
    globals: Set<u32>,
    source: u64,
    serial: u32,
) -> Option<MoveCandidate> {
    match (parts.global, parts.pointer) {
        (Some(global), Some(pointer)) if globals.contains(global) => Some(
            MoveCandidate { source, serial, pointer: pointer.id },
        ),
        _ => None,
    }
}

/// All entities, after a press on `source` that `seat` delivered.
pub open spec fn pressed(
    parts: Map<u64, Parts>,
    globals: Set<u32>,
    seat: u64,
    source: u64,
    serial: u32,
) -> Map<u64, Parts> {
    if parts.contains_key(seat) {
        parts.insert(
            seat,
            Parts {
                candidate: candidate_for(parts[seat], globals, source, serial),
                ..parts[seat]
            },
        )
    } else {
        parts
    }
}

/// Whether a seat can start a move of `source`: it and its pointer still exist, its global is
/// still offered, and its last press was on `source` through that very pointer.
pub open spec fn usable(parts: Parts, globals: Set<u32>, source: u64) -> bool {
    &&& parts.candidate matches Some(candidate) && candidate.source == source
    &&& parts.global matches Some(global) && globals.contains(global)
    &&& parts.seat matches Some(seat) && seat.alive
    &&& parts.pointer matches Some(pointer) && pointer.alive && parts.candidate->0.pointer
        == pointer.id
}

/// Whether `seat` is among the entities and can start a move of `source`.
pub open spec fn usable_seat(
    parts: Map<u64, Parts>,
    globals: Set<u32>,
    seat: u64,
    source: u64,
) -> bool {
    parts.contains_key(seat) && usable(parts[seat], globals, source)
}

/// Invalidates the move candidate on `seat`, if there is one.
pub fn invalidate_move_candidate(world: &mut hecs::World, seat: u64)
    ensures
        world::world_parts(*final(world)) == invalidated(world::world_parts(*old(world)), seat),
        world::world_names(*final(world)) == world::world_names(*old(world)),
{
    if let Some(parts) = world::get(world, seat) {
        world::set(world, seat, Parts { candidate: None, ..parts });
    }
}

/// Invalidates every move candidate that was created over `source`.
pub fn invalidate_move_candidates_for_source(world: &mut hecs::World, source: u64)
    ensures
        world::world_parts(*final(world)) == invalidated_for_source(
            world::world_parts(*old(world)),
            source,
        ),
        world::world_names(*final(world)) == world::world_names(*old(world)),
{
    let ghost before = world::world_parts(*world);
    let ghost after = invalidated_for_source(before, source);
    let seats = world::entities(world);
    let mut i: usize = 0;
    while i < seats.len()
        invariant
            i <= seats.len(),
            seats@.no_duplicates(),
            before == world::world_parts(*old(world)),
            after == invalidated_for_source(before, source),
            world::world_names(*world) == world::world_names(*old(world)),
            world::world_parts(*world).dom() == before.dom(),
            forall|e: u64| seats@.contains(e) <==> before.contains_key(e),
            forall|k: int|
                0 <= k < seats@.len() ==> #[trigger] world::world_parts(*world)[seats@[k]] == (if k
                    < i {
                    after[seats@[k]]
                } else {
                    before[seats@[k]]
                }),
        decreases seats.len() - i,
    {
        let seat = seats[i];
        assert(seats@.contains(seats@[i as int]));
        if let Some(parts) = world::get(world, seat) {
            if let Some(candidate) = parts.candidate {
                if candidate.source == source {
                    world::set(world, seat, Parts { candidate: None, ..parts });
                }
            }
        }
        i += 1;
    }
    assert(world::world_parts(*world) =~= after) by {
        assert forall|e: u64| before.contains_key(e) implies world::world_parts(*world)[e]
            == after[e] by {
            let k = choose|k: int| 0 <= k < seats@.len() && seats@[k] == e;
            assert(seats@[k] == e);
        }
    }
}

/// Clears pointer ownership and move candidates that refer to `source`, whose surface was unmapped
/// or destroyed while its entity lives on.
pub fn invalidate_pointer_source(world: &mut hecs::World, source: u64)
    ensures
        world::world_parts(*final(world)) == world::world_parts(*old(world)).map_values(
            |p: Parts| forgetting_source(p, source),
        ),
        world::world_names(*final(world)) == world::world_names(*old(world)),
{
    let ghost before = world::world_parts(*world);
    let ghost after = before.map_values(|p: Parts| forgetting_source(p, source));
    let seats = world::entities(world);
    let mut i: usize = 0;
    while i < seats.len()
        invariant
            i <= seats.len(),
            seats@.no_duplicates(),
            before == world::world_parts(*old(world)),
            after == before.map_values(|p: Parts| forgetting_source(p, source)),
            world::world_names(*world) == world::world_names(*old(world)),
            world::world_parts(*world).dom() == before.dom(),
            forall|e: u64| seats@.contains(e) <==> before.contains_key(e),
            forall|k: int|
                0 <= k < seats@.len() ==> #[trigger] world::world_parts(*world)[seats@[k]] == (if k
                    < i {
                    after[seats@[k]]
                } else {
                    before[seats@[k]]
                }),
        decreases seats.len() - i,
    {
        let seat = seats[i];
        assert(seats@.contains(seats@[i as int]));
        if let Some(parts) = world::get(world, seat) {
            let mut parts = parts;
            if let Some(CurrentSurface::Xwayland(entity)) = parts.current {
                if entity == source {
                    parts.current = None;
                }
            }
            if let Some(candidate) = parts.candidate {
                if candidate.source == source {
                    parts.candidate = None;
                }
            }
            world::set(world, seat, parts);
        }
        i += 1;
    }
    assert(world::world_parts(*world) =~= after) by {
        assert forall|e: u64| before.contains_key(e) implies world::world_parts(*world)[e]
            == after[e] by {
            let k = choose|k: int| 0 <= k < seats@.len() && seats@[k] == e;
            assert(seats@[k] == e);
        }
    }
}

/// Invalidates every move candidate on a seat bound from `global`. A global may be bound any
/// number of times, so this does not stop at the first.
pub fn invalidate_move_candidates_for_seat_global(world: &mut hecs::World, global: u32)
    ensures
        world::world_parts(*final(world)) == invalidated_for_global(
            world::world_parts(*old(world)),
            global,
        ),
        world::world_names(*final(world)) == world::world_names(*old(world)),
{
    let ghost before = world::world_parts(*world);
    let ghost after = invalidated_for_global(before, global);
    let seats = world::entities(world);
    let mut i: usize = 0;
    while i < seats.len()
        invariant
            i <= seats.len(),
            seats@.no_duplicates(),
            before == world::world_parts(*old(world)),
            after == invalidated_for_global(before, global),
            world::world_names(*world) == world::world_names(*old(world)),
            world::world_parts(*world).dom() == before.dom(),
            forall|e: u64| seats@.contains(e) <==> before.contains_key(e),
            forall|k: int|
                0 <= k < seats@.len() ==> #[trigger] world::world_parts(*world)[seats@[k]] == (if k
                    < i {
                    after[seats@[k]]
                } else {
                    before[seats@[k]]
                }),
        decreases seats.len() - i,
    {
        let seat = seats[i];
        assert(seats@.contains(seats@[i as int]));
        if let Some(parts) = world::get(world, seat) {
            if let Some(name) = parts.global {
                if name == global {
                    world::set(world, seat, Parts { candidate: None, ..parts });
                }
            }
        }
        i += 1;
    }
    assert(world::world_parts(*world) =~= after) by {
        assert forall|e: u64| before.contains_key(e) implies world::world_parts(*world)[e]
            == after[e] by {
            let k = choose|k: int| 0 <= k < seats@.len() && seats@[k] == e;
            assert(seats@[k] == e);
        }
    }
}

/// Records a left press over `source` as this seat's move candidate, replacing any previous one.
///
/// The seat's global has to be offered still: removals are handled before the events that were
/// queued with them, so an older press must not undo what a removal invalidated.
pub fn create_move_candidate<V>(
    world: &mut hecs::World,
    globals_map: &HashMap<u32, V>,
    seat: u64,
    source: u64,
    serial: u32,
)
    ensures
        world::world_parts(*final(world)) == pressed(
            world::world_parts(*old(world)),
            globals_map@.dom(),
            seat,
            source,
            serial,
        ),
        world::world_names(*final(world)) == world::world_names(*old(world)),
{
    invalidate_move_candidate(world, seat);
    let parts = match world::get(world, seat) {
        Some(parts) => parts,
        None => return,
    };
    let global = match parts.global {
        Some(global) => global,
        None => return,
    };
    if !globals_map.contains_key(&global) {
        return;
    }
    if let Some(pointer) = parts.pointer {
        let candidate = Some(MoveCandidate { source, serial, pointer: pointer.id });
        world::set(world, seat, Parts { candidate, ..parts });
    }
}

/// Finds the single seat that can start a move of `source`.
pub fn find_move_candidate<V>(
    world: &hecs::World,
    globals_map: &HashMap<u32, V>,
    source: u64,
) -> (found: Result<u64, NoMoveCandidate>)
    ensures
        match found {
            Ok(seat) => usable_seat(world::world_parts(*world), globals_map@.dom(), seat, source)
                && forall|other: u64| #[trigger]
                usable_seat(world::world_parts(*world), globals_map@.dom(), other, source)
                    ==> other == seat,
            Err(NoMoveCandidate::Missing) => forall|seat: u64|
                !#[trigger] usable_seat(
                    world::world_parts(*world),
                    globals_map@.dom(),
                    seat,
                    source,
                ),
            Err(NoMoveCandidate::Ambiguous) => exists|a: u64, b: u64|
                a != b && #[trigger] usable_seat(
                    world::world_parts(*world),
                    globals_map@.dom(),
                    a,
                    source,
                ) && #[trigger] usable_seat(
                    world::world_parts(*world),
                    globals_map@.dom(),
                    b,
                    source,
                ),
        },
{
    let ghost all = world::world_parts(*world);
    let ghost globals = globals_map@.dom();
    let seats = world::entities(world);
    let mut found: Option<u64> = None;
    let mut i: usize = 0;
    while i < seats.len()
        invariant
            i <= seats.len(),
            all == world::world_parts(*world),
            globals == globals_map@.dom(),
            seats@.no_duplicates(),
            forall|e: u64| seats@.contains(e) <==> all.contains_key(e),
            match found {
                Some(seat) => usable_seat(all, globals, seat, source) && (forall|k: int|
                    0 <= k < i && usable_seat(all, globals, #[trigger] seats@[k], source)
                        ==> seats@[k] == seat) && exists|k: int| 0 <= k < i && seats@[k] == seat,
                None => forall|k: int|
                    0 <= k < i ==> !usable_seat(all, globals, #[trigger] seats@[k], source),
            },
        decreases seats.len() - i,
    {
        let seat = seats[i];
        assert(seats@.contains(seats@[i as int]));
        let mut is_usable = false;
        if let Some(parts) = world::get(world, seat) {
            if let (Some(candidate), Some(wl_seat), Some(pointer), Some(global)) = (
                parts.candidate,
                parts.seat,
                parts.pointer,
                parts.global,
            ) {
                is_usable = candidate.source == source && globals_map.contains_key(&global)
                    && wl_seat.alive && pointer.alive && candidate.pointer == pointer.id;
            }
        }
        assert(is_usable == usable_seat(all, globals, seat, source));
        if is_usable {
            if let Some(other) = found {
                assert(other != seat);
                assert(usable_seat(all, globals, other, source));
                return Err(NoMoveCandidate::Ambiguous);
            }
            found = Some(seat);
        }
        i += 1;
    }
    proof {
        assert forall|other: u64| #[trigger] usable_seat(all, globals, other, source) implies found
            == Some(other) by {
            assert(seats@.contains(other));
            let k = choose|k: int| 0 <= k < seats@.len() && seats@[k] == other;
            assert(seats@[k] == other);
        }
    }
    match found {
        Some(seat) => Ok(seat),
        None => Err(NoMoveCandidate::Missing),
    }
}

/// The left mouse button.
pub const BUTTON_LEFT: u32 = 0x110;

/// An event of the compositor's pointer. Positions are in fixed point.
#[derive(Clone, Copy, Debug, PartialEq, Eq, Structural)]
pub enum PointerEvent {
    Enter { serial: u32, surface: SurfaceRef, surface_x: i32, surface_y: i32 },
    /// `alive` tells whether the surface that the pointer leaves still exists.
    Leave { serial: u32, surface: SurfaceRef, alive: bool },
    Motion { time: u32, surface_x: i32, surface_y: i32 },
    Button { serial: u32, time: u32, button: u32, pressed: bool },
    /// Scrolling and frame events.
    Other,
}

/// What is to be done about a pointer event. A position is scaled before it is sent.
#[derive(Clone, Copy, Debug, PartialEq, Eq, Structural)]
pub enum PointerAction {
    Enter {
        serial: u32,
        surface: u64,
        surface_x: i32,
        surface_y: i32,
        scale: SurfaceScaleFactor,
    },
    RaiseToTop { window: u32 },
    Leave { serial: u32, surface: u64 },
    Motion { time: u32, surface_x: i32, surface_y: i32, scale: SurfaceScaleFactor },
    Button { serial: u32, time: u32, button: u32, pressed: bool },
    /// Hand the event on as it is.
    Forward,
    DecorationMotion { parent: u64, surface_x: i32, surface_y: i32 },
    DecorationLeave { parent: u64 },
    DecorationClick { parent: u64, seat: u64, serial: u32 },
}

/// What pointer events read and change.
pub struct PointerModel {
    pub parts: Map<u64, Parts>,
    pub last_hovered: Option<u32>,
}

/// Whether the pointer can enter a surface: it is that of an X11 window and has a role.
pub open spec fn enterable(parts: Map<u64, Parts>, surface: SurfaceRef) -> bool {
    &&& surface matches SurfaceRef::Entity(entity)
    &&& parts.contains_key(entity)
    &&& parts[entity].surface
    &&& parts[entity].role is Some
    &&& parts[entity].scale is Some
    &&& parts[entity].window is Some
}

/// Whether an enter is put off: the surface is a popup, and this enter is not the one that
/// already waits.
pub open spec fn held_back(parts: Map<u64, Parts>, target: u64, enter: PendingEnter) -> bool {
    &&& parts[enter.surface->Entity_0].role->0 is Popup
    &&& !(parts[target].pending_enter matches Some(pending) && pending.serial == enter.serial)
}

/// The state after an enter. Entering ends whatever press came before.
pub open spec fn entered(m: PointerModel, target: u64, enter: PendingEnter) -> PointerModel {
    let cleared = Parts { candidate: None, pending_enter: None, ..m.parts[target] };
    if enterable(m.parts, enter.surface) {
        let entity = enter.surface->Entity_0;
        let scaled = Parts { scale: m.parts[entity].scale, ..cleared };
        if held_back(m.parts, target, enter) {
            PointerModel {
                parts: m.parts.insert(target, Parts { pending_enter: Some(enter), ..scaled }),
                last_hovered: m.last_hovered,
            }
        } else {
            PointerModel {
                parts: m.parts.insert(
                    target,
                    Parts { current: Some(CurrentSurface::Xwayland(entity)), ..scaled },
                ),
                last_hovered: if m.parts[entity].role->0 is Popup {
                    m.last_hovered
                } else {
                    m.parts[entity].window
                },
            }
        }
    } else {
        PointerModel {
            parts: m.parts.insert(
                target,
                Parts {
                    current: match enter.surface {
                        SurfaceRef::Decoration(parent) => Some(CurrentSurface::Decoration(parent)),
                        _ => None,
                    },
                    ..cleared
                },
            ),
            last_hovered: m.last_hovered,
        }
    }
}

/// What is sent for an enter.
pub open spec fn enter_actions(m: PointerModel, target: u64, enter: PendingEnter) -> Seq<
    PointerAction,
> {
    if enterable(m.parts, enter.surface) && !held_back(m.parts, target, enter) {
        let entity = enter.surface->Entity_0;
        seq![
            PointerAction::Enter {
                serial: enter.serial,
                surface: entity,
                surface_x: enter.surface_x,
                surface_y: enter.surface_y,
                scale: m.parts[entity].scale->0,
            },
            PointerAction::RaiseToTop { window: m.parts[entity].window->0 },
        ]
    } else {
        Seq::empty()
    }
}

/// Whether the surface of a waiting enter belongs to an entity that still exists.
pub open spec fn pending_resolves(parts: Map<u64, Parts>, target: u64) -> bool {
    parts[target].pending_enter matches Some(pending) && pending.surface matches SurfaceRef::Entity(
        entity,
    ) && parts.contains_key(entity)
}

/// The state after a waiting enter has been dealt with. If its surface is gone, it is not known
/// what the pointer is on.
pub open spec fn pending_settled(m: PointerModel, target: u64) -> PointerModel {
    match m.parts[target].pending_enter {
        None => m,
        Some(pending) => if pending_resolves(m.parts, target) {
            entered(m, target, pending)
        } else {
            PointerModel {
                parts: m.parts.insert(
                    target,
                    Parts {
                        pending_enter: None,
                        current: None,
                        candidate: None,
                        ..m.parts[target]
                    },
                ),
                last_hovered: m.last_hovered,
            }
        },
    }
}

/// What is sent for a waiting enter.
pub open spec fn pending_actions(m: PointerModel, target: u64) -> Seq<PointerAction> {
    if pending_resolves(m.parts, target) {
        enter_actions(m, target, m.parts[target].pending_enter->0)
    } else {
        Seq::empty()
    }
}

/// The state after a leave.
pub open spec fn left(m: PointerModel, target: u64) -> PointerModel {
    PointerModel {
        parts: m.parts.insert(
            target,
            Parts { candidate: None, pending_enter: None, current: None, ..m.parts[target] },
        ),
        last_hovered: m.last_hovered,
    }
}

/// What is sent for a leave.
pub open spec fn leave_actions(
    m: PointerModel,
    target: u64,
    serial: u32,
    surface: SurfaceRef,
    alive: bool,
) -> Seq<PointerAction> {
    if !alive {
        Seq::empty()
    } else {
        match (m.parts[target].current, surface) {
            (Some(CurrentSurface::Decoration(parent)), _) => seq![
                PointerAction::DecorationLeave { parent },
            ],
            (_, SurfaceRef::Entity(entity)) if m.parts.contains_key(entity)
                && m.parts[entity].surface => seq![PointerAction::Leave { serial, surface: entity }],
            _ => Seq::empty(),
        }
    }
}

/// The scale of a pointer: that of the surface it is on, or one.
pub open spec fn pointer_scale(parts: Parts) -> SurfaceScaleFactor {
    match parts.scale {
        Some(scale) => scale,
        None => SurfaceScaleFactor { n120: 120 },
    }
}

/// What is sent for a motion once no enter waits any more.
pub open spec fn motion_actions(
    parts: Parts,
    time: u32,
    surface_x: i32,
    surface_y: i32,
) -> Seq<PointerAction> {
    match parts.current {
        Some(CurrentSurface::Decoration(parent)) => seq![
            PointerAction::DecorationMotion { parent, surface_x, surface_y },
        ],
        _ => if parts.server_pointer {
            seq![PointerAction::Motion { time, surface_x, surface_y, scale: pointer_scale(parts) }]
        } else {
            Seq::empty()
        },
    }
}

/// The state after a button event, once no enter waits any more: a left press on a window is
/// remembered there, and becomes the seat's move candidate.
pub open spec fn clicked(
    m: PointerModel,
    globals: Set<u32>,
    target: u64,
    serial: u32,
    left_press: bool,
) -> PointerModel {
    let p = m.parts[target];
    match p.current {
        Some(CurrentSurface::Xwayland(entity)) if p.server_pointer && p.seat is Some && left_press =>
        {
            let last_click = Some(LastClickSerial { seat: p.seat->0.id, serial });
            let noted = if m.parts.contains_key(entity) {
                m.parts.insert(entity, Parts { last_click, ..m.parts[entity] })
            } else {
                m.parts
            };
            PointerModel {
                parts: pressed(noted, globals, target, entity, serial),
                last_hovered: m.last_hovered,
            }
        },
        _ => m,
    }
}

/// What is sent for a button event once no enter waits any more.
pub open spec fn click_actions(
    parts: Parts,
    serial: u32,
    time: u32,
    button: u32,
    pressed: bool,
) -> Seq<PointerAction> {
    if !parts.server_pointer || parts.seat is None {
        Seq::empty()
    } else {
        match parts.current {
            Some(CurrentSurface::Decoration(parent)) if pressed && button == BUTTON_LEFT => seq![
                PointerAction::DecorationClick { parent, seat: parts.seat->0.id, serial },
            ],
            _ => seq![PointerAction::Button { serial, time, button, pressed }],
        }
    }
}

/// The state after a button event. A left release ends the candidate whatever else happens.
pub open spec fn buttoned(
    m: PointerModel,
    globals: Set<u32>,
    target: u64,
    serial: u32,
    button: u32,
    pressed: bool,
) -> PointerModel {
    let settled = pending_settled(released(m, target, button, pressed), target);
    clicked(settled, globals, target, serial, pressed && button == BUTTON_LEFT)
}

/// The state after the first thing that a button event does.
pub open spec fn released(m: PointerModel, target: u64, button: u32, pressed: bool) -> PointerModel {
    if button == BUTTON_LEFT && !pressed {
        PointerModel {
            parts: invalidated(m.parts, target),
            last_hovered: m.last_hovered,
        }
    } else {
        m
    }
}

/// The state after a pointer event.
pub open spec fn pointer_after(
    m: PointerModel,
    globals: Set<u32>,
    target: u64,
    event: PointerEvent,
) -> PointerModel {
    match event {
        PointerEvent::Enter { serial, surface, surface_x, surface_y } => entered(
            m,
            target,
            PendingEnter { serial, surface, surface_x, surface_y },
        ),
        PointerEvent::Leave { .. } => left(m, target),
        PointerEvent::Motion { .. } => pending_settled(m, target),
        PointerEvent::Button { serial, button, pressed, .. } => buttoned(
            m,
            globals,
            target,
            serial,
            button,
            pressed,
        ),
        PointerEvent::Other => m,
    }
}

/// What is sent for a pointer event.
pub open spec fn pointer_actions(m: PointerModel, target: u64, event: PointerEvent) -> Seq<
    PointerAction,
> {
    match event {
        PointerEvent::Enter { serial, surface, surface_x, surface_y } => enter_actions(
            m,
            target,
            PendingEnter { serial, surface, surface_x, surface_y },
        ),
        PointerEvent::Leave { serial, surface, alive } => leave_actions(
            m,
            target,
            serial,
            surface,
            alive,
        ),
        PointerEvent::Motion { time, surface_x, surface_y } => pending_actions(m, target)
            + motion_actions(pending_settled(m, target).parts[target], time, surface_x, surface_y),
        PointerEvent::Button { serial, time, button, pressed } => {
            let m = released(m, target, button, pressed);
            pending_actions(m, target) + click_actions(
                pending_settled(m, target).parts[target],
                serial,
                time,
                button,
                pressed,
            )
        },
        PointerEvent::Other => match m.parts[target].current {
            Some(CurrentSurface::Decoration(_)) => Seq::empty(),
            _ => seq![PointerAction::Forward],
        },
    }
}

/// Whether a pointer event reaches the X server's pointer, which then has to exist.
pub open spec fn needs_server_pointer(m: PointerModel, target: u64, event: PointerEvent) -> bool {
    match event {
        PointerEvent::Enter { surface, .. } => enterable(m.parts, surface),
        PointerEvent::Leave { serial, surface, alive } => {
            &&& alive
            &&& !(m.parts[target].current matches Some(CurrentSurface::Decoration(_)))
            &&& surface matches SurfaceRef::Entity(entity)
            &&& m.parts.contains_key(entity)
            &&& m.parts[entity].surface
        },
        PointerEvent::Motion { .. } | PointerEvent::Button { .. } => pending_resolves(
            m.parts,
            target,
        ) && enterable(m.parts, m.parts[target].pending_enter->0.surface),
        PointerEvent::Other => true,
    }
}

impl InnerServerState {
    /// What pointer events read and change.
    pub open spec fn pointer_model(self) -> PointerModel {
        PointerModel { parts: self.parts(), last_hovered: self.last_hovered }
    }

    /// Handles an enter, whether it just came or had been put off.
    fn pointer_enter(&mut self, target: u64, enter: PendingEnter, actions: &mut Vec<PointerAction>)
        requires
            old(self).parts().contains_key(target),
            enterable(old(self).parts(), enter.surface) ==> old(self).parts()[target].server_pointer,
        ensures
            final(self).pointer_model() == entered(old(self).pointer_model(), target, enter),
            final(self).names() == old(self).names(),
            final(actions)@ == old(actions)@ + enter_actions(
                old(self).pointer_model(),
                target,
                enter,
            ),
            *final(self) == (InnerServerState {
                world: final(self).world,
                last_hovered: final(self).last_hovered,
                ..*old(self)
            }),
    {
        let before = match world::get(&self.world, target) {
            Some(parts) => parts,
            None => return,
        };
        let pending_enter = before.pending_enter;
        let mut parts = before;
        parts.candidate = None;
        parts.pending_enter = None;
        if let SurfaceRef::Entity(entity) = enter.surface {
            if let Some(surface) = world::get(&self.world, entity) {
                if let (true, Some(role), Some(scale), Some(window)) = (
                    surface.surface,
                    surface.role,
                    surface.scale,
                    surface.window,
                ) {
                    parts.scale = Some(scale);
                    let surface_is_popup = matches!(role, SurfaceRole::Popup(_));
                    let resent = match pending_enter {
                        Some(pending) => pending.serial == enter.serial,
                        None => false,
                    };
                    if surface_is_popup && !resent {
                        parts.pending_enter = Some(enter);
                        world::set(&mut self.world, target, parts);
                        return;
                    }
                    actions.push(
                        PointerAction::Enter {
                            serial: enter.serial,
                            surface: entity,
                            surface_x: enter.surface_x,
                            surface_y: enter.surface_y,
                            scale,
                        },
                    );
                    actions.push(PointerAction::RaiseToTop { window });
                    if !surface_is_popup {
                        self.last_hovered = Some(window);
                    }
                    parts.current = Some(CurrentSurface::Xwayland(entity));
                    world::set(&mut self.world, target, parts);
                    return;
                }
            }
        }
        parts.current = match enter.surface {
            SurfaceRef::Decoration(parent) => Some(CurrentSurface::Decoration(parent)),
            _ => None,
        };
        world::set(&mut self.world, target, parts);
    }

    /// Sends an enter that was put off, now that the pointer does something.
    fn handle_pending_enter(&mut self, target: u64, actions: &mut Vec<PointerAction>)
        requires
            old(self).parts().contains_key(target),
            pending_resolves(old(self).parts(), target) && enterable(
                old(self).parts(),
                old(self).parts()[target].pending_enter->0.surface,
            ) ==> old(self).parts()[target].server_pointer,
        ensures
            final(self).pointer_model() == pending_settled(old(self).pointer_model(), target),
            final(self).parts()[target].pending_enter is None,
            final(self).names() == old(self).names(),
            final(actions)@ == old(actions)@ + pending_actions(old(self).pointer_model(), target),
            *final(self) == (InnerServerState {
                world: final(self).world,
                last_hovered: final(self).last_hovered,
                ..*old(self)
            }),
    {
        let parts = match world::get(&self.world, target) {
            Some(parts) => parts,
            None => return,
        };
        let pending = match parts.pending_enter {
            Some(pending) => pending,
            None => return,
        };
        if let SurfaceRef::Entity(entity) = pending.surface {
            if world::get(&self.world, entity).is_some() {
                self.pointer_enter(target, pending, actions);
                return;
            }
        }
        world::set(
            &mut self.world,
            target,
            Parts { pending_enter: None, current: None, candidate: None, ..parts },
        );
    }

    /// Handles a leave.
    fn pointer_leave(
        &mut self,
        target: u64,
        serial: u32,
        surface: SurfaceRef,
        alive: bool,
        actions: &mut Vec<PointerAction>,
    )
        requires
            old(self).parts().contains_key(target),
        ensures
            final(self).pointer_model() == left(old(self).pointer_model(), target),
            final(self).names() == old(self).names(),
            final(actions)@ == old(actions)@ + leave_actions(
                old(self).pointer_model(),
                target,
                serial,
                surface,
                alive,
            ),
            *final(self) == (InnerServerState { world: final(self).world, ..*old(self) }),
    {
        let parts = match world::get(&self.world, target) {
            Some(parts) => parts,
            None => return,
        };
        if alive {
            if let Some(CurrentSurface::Decoration(parent)) = parts.current {
                actions.push(PointerAction::DecorationLeave { parent });
            } else if let SurfaceRef::Entity(entity) = surface {
                if let Some(known) = world::get(&self.world, entity) {
                    if known.surface {
                        actions.push(PointerAction::Leave { serial, surface: entity });
                    }
                }
            }
        }
        world::set(
            &mut self.world,
            target,
            Parts { candidate: None, pending_enter: None, current: None, ..parts },
        );
    }

    /// Hands a motion on, once no enter waits any more.
    fn pointer_motion(
        &self,
        target: u64,
        time: u32,
        surface_x: i32,
        surface_y: i32,
        actions: &mut Vec<PointerAction>,
    )
        requires
            self.parts().contains_key(target),
        ensures
            final(actions)@ == old(actions)@ + motion_actions(
                self.parts()[target],
                time,
                surface_x,
                surface_y,
            ),
    {
        if let Some(parts) = world::get(&self.world, target) {
            if let Some(CurrentSurface::Decoration(parent)) = parts.current {
                actions.push(PointerAction::DecorationMotion { parent, surface_x, surface_y });
            } else if parts.server_pointer {
                let scale = match parts.scale {
                    Some(scale) => scale,
                    None => SurfaceScaleFactor { n120: 120 },
                };
                actions.push(PointerAction::Motion { time, surface_x, surface_y, scale });
            }
        }
    }

    /// Hands a button event on, once no enter waits any more.
    fn pointer_button(
        &mut self,
        target: u64,
        serial: u32,
        time: u32,
        button: u32,
        pressed: bool,
        actions: &mut Vec<PointerAction>,
    )
        requires
            old(self).parts().contains_key(target),
        ensures
            final(self).pointer_model() == clicked(
                old(self).pointer_model(),
                old(self).globals_map@.dom(),
                target,
                serial,
                pressed && button == BUTTON_LEFT,
            ),
            final(self).names() == old(self).names(),
            final(actions)@ == old(actions)@ + click_actions(
                old(self).parts()[target],
                serial,
                time,
                button,
                pressed,
            ),
            ({
                let p = old(self).parts()[target];
                let on_decoration = p.current matches Some(CurrentSurface::Decoration(_));
                let sent = PointerAction::Button { serial, time, button, pressed };
                &&& p.server_pointer && p.seat is Some && !(on_decoration && pressed && button
                    == 0x110) ==> final(actions)@ == old(actions)@.push(sent)
                &&& !p.server_pointer || p.seat is None ==> final(actions)@ == old(actions)@
            }),
            *final(self) == (InnerServerState { world: final(self).world, ..*old(self) }),
    {
        let parts = match world::get(&self.world, target) {
            Some(parts) => parts,
            None => return,
        };
        let seat = match (parts.server_pointer, parts.seat) {
            (true, Some(seat)) => seat,
            _ => return,
        };
        let left_press = pressed && button == BUTTON_LEFT;
        match parts.current {
            Some(CurrentSurface::Decoration(parent)) => {
                if left_press {
                    actions.push(PointerAction::DecorationClick { parent, seat: seat.id, serial });
                    return;
                }
            },
            Some(CurrentSurface::Xwayland(entity)) => {
                if left_press {
                    if let Some(source) = world::get(&self.world, entity) {
                        let last_click = Some(LastClickSerial { seat: seat.id, serial });
                        world::set(&mut self.world, entity, Parts { last_click, ..source });
                    }
                    create_move_candidate(
                        &mut self.world,
                        &self.globals_map,
                        target,
                        entity,
                        serial,
                    );
                }
            },
            None => {},
        }
        actions.push(PointerAction::Button { serial, time, button, pressed });
    }

    /// Handles a button event.
    fn pointer_button_event(
        &mut self,
        target: u64,
        serial: u32,
        time: u32,
        button: u32,
        pressed: bool,
        actions: &mut Vec<PointerAction>,
    )
        requires
            old(self).parts().contains_key(target),
            pending_resolves(old(self).parts(), target) && enterable(
                old(self).parts(),
                old(self).parts()[target].pending_enter->0.surface,
            ) ==> old(self).parts()[target].server_pointer,
            old(actions)@.len() == 0,
        ensures
            final(self).pointer_model() == buttoned(
                old(self).pointer_model(),
                old(self).globals_map@.dom(),
                target,
                serial,
                button,
                pressed,
            ),
            final(actions)@ == pointer_actions(
                old(self).pointer_model(),
                target,
                PointerEvent::Button { serial, time, button, pressed },
            ),
            final(self).names() == old(self).names(),
            *final(self) == (InnerServerState {
                world: final(self).world,
                last_hovered: final(self).last_hovered,
                ..*old(self)
            }),
    {
        if button == BUTTON_LEFT && !pressed {
            invalidate_move_candidate(&mut self.world, target);
        }
        let ghost m = released(old(self).pointer_model(), target, button, pressed);
        assert(self.pointer_model() == m);
        assert(pending_resolves(m.parts, target) && enterable(
            m.parts,
            m.parts[target].pending_enter->0.surface,
        ) ==> m.parts[target].server_pointer);
        self.handle_pending_enter(target, actions);
        assert(actions@ =~= pending_actions(m, target));
        self.pointer_button(target, serial, time, button, pressed, actions);
    }

    /// Does what an event of the compositor's pointer calls for.
    #[verifier::rlimit(60)]
    fn deliver_pointer_event(&mut self, target: u64, event: PointerEvent) -> (actions: Vec<
        PointerAction,
    >)
        requires
            old(self).parts().contains_key(target),
            needs_server_pointer(old(self).pointer_model(), target, event)
                ==> old(self).parts()[target].server_pointer,
        ensures
            final(self).pointer_model() == pointer_after(
                old(self).pointer_model(),
                old(self).globals_map@.dom(),
                target,
                event,
            ),
            actions@ == pointer_actions(old(self).pointer_model(), target, event),
            final(self).names() == old(self).names(),
            *final(self) == (InnerServerState {
                world: final(self).world,
                last_hovered: final(self).last_hovered,
                ..*old(self)
            }),
            old(self).wf() ==> final(self).wf(),
            old(self).one_entity_each() ==> final(self).one_entity_each(),
    {
        let mut actions: Vec<PointerAction> = Vec::new();
        match event {
            PointerEvent::Enter { serial, surface, surface_x, surface_y } => {
                let enter = PendingEnter { serial, surface, surface_x, surface_y };
                self.pointer_enter(target, enter, &mut actions);
            },
            PointerEvent::Leave { serial, surface, alive } => {
                self.pointer_leave(target, serial, surface, alive, &mut actions);
            },
            PointerEvent::Motion { time, surface_x, surface_y } => {
                self.handle_pending_enter(target, &mut actions);
                self.pointer_motion(target, time, surface_x, surface_y, &mut actions);
            },
            PointerEvent::Button { serial, time, button, pressed } => {
                self.pointer_button_event(target, serial, time, button, pressed, &mut actions);
            },
            PointerEvent::Other => {
                let on_decoration = match world::get(&self.world, target) {
                    Some(parts) => match parts.current {
                        Some(current) => current.is_decoration(),
                        None => false,
                    },
                    None => false,
                };
                if !on_decoration {
                    actions.push(PointerAction::Forward);
                }
            },
        }
        actions
    }

    /// Handles an event of the compositor's pointer on the seat `target`.
    ///
    /// An enter on a popup is put off until the pointer moves or is pressed: some toolkits close a
    /// menu that is entered right after it appears.
    pub fn handle_pointer_event(&mut self, target: u64, event: PointerEvent) -> (actions: Vec<
        PointerAction,
    >)
        requires
            old(self).parts().contains_key(target),
            needs_server_pointer(old(self).pointer_model(), target, event)
                ==> old(self).parts()[target].server_pointer,
        ensures
            final(self).pointer_model() == pointer_after(
                old(self).pointer_model(),
                old(self).globals_map@.dom(),
                target,
                event,
            ),
            actions@ == pointer_actions(old(self).pointer_model(), target, event),
            event matches PointerEvent::Button { serial, time, button, pressed } ==> {
                let p = old(self).parts()[target];
                let on_decoration = final(self).parts()[target].current matches Some(
                    CurrentSurface::Decoration(_),
                );
                p.server_pointer && p.seat is Some && !(pressed && button == 0x110 && on_decoration)
                    ==> actions@.len() > 0 && actions@.last() == (PointerAction::Button {
                    serial,
                    time,
                    button,
                    pressed,
                })
            },
            event matches PointerEvent::Motion { time, surface_x, surface_y } ==> {
                let p = final(self).parts()[target];
                let on_decoration = p.current matches Some(CurrentSurface::Decoration(_));
                p.server_pointer && !on_decoration ==> actions@.len() > 0 && actions@.last() == (
                PointerAction::Motion {
                    time,
                    surface_x,
                    surface_y,
                    scale: if p.scale is Some {
                        p.scale->0
                    } else {
                        SurfaceScaleFactor { n120: 120 }
                    },
                })
            },
            final(self).names() == old(self).names(),
            *final(self) == (InnerServerState {
                world: final(self).world,
                last_hovered: final(self).last_hovered,
                ..*old(self)
            }),
            old(self).wf() ==> final(self).wf(),
            old(self).one_entity_each() ==> final(self).one_entity_each(),
    {
        let ghost m = self.pointer_model();
        let ghost globals = self.globals_map@.dom();
        let actions = self.deliver_pointer_event(target, event);
        proof {
            assert(self.parts() == pointer_after(m, globals, target, event).parts);
            match event {
                PointerEvent::Button { serial, time, button, pressed } => {
                    law_every_button_is_handed_on(
                        m,
                        globals,
                        target,
                        serial,
                        time,
                        button,
                        pressed,
                    );
                },
                PointerEvent::Motion { time, surface_x, surface_y } => {
                    law_every_motion_is_handed_on(m, globals, target, time, surface_x, surface_y);
                },
                _ => {},
            }
        }
        actions
    }

    /// Handles a change of what a seat can do: without a pointer no press can be used any more.
    pub fn handle_seat_capabilities(&mut self, target: u64, has_pointer: bool)
        ensures
            final(self).parts() == (if has_pointer {
                old(self).parts()
            } else {
                invalidated(old(self).parts(), target)
            }),
            final(self).names() == old(self).names(),
            *final(self) == (InnerServerState { world: final(self).world, ..*old(self) }),
            old(self).wf() ==> final(self).wf(),
            old(self).one_entity_each() ==> final(self).one_entity_each(),
    {
        if !has_pointer {
            invalidate_move_candidate(&mut self.world, target);
        }
    }
}

/// A move can be started only through a seat that last pressed the left button on that very
/// window.
pub proof fn law_candidate_belongs_to_pressed_window(
    parts: Map<u64, Parts>,
    globals: Set<u32>,
    seat: u64,
    pressed_window: u64,
    other: u64,
    serial: u32,
)
    requires
        other != pressed_window,
    ensures
        !usable_seat(pressed(parts, globals, seat, pressed_window, serial), globals, seat, other),
{
}

/// A press on a live seat can be used to move the pressed window.
pub proof fn law_press_is_usable(
    parts: Map<u64, Parts>,
    globals: Set<u32>,
    seat: u64,
    source: u64,
    serial: u32,
)
    requires
        parts.contains_key(seat),
        parts[seat].global matches Some(global) && globals.contains(global),
        parts[seat].seat matches Some(wl_seat) && wl_seat.alive,
        parts[seat].pointer matches Some(pointer) && pointer.alive,
    ensures
        usable_seat(pressed(parts, globals, seat, source, serial), globals, seat, source),
{
}

/// Once a seat's global is gone, no press of it can be used, whenever it happens.
pub proof fn law_removed_global_hides_presses(
    parts: Map<u64, Parts>,
    globals: Set<u32>,
    seat: u64,
    source: u64,
    serial: u32,
)
    requires
        parts.contains_key(seat),
        parts[seat].global matches Some(global) && !globals.contains(global),
    ensures
        !usable_seat(parts, globals, seat, source),
        !usable_seat(pressed(parts, globals, seat, source, serial), globals, seat, source),
{
}

/// No candidate outlives the press that made it: whatever a seat was doing, after a left release,
/// an enter or a leave it has none.
pub proof fn law_candidate_ends_with_the_press(
    m: PointerModel,
    globals: Set<u32>,
    target: u64,
    event: PointerEvent,
)
    requires
        m.parts.contains_key(target),
        event is Enter || event is Leave || (event matches PointerEvent::Button {
            button,
            pressed,
            ..
        } && button == BUTTON_LEFT && !pressed),
    ensures
        pointer_after(m, globals, target, event).parts[target].candidate is None,
{
}

/// Only a left press creates a candidate, and only for the window that the pointer is on.
pub proof fn law_only_a_left_press_creates_a_candidate(
    m: PointerModel,
    globals: Set<u32>,
    target: u64,
    event: PointerEvent,
)
    requires
        m.parts.contains_key(target),
        pointer_after(m, globals, target, event).parts[target].candidate is Some,
        pointer_after(m, globals, target, event).parts[target].candidate
            != m.parts[target].candidate,
    ensures
        event matches PointerEvent::Button { serial, button, pressed, .. } && button == BUTTON_LEFT
            && pressed && pointer_after(m, globals, target, event).parts[target].current == Some(
            CurrentSurface::Xwayland(
                pointer_after(m, globals, target, event).parts[target].candidate->0.source,
            ),
        ) && pointer_after(m, globals, target, event).parts[target].candidate->0.serial == serial,
{
}

/// An enter on a popup is put off, and a motion then delivers it, ahead of the motion itself.
pub proof fn law_popup_enter_waits_for_motion(
    m: PointerModel,
    globals: Set<u32>,
    target: u64,
    popup: u64,
    serial: u32,
    surface_x: i32,
    surface_y: i32,
    time: u32,
    x: i32,
    y: i32,
)
    requires
        m.parts.contains_key(target),
        m.parts[target].server_pointer,
        m.parts[target].pending_enter is None,
        target != popup,
        enterable(m.parts, SurfaceRef::Entity(popup)),
        m.parts[popup].role->0 is Popup,
    ensures
        ({
            let enter = PointerEvent::Enter {
                serial,
                surface: SurfaceRef::Entity(popup),
                surface_x,
                surface_y,
            };
            let motion = PointerEvent::Motion { time, surface_x: x, surface_y: y };
            let waiting = pointer_after(m, globals, target, enter);
            let scale = m.parts[popup].scale->0;
            &&& pointer_actions(m, target, enter) == Seq::<PointerAction>::empty()
            &&& pointer_actions(waiting, target, motion) == seq![
                PointerAction::Enter { serial, surface: popup, surface_x, surface_y, scale },
                PointerAction::RaiseToTop { window: m.parts[popup].window->0 },
                PointerAction::Motion { time, surface_x: x, surface_y: y, scale },
            ]
            &&& pointer_after(waiting, globals, target, motion).parts[target].pending_enter is None
        }),
{
    let enter = PointerEvent::Enter {
        serial,
        surface: SurfaceRef::Entity(popup),
        surface_x,
        surface_y,
    };
    let waiting = pointer_after(m, globals, target, enter);
    assert(waiting.parts[popup] == m.parts[popup]);
    assert(pending_resolves(waiting.parts, target));
    assert(enterable(waiting.parts, SurfaceRef::Entity(popup)));
    assert(!held_back(waiting.parts, target, waiting.parts[target].pending_enter->0));
}

/// Every press and every release of every button is handed on as it came, unless it is a left
/// press on a decoration, which is the decoration's. A seat without a pointer of the X server or
/// without its object hands nothing on.
pub proof fn law_every_button_is_handed_on(
    m: PointerModel,
    globals: Set<u32>,
    target: u64,
    serial: u32,
    time: u32,
    button: u32,
    pressed: bool,
)
    requires
        m.parts.contains_key(target),
    ensures
        ({
            let event = PointerEvent::Button { serial, time, button, pressed };
            let actions = pointer_actions(m, target, event);
            let p = m.parts[target];
            let current = pointer_after(m, globals, target, event).parts[target].current;
            let taken = pressed && button == 0x110 && current matches Some(
                CurrentSurface::Decoration(_),
            );
            &&& p.server_pointer && p.seat is Some && !taken ==> actions.len() > 0
                && actions.last() == (PointerAction::Button { serial, time, button, pressed })
            &&& p.server_pointer && p.seat is Some && taken ==> actions.len() > 0
                && actions.last() == (PointerAction::DecorationClick {
                parent: current->0->Decoration_0,
                seat: p.seat->0.id,
                serial,
            })
            &&& p.pending_enter is None && p.server_pointer && p.seat is Some ==> actions.len() == 1
            &&& p.pending_enter is None && (!p.server_pointer || p.seat is None) ==> actions.len()
                == 0
        }),
{
    let event = PointerEvent::Button { serial, time, button, pressed };
    let actions = pointer_actions(m, target, event);
    let before = released(m, target, button, pressed);
    let settled = pending_settled(before, target);
    assert(before.parts[target].server_pointer == m.parts[target].server_pointer);
    assert(settled.parts[target].server_pointer == m.parts[target].server_pointer);
    assert(settled.parts[target].seat == m.parts[target].seat);
    let clicks = click_actions(settled.parts[target], serial, time, button, pressed);
    assert(actions == pending_actions(before, target) + clicks);
    if clicks.len() > 0 {
        assert(actions.last() == clicks.last());
    }
}

/// Every motion is handed on with the place that it came with: to the decoration that the pointer
/// is on, and otherwise to the X server, at the scale of the surface that the pointer is on.
pub proof fn law_every_motion_is_handed_on(
    m: PointerModel,
    globals: Set<u32>,
    target: u64,
    time: u32,
    surface_x: i32,
    surface_y: i32,
)
    requires
        m.parts.contains_key(target),
    ensures
        ({
            let event = PointerEvent::Motion { time, surface_x, surface_y };
            let actions = pointer_actions(m, target, event);
            let p = pointer_after(m, globals, target, event).parts[target];
            &&& p.pending_enter is None
            &&& p.current matches Some(CurrentSurface::Decoration(parent)) ==> actions.len() > 0
                && actions.last() == (PointerAction::DecorationMotion {
                parent,
                surface_x,
                surface_y,
            })
            &&& p.server_pointer && !(p.current matches Some(CurrentSurface::Decoration(_)))
                ==> actions.len() > 0 && actions.last() == (PointerAction::Motion {
                time,
                surface_x,
                surface_y,
                scale: SurfaceScaleFactor {
                    n120: if p.scale is Some {
                        p.scale->0.n120
                    } else {
                        120
                    },
                },
            })
            &&& p.server_pointer == m.parts[target].server_pointer
            &&& m.parts[target].pending_enter is None ==> actions.len() <= 1 && p == m.parts[target]
        }),
{
    let event = PointerEvent::Motion { time, surface_x, surface_y };
    let actions = pointer_actions(m, target, event);
    let settled = pending_settled(m, target);
    let moves = motion_actions(settled.parts[target], time, surface_x, surface_y);
    assert(actions == pending_actions(m, target) + moves);
    if moves.len() > 0 {
        assert(actions.last() == moves.last());
    }
}

/// A pointer that enters the surface of a toplevel is on it from then on, at its scale, and its
/// window is the hovered one; the X server is told of the enter with the place that it came with,
/// and the window is raised.
pub proof fn law_enter_reaches_the_window(
    m: PointerModel,
    globals: Set<u32>,
    target: u64,
    entity: u64,
    serial: u32,
    surface_x: i32,
    surface_y: i32,
)
    requires
        m.parts.contains_key(target),
        m.parts.contains_key(entity),
        m.parts[entity].surface,
        m.parts[entity].role matches Some(SurfaceRole::Toplevel(_)),
        m.parts[entity].scale is Some,
        m.parts[entity].window is Some,
    ensures
        ({
            let event = PointerEvent::Enter {
                serial,
                surface: SurfaceRef::Entity(entity),
                surface_x,
                surface_y,
            };
            let after = pointer_after(m, globals, target, event);
            let p = after.parts[target];
            &&& pointer_actions(m, target, event) == seq![
                PointerAction::Enter {
                    serial,
                    surface: entity,
                    surface_x,
                    surface_y,
                    scale: m.parts[entity].scale->0,
                },
                PointerAction::RaiseToTop { window: m.parts[entity].window->0 },
            ]
            &&& p.current == Some(CurrentSurface::Xwayland(entity))
            &&& p.scale == m.parts[entity].scale
            &&& p.candidate is None && p.pending_enter is None
            &&& after.last_hovered == m.parts[entity].window
        }),
{
}

/// A pointer that enters a decoration is on it, and one that enters a surface that nothing is known
/// of is on nothing. Neither is told to the X server, and the hovered window stays.
pub proof fn law_enter_elsewhere(
    m: PointerModel,
    globals: Set<u32>,
    target: u64,
    parent: u64,
    serial: u32,
    surface_x: i32,
    surface_y: i32,
)
    requires
        m.parts.contains_key(target),
    ensures
        ({
            let decoration = PointerEvent::Enter {
                serial,
                surface: SurfaceRef::Decoration(parent),
                surface_x,
                surface_y,
            };
            let unknown = PointerEvent::Enter {
                serial,
                surface: SurfaceRef::Unknown,
                surface_x,
                surface_y,
            };
            let on = pointer_after(m, globals, target, decoration);
            let off = pointer_after(m, globals, target, unknown);
            &&& pointer_actions(m, target, decoration).len() == 0
            &&& pointer_actions(m, target, unknown).len() == 0
            &&& on.parts[target].current == Some(CurrentSurface::Decoration(parent))
            &&& off.parts[target].current is None
            &&& on.parts[target].scale == m.parts[target].scale
            &&& on.last_hovered == m.last_hovered && off.last_hovered == m.last_hovered
        }),
{
}

/// A pointer that has left is on nothing. The decoration or the X server is told of it, unless the
/// surface is gone.
pub proof fn law_leave_clears_the_pointer(
    m: PointerModel,
    globals: Set<u32>,
    target: u64,
    serial: u32,
    surface: SurfaceRef,
    alive: bool,
)
    requires
        m.parts.contains_key(target),
    ensures
        ({
            let event = PointerEvent::Leave { serial, surface, alive };
            let after = pointer_after(m, globals, target, event);
            let actions = pointer_actions(m, target, event);
            let p = after.parts[target];
            let on_decoration = m.parts[target].current matches Some(CurrentSurface::Decoration(_));
            &&& p.current is None && p.pending_enter is None && p.candidate is None
            &&& after.last_hovered == m.last_hovered
            &&& !alive ==> actions.len() == 0
            &&& alive && on_decoration ==> actions == seq![
                PointerAction::DecorationLeave {
                    parent: m.parts[target].current->0->Decoration_0,
                },
            ]
            &&& alive && !on_decoration && (surface matches SurfaceRef::Entity(entity)
                && m.parts.contains_key(entity) && m.parts[entity].surface) ==> actions == seq![
                PointerAction::Leave { serial, surface: surface->Entity_0 },
            ]
            &&& !on_decoration && !(surface is Entity) ==> actions.len() == 0
        }),
{
}

/// A left press on a window is remembered there and becomes the seat's move candidate, with the
/// press's serial. No other button event touches what a window remembers.
pub proof fn law_left_press_is_remembered(
    m: PointerModel,
    globals: Set<u32>,
    target: u64,
    entity: u64,
    serial: u32,
    time: u32,
    button: u32,
    pressed: bool,
)
    requires
        m.parts.contains_key(target),
        m.parts.contains_key(entity),
        entity != target,
        m.parts[target].pending_enter is None,
        m.parts[target].current == Some(CurrentSurface::Xwayland(entity)),
        m.parts[target].server_pointer,
        m.parts[target].seat is Some,
    ensures
        ({
            let event = PointerEvent::Button { serial, time, button, pressed };
            let after = pointer_after(m, globals, target, event);
            let p = m.parts[target];
            let offered = p.global is Some && globals.contains(p.global->0);
            &&& pressed && button == 0x110 ==> after.parts[entity].last_click == Some(
                LastClickSerial { seat: p.seat->0.id, serial },
            )
            &&& pressed && button == 0x110 && offered && p.pointer is Some
                ==> after.parts[target].candidate == Some(
                MoveCandidate { source: entity, serial, pointer: p.pointer->0.id },
            )
            &&& !(pressed && button == 0x110) ==> after.parts[entity] == m.parts[entity]
            &&& pressed && button != 0x110 ==> after.parts[target] == m.parts[target]
            &&& after.parts[target].current == p.current
            &&& forall|e: u64| #[trigger]
                m.parts.contains_key(e) && e != target && e != entity ==> after.parts[e]
                    == m.parts[e]
        }),
{
}

/// Scrolling is handed on unless the pointer is on a decoration, and changes nothing.
pub proof fn law_other_events_pass_through(m: PointerModel, globals: Set<u32>, target: u64)
    ensures
        pointer_after(m, globals, target, PointerEvent::Other) == m,
        m.parts[target].current matches Some(CurrentSurface::Decoration(_)) ==> pointer_actions(
            m,
            target,
            PointerEvent::Other,
        ).len() == 0,
        !(m.parts[target].current matches Some(CurrentSurface::Decoration(_))) ==> pointer_actions(
            m,
            target,
            PointerEvent::Other,
        ) == seq![PointerAction::Forward],
{
}

/// Forgetting presses takes nothing but candidates: one seat's, those over one window, or those of
/// one global, and no others.
pub proof fn law_only_the_meant_candidates_go(
    parts: Map<u64, Parts>,
    seat: u64,
    source: u64,
    global: u32,
    e: u64,
)
    requires
        parts.contains_key(e),
    ensures
        ({
            let p = parts[e];
            let of_seat = invalidated(parts, seat)[e];
            let of_source = invalidated_for_source(parts, source)[e];
            let of_global = invalidated_for_global(parts, global)[e];
            &&& e == seat ==> of_seat.candidate is None
            &&& e != seat ==> of_seat == p
            &&& (p.candidate matches Some(candidate) && candidate.source == source)
                ==> of_source.candidate is None
            &&& !(p.candidate matches Some(candidate) && candidate.source == source) ==> of_source
                == p
            &&& p.global == Some(global) ==> of_global.candidate is None
            &&& p.global != Some(global) ==> of_global == p
            &&& of_seat.current == p.current && of_source.current == p.current && of_global.current
                == p.current
            &&& of_seat.last_click == p.last_click && of_source.last_click == p.last_click
                && of_global.last_click == p.last_click
        }),
{
}

/// A surface that is gone is no longer what a pointer is on, and no press on it can be used; a
/// pointer that is elsewhere keeps its place and its press.
pub proof fn law_gone_source_is_forgotten(p: Parts, source: u64)
    ensures
        ({
            let q = forgetting_source(p, source);
            &&& q.current != Some(CurrentSurface::Xwayland(source))
            &&& q.candidate matches Some(candidate) ==> candidate.source != source
            &&& p.current != Some(CurrentSurface::Xwayland(source)) ==> q.current == p.current
            &&& (p.candidate matches Some(candidate) ==> candidate.source != source) ==> q.candidate
                == p.candidate
            &&& q.pending_enter == p.pending_enter
        }),
{
}

/// A press can be used only while seat, pointer and global are there, and only through the pointer
/// that delivered it.
pub proof fn law_usable_press(p: Parts, globals: Set<u32>, source: u64)
    ensures
        usable(p, globals, source) ==> p.candidate is Some && p.candidate->0.source == source
            && p.global is Some && globals.contains(p.global->0) && p.seat is Some
            && p.seat->0.alive && p.pointer is Some && p.pointer->0.alive
            && p.candidate->0.pointer == p.pointer->0.id,
        p.candidate is Some && p.candidate->0.source == source && p.global is Some
            && globals.contains(p.global->0) && p.seat is Some && p.seat->0.alive && p.pointer
            is Some && p.pointer->0.alive && p.candidate->0.pointer == p.pointer->0.id ==> usable(
            p,
            globals,
            source,
        ),
{
}

} // verus!
