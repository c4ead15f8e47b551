//! The entities that stand for windows, surfaces, outputs and seats.
//!
//! One X11 window, its Wayland surface and what they have been told are one entity of a
//! [`hecs::World`]; so are an output and a seat. An entity is named by its bits.

use vstd::prelude::*;
use crate::geometry::PendingSurfaceState;
use crate::output::{OutputDimensions, OutputScaleFactor, SurfaceScaleFactor};
use crate::pointer::{
    CurrentSurface, ForwardedPointerCursor, LastClickSerial, MoveCandidate, PendingEnter,
};
use crate::resize::ResizeEdge;
use crate::role::SurfaceRole;
use crate::window::WindowData;
use crate::xstate::WmName;

verus! {

/// The serial that ties an X11 window to the Wayland surface made for it.
#[derive(Clone, Copy, Debug, PartialEq, Eq, Structural)]
pub struct SurfaceSerial {
    pub low: u32,
    pub high: u32,
}

/// A buffer that a surface was given before it could show one.
#[derive(Clone, Copy, Debug, PartialEq, Eq, Structural)]
pub struct SurfaceAttach {
    pub buffer: Option<u64>,
    pub x: i32,
    pub y: i32,
}

/// An object of the compositor: which one it is, and whether it still exists.
#[derive(Clone, Copy, Debug, PartialEq, Eq, Structural)]
pub struct Handle {
    pub id: u64,
    pub alive: bool,
}

/// Everything that is known of one entity, apart from its texts.
#[derive(Clone, Copy, Debug, PartialEq, Eq, Structural)]
pub struct Parts {
    /// The X11 window.
    pub window: Option<u32>,
    pub data: Option<WindowData>,
    pub serial: Option<SurfaceSerial>,
    pub last_click: Option<LastClickSerial>,
    /// A configuration that the X server has yet to be sent.
    pub pending_dims: Option<PendingSurfaceState>,
    /// The entity has a Wayland surface.
    pub surface: bool,
    /// The scale of a surface, or of the surface that a pointer is on.
    pub scale: Option<SurfaceScaleFactor>,
    pub role: Option<SurfaceRole>,
    pub attach: Option<SurfaceAttach>,
    /// The frame callback that a surface asked for before it could show anything.
    pub callback: Option<u64>,
    pub on_output: Option<u64>,
    /// The entity is an output of the X server.
    pub output: bool,
    /// The X server asked for the logical geometry of the output.
    pub xdg_output: bool,
    pub output_scale: Option<OutputScaleFactor>,
    pub output_dims: Option<OutputDimensions>,
    /// The global that an output or a seat was bound from.
    pub global: Option<u32>,
    /// The compositor's seat.
    pub seat: Option<Handle>,
    /// The compositor's pointer.
    pub pointer: Option<Handle>,
    /// The X server has a pointer.
    pub server_pointer: bool,
    pub current: Option<CurrentSurface>,
    pub pending_enter: Option<PendingEnter>,
    pub candidate: Option<MoveCandidate>,
    /// The compositor can set the shape of this pointer.
    pub shape_device: bool,
    pub enter_serial: Option<u32>,
    pub resize_edge: Option<ResizeEdge>,
    pub decoration_cursor_serial: Option<u32>,
    pub forwarded_cursor: Option<ForwardedPointerCursor>,
}

/// The texts that belong to an X11 window.
#[derive(Debug)]
pub struct Names {
    pub title: Option<WmName>,
    pub class: Option<String>,
    pub activation_token: Option<String>,
}

#[verifier::external_type_specification]
#[verifier::external_body]
pub struct ExWorld(hecs::World);

/// The parts of each entity of the world that has any.
pub uninterp spec fn world_parts(world: hecs::World) -> Map<u64, Parts>;

/// The texts of each entity of the world that has any.
pub uninterp spec fn world_names(world: hecs::World) -> Map<u64, Names>;

/// Whether one more entity can be told apart from all others: hecs numbers the entities that are
/// alive with 32 bits.
pub open spec fn has_room(parts: Map<u64, Parts>) -> bool {
    parts.dom().finite() && parts.dom().len() < u32::MAX
}

/// What a map holds for a key.
pub open spec fn at<V>(map: Map<u64, V>, key: u64) -> Option<V> {
    if map.contains_key(key) {
        Some(map[key])
    } else {
        None
    }
}

impl Parts {
    /// An entity that nothing is known of.
    pub open spec fn nothing() -> Parts {
        Parts {
            window: None,
            data: None,
            serial: None,
            last_click: None,
            pending_dims: None,
            surface: false,
            scale: None,
            role: None,
            attach: None,
            callback: None,
            on_output: None,
            output: false,
            xdg_output: false,
            output_scale: None,
            output_dims: None,
            global: None,
            seat: None,
            pointer: None,
            server_pointer: false,
            current: None,
            pending_enter: None,
            candidate: None,
            shape_device: false,
            enter_serial: None,
            resize_edge: None,
            decoration_cursor_serial: None,
            forwarded_cursor: None,
        }
    }

    /// An entity that nothing is known of.
    pub fn empty() -> (parts: Parts)
        ensures
            parts == Parts::nothing(),
    {
        Parts {
            window: None,
            data: None,
            serial: None,
            last_click: None,
            pending_dims: None,
            surface: false,
            scale: None,
            role: None,
            attach: None,
            callback: None,
            on_output: None,
            output: false,
            xdg_output: false,
            output_scale: None,
            output_dims: None,
            global: None,
            seat: None,
            pointer: None,
            server_pointer: false,
            current: None,
            pending_enter: None,
            candidate: None,
            shape_device: false,
            enter_serial: None,
            resize_edge: None,
            decoration_cursor_serial: None,
            forwarded_cursor: None,
        }
    }
}

/// `hecs::World::new`: the new world has no entities.
#[verifier::external_body]
pub(crate) fn new_world() -> (world: hecs::World)
    ensures
        world_parts(world).dom() == Set::<u64>::empty(),
        world_names(world).dom() == Set::<u64>::empty(),
{
    hecs::World::new()
}

/// `hecs::World::spawn` with one [`Parts`]: an entity appears that no other entity shares its
/// bits with, and everything else stays. The call panics where there is no room for one more
/// entity.
#[verifier::external_body]
pub(crate) fn spawn(world: &mut hecs::World, parts: Parts) -> (entity: u64)
    requires
        has_room(world_parts(*old(world))),
    ensures
        !world_parts(*old(world)).contains_key(entity),
        !world_names(*old(world)).contains_key(entity),
        world_parts(*final(world)) == world_parts(*old(world)).insert(entity, parts),
        world_names(*final(world)) == world_names(*old(world)),
{
    world.spawn((parts,)).to_bits().get()
}

/// `hecs::World::get` of [`Parts`]: a copy of what the entity has, or `None` where there is no
/// such entity or it has none. No borrow is held outside the functions of this module.
#[verifier::external_body]
pub(crate) fn get(world: &hecs::World, entity: u64) -> (parts: Option<Parts>)
    ensures
        parts == at(world_parts(*world), entity),
{
    let entity = hecs::Entity::from_bits(entity)?;
    world.get::<&Parts>(entity).ok().map(|parts| *parts)
}

/// `hecs::World::insert_one` of [`Parts`] on an entity that has some: they are replaced.
#[verifier::external_body]
pub(crate) fn set(world: &mut hecs::World, entity: u64, parts: Parts)
    requires
        world_parts(*old(world)).contains_key(entity),
    ensures
        world_parts(*final(world)) == world_parts(*old(world)).insert(entity, parts),
        world_names(*final(world)) == world_names(*old(world)),
{
    let _ = hecs::Entity::from_bits(entity).map(|entity| world.insert_one(entity, parts));
}

/// `hecs::World::despawn`: the entity and all that it has are gone.
#[verifier::external_body]
pub(crate) fn despawn(world: &mut hecs::World, entity: u64)
    ensures
        world_parts(*final(world)) == world_parts(*old(world)).remove(entity),
        world_names(*final(world)) == world_names(*old(world)).remove(entity),
{
    let _ = hecs::Entity::from_bits(entity).map(|entity| world.despawn(entity));
}

/// `hecs::World::query` over [`Parts`]: every entity that has some, each once, in no particular
/// order.
#[verifier::external_body]
pub(crate) fn entities(world: &hecs::World) -> (entities: Vec<u64>)
    ensures
        entities@.no_duplicates(),
        forall|entity: u64| entities@.contains(entity) <==> world_parts(*world).contains_key(entity),
{
    world.query::<&Parts>().iter().map(|(entity, _)| entity.to_bits().get()).collect()
}

/// `hecs::World::insert_one` of [`Names`] on an entity that exists: they are replaced.
#[verifier::external_body]
pub(crate) fn set_names(world: &mut hecs::World, entity: u64, names: Names)
    requires
        world_parts(*old(world)).contains_key(entity),
    ensures
        world_parts(*final(world)) == world_parts(*old(world)),
        world_names(*final(world)) == world_names(*old(world)).insert(entity, names),
{
    let _ = hecs::Entity::from_bits(entity).map(|entity| world.insert_one(entity, names));
}

/// `hecs::World::remove_one` of [`Names`]: takes the texts off the entity, if it has any.
#[verifier::external_body]
pub(crate) fn take_names(world: &mut hecs::World, entity: u64) -> (names: Option<Names>)
    ensures
        names == at(world_names(*old(world)), entity),
        world_parts(*final(world)) == world_parts(*old(world)),
        world_names(*final(world)) == world_names(*old(world)).remove(entity),
{
    let entity = hecs::Entity::from_bits(entity)?;
    world.remove_one::<Names>(entity).ok()
}

/// What one more element adds to the first elements of a sequence without duplicates.
pub(crate) proof fn lemma_take_one_more(s: Seq<u64>, i: int)
    requires
        s.no_duplicates(),
        0 <= i < s.len(),
    ensures
        !s.take(i).contains(s[i]),
        forall|e: u64| #[trigger]
            s.take(i + 1).contains(e) <==> s.take(i).contains(e) || e == s[i],
{
    assert(s.take(i + 1) =~= s.take(i).push(s[i]));
    assert forall|e: u64| #[trigger]
        s.take(i + 1).contains(e) <==> s.take(i).contains(e) || e == s[i] by {
        vstd::seq_lib::lemma_seq_contains_after_push(s.take(i), s[i], e);
    }
    if s.take(i).contains(s[i]) {
        let k = choose|k: int| 0 <= k < i && s.take(i)[k] == s[i];
        assert(s[k] == s[i]);
    }
}

/// An entity of which nothing is known stands for nothing.
pub proof fn law_nothing_is_known_at_first()
    ensures
        ({
            let p = Parts::nothing();
            &&& p.window is None && p.data is None && p.serial is None && p.last_click is None
            &&& p.pending_dims is None && !p.surface && p.scale is None && p.role is None
            &&& p.attach is None && p.callback is None && p.on_output is None
            &&& !p.output && !p.xdg_output && p.output_scale is None && p.output_dims is None
            &&& p.global is None && p.seat is None && p.pointer is None && !p.server_pointer
            &&& p.current is None && p.pending_enter is None && p.candidate is None
            &&& !p.shape_device && p.enter_serial is None && p.resize_edge is None
            &&& p.decoration_cursor_serial is None && p.forwarded_cursor is None
        }),
{
}

/// What is found under a key is what is there.
pub proof fn law_found_under_its_key<V>(map: Map<u64, V>, key: u64)
    ensures
        map.contains_key(key) ==> at(map, key) == Some(map[key]),
        !map.contains_key(key) ==> at(map, key) is None,
{
}

} // verus!
