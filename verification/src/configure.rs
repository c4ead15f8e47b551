//! Mapping windows, and what their configure requests come to.

use vstd::prelude::*;
use crate::decoration;
use crate::decoration::toplevel_can_resize;
use crate::geometry;
use crate::geometry::{requested_dims_from_mask, sub_i32, ConfigWindowMask, WindowDims};
use crate::output::SurfaceScaleFactor;
use crate::resize;
use crate::resize::{
    resize_direction_from_edge, resize_edge_from_direction, MoveResizeDirection, ResizeEdge,
};
use crate::role::SurfaceRole;
use crate::roles;
use crate::roles::RoleCreated;
use crate::state::InnerServerState;
use crate::window;
use crate::window::{
    decide_configure_resize, ConfigureInteraction, ConfigureResizeDecision,
    InitialToplevelMapState, WindowData, DEFERRED_INITIAL_TOPLEVEL_TIMEOUT,
};
use crate::windows;
use crate::world;
use crate::world::Parts;

verus! {

/// An interactive move that the compositor is to start.
#[derive(Clone, Copy, Debug, PartialEq, Eq, Structural)]
pub struct MoveRequest {
    pub entity: u64,
    pub seat: u64,
    pub serial: u32,
}

/// An interactive resize that the compositor is to start.
#[derive(Clone, Copy, Debug, PartialEq, Eq, Structural)]
pub struct ResizeRequest {
    pub entity: u64,
    pub seat: u64,
    pub serial: u32,
    pub edge: ResizeEdge,
}

/// What becomes of a configure request that only moves a window.
#[derive(Clone, Copy, Debug, PartialEq, Eq, Structural)]
pub enum ConfigureMove {
    NotHandled,
    /// The press already moves the window.
    Moving,
    Start(MoveRequest),
}

/// What becomes of a configure request that resizes a window.
#[derive(Clone, Copy, Debug, PartialEq, Eq, Structural)]
pub enum ConfigureResize {
    NotHandled,
    Handled,
    /// A resize began; it is sent on unless the toplevel cannot be resized.
    Start(Option<ResizeRequest>),
}

/// A popup that is to be placed anew. Lengths are divided by the scale first, and a size is at
/// least one.
#[derive(Clone, Copy, Debug, PartialEq, Eq, Structural)]
pub struct Reposition {
    pub entity: u64,
    pub x: i32,
    pub y: i32,
    pub width: u16,
    pub height: u16,
    pub scale: SurfaceScaleFactor,
}

/// What a `ConfigureNotify` leads to.
#[derive(Debug)]
pub enum Reconfigure {
    Nothing,
    /// The first toplevel had waited for this.
    Released(Option<RoleCreated>),
    Popup(Reposition),
    /// The viewport of the entity's surface is to be updated.
    Viewport(u64),
}

/// Whether the surface of an entity is without a role.
pub open spec fn awaits_role(parts: Parts) -> bool {
    parts.surface && parts.role is None
}

/// A window that waits for its geometry.
pub open spec fn deferred(data: WindowData, now: u64) -> WindowData {
    WindowData {
        initial_toplevel_map_state: InitialToplevelMapState::Deferred {
            deadline: (now + DEFERRED_INITIAL_TOPLEVEL_TIMEOUT) as u64,
        },
        ..data
    }
}

/// A window that no longer waits for its geometry.
pub open spec fn no_longer_deferred(data: WindowData) -> WindowData {
    WindowData { initial_toplevel_map_state: InitialToplevelMapState::Released, ..data }
}

/// A window that is mapped.
pub open spec fn now_mapped(data: WindowData) -> WindowData {
    WindowData { mapped: true, ..data }
}

impl InnerServerState {
    /// The state with one window's state replaced, as far as contracts speak of it.
    pub open spec fn data_replaced(
        self,
        after: InnerServerState,
        entity: u64,
        data: WindowData,
    ) -> bool {
        &&& after.parts() == self.parts_with_data(entity, data)
        &&& self.only_parts_changed(after)
    }

    /// What becomes of a window whose surface may be due for a role: nothing if it is not mapped,
    /// has a role or waits for its geometry; it starts to wait if it should; otherwise it gets its
    /// role.
    pub open spec fn maybe_given_role(
        self,
        after: InnerServerState,
        created: Option<RoleCreated>,
        window: u32,
        now: u64,
        pool: bool,
    ) -> bool {
        match self.known(window) {
            Some(entity) if awaits_role(self.parts()[entity]) && self.data_of(window).mapped => {
                let data = self.data_of(window);
                if data.defers_initial_map() {
                    created is None && self.data_replaced(after, entity, deferred(data, now))
                } else if data.initial_toplevel_map_state is Deferred {
                    created is None && after == self
                } else {
                    created is Some && self.role_created(after, created->0, entity, pool)
                }
            },
            _ => created is None && after == self,
        }
    }

    /// Whether a window can be given its role at the given size, should its surface wait for one.
    pub open spec fn has_place(self, window: u32, dims: WindowDims) -> bool {
        match self.known(window) {
            Some(entity) if awaits_role(self.parts()[entity]) => self.role_has_place(entity, dims),
            _ => true,
        }
    }

    /// Whether a window can be given its role at the given size, should its surface wait for one.
    pub fn window_finds_place(&self, window: u32, dims: WindowDims) -> (r: bool)
        ensures
            r == self.has_place(window, dims),
    {
        match self.lookup_data(window) {
            Some((entity, parts, _)) => if parts.surface && parts.role.is_none() {
                self.role_finds_place(entity, dims)
            } else {
                true
            },
            None => true,
        }
    }

    /// Whether a window waits for its geometry.
    pub open spec fn is_waiting(self, window: u32) -> bool {
        self.data_of(window).initial_toplevel_map_state is Deferred
    }

    /// Gives a mapped window its role, if it is due.
    pub fn maybe_create_mapped_window_role(&mut self, window: u32, now: u64, pool: bool) -> (created:
        Option<RoleCreated>)
        requires
            old(self).data_of(window).mapped && !old(self).is_waiting(window) ==> old(
                self,
            ).has_place(window, old(self).data_of(window).attrs.dims),
            now + DEFERRED_INITIAL_TOPLEVEL_TIMEOUT <= u64::MAX,
        ensures
            old(self).maybe_given_role(*final(self), created, window, now, pool),
            old(self).wf() ==> final(self).wf(),
            old(self).one_entity_each() ==> final(self).one_entity_each(),
    {
        let (entity, parts, data) = match self.lookup_data(window) {
            Some(found) => found,
            None => return None,
        };
        if !parts.surface || parts.role.is_some() || !data.mapped {
            return None;
        }
        if data.should_defer_initial_toplevel_map() {
            let mut data = data;
            data.defer_initial_toplevel_map(now);
            world::set(&mut self.world, entity, Parts { data: Some(data), ..parts });
            return None;
        }
        if data.has_deferred_initial_toplevel_map() {
            return None;
        }
        Some(self.create_role_window_and_activate(entity, pool))
    }

    /// What becomes of a window that need not wait for its geometry any more.
    pub open spec fn released_from_wait(
        self,
        after: InnerServerState,
        released: bool,
        created: Option<RoleCreated>,
        window: u32,
        pool: bool,
    ) -> bool {
        match self.known(window) {
            Some(entity) if self.data_of(window).initial_toplevel_map_state is Deferred => {
                let data = no_longer_deferred(self.data_of(window));
                &&& released
                &&& if awaits_role(self.parts()[entity]) {
                    created is Some && exists|released: InnerServerState| #[trigger]
                        self.data_replaced(released, entity, data) && released.role_created(
                            after,
                            created->0,
                            entity,
                            pool,
                        )
                } else {
                    created is None && self.data_replaced(after, entity, data)
                }
            },
            _ => !released && created is None && after == self,
        }
    }

    /// Ends the wait of a window for its geometry, and gives it its role if it is due.
    pub fn release_deferred_initial_toplevel_map(&mut self, window: u32, pool: bool) -> (outcome: (
        bool,
        Option<RoleCreated>,
    ))
        requires
            old(self).is_waiting(window) ==> old(self).has_place(
                window,
                old(self).data_of(window).attrs.dims,
            ),
        ensures
            old(self).released_from_wait(*final(self), outcome.0, outcome.1, window, pool),
            old(self).wf() ==> final(self).wf(),
            old(self).one_entity_each() ==> final(self).one_entity_each(),
    {
        let (entity, parts, data) = match self.lookup_data(window) {
            Some(found) => found,
            None => return (false, None),
        };
        let mut data = data;
        if !data.release_initial_toplevel_map() {
            return (false, None);
        }
        world::set(&mut self.world, entity, Parts { data: Some(data), ..parts });
        let ghost released = *self;
        assert(old(self).data_replaced(released, entity, data));
        proof {
            lemma_data_keeps_places(*old(self), *self, entity, data);
        }
        if parts.surface && parts.role.is_none() {
            let created = self.create_role_window_and_activate(entity, pool);
            return (true, Some(created));
        }
        (true, None)
    }

    /// Whether a configure request's position is handed on to the X server. A mapped toplevel is
    /// placed by the compositor; its position goes along only with a new size.
    pub open spec fn forwards_position(self, window: u32, mask: ConfigWindowMask) -> bool {
        match self.known(window) {
            Some(entity) => {
                let data = self.data_of(window);
                let role = self.parts()[entity].role;
                ||| !data.mapped
                ||| data.attrs.is_popup
                ||| data.initial_toplevel_map_state is Deferred
                ||| role is None
                ||| (mask.width || mask.height) && windows::toplevel_of(self.parts()[entity]) is Some
            },
            None => true,
        }
    }

    /// Whether a configure request's position is handed on to the X server.
    pub fn should_forward_configure_position(&self, window: u32, mask: ConfigWindowMask) -> (forward:
        bool)
        ensures
            forward == self.forwards_position(window, mask),
    {
        let (_, parts, data) = match self.lookup_data(window) {
            Some(found) => found,
            None => return true,
        };
        let role = match parts.role {
            Some(role) => role,
            None => return true,
        };
        if !data.mapped || data.attrs.is_popup || data.has_deferred_initial_toplevel_map() {
            return true;
        }
        if !(mask.width || mask.height) {
            return false;
        }
        role.toplevel().is_some()
    }

    /// Takes over what a configure request asks of a window that has no role or waits for its
    /// geometry.
    pub fn handle_configure_request(
        &mut self,
        window: u32,
        mask: ConfigWindowMask,
        dims: WindowDims,
        now: u64,
        pool: bool,
    ) -> (created: Option<RoleCreated>)
        requires
            old(self).data_of(window).mapped && !old(self).is_waiting(window) ==> old(
                self,
            ).has_place(
                window,
                geometry::masked_dims(old(self).data_of(window).attrs.dims, dims, mask),
            ),
            now + DEFERRED_INITIAL_TOPLEVEL_TIMEOUT <= u64::MAX,
        ensures
            match old(self).known(window) {
                Some(entity) if old(self).parts()[entity].role is None || old(self).data_of(
                    window,
                ).initial_toplevel_map_state is Deferred => {
                    let data = old(self).data_of(window);
                    let requested = geometry::masked_dims(data.attrs.dims, dims, mask);
                    exists|placed: InnerServerState| #[trigger]
                        old(self).data_replaced(placed, entity, data.with_dims(requested)) && (
                        if old(self).parts()[entity].role is None {
                            placed.maybe_given_role(*final(self), created, window, now, pool)
                        } else {
                            created is None && *final(self) == placed
                        })
                },
                _ => created is None && *final(self) == *old(self),
            },
            old(self).wf() ==> final(self).wf(),
            old(self).one_entity_each() ==> final(self).one_entity_each(),
    {
        let (entity, parts, data) = match self.lookup_data(window) {
            Some(found) => found,
            None => return None,
        };
        let has_role = parts.role.is_some();
        if has_role && !data.has_deferred_initial_toplevel_map() {
            return None;
        }
        let mut data = data;
        data.attrs.dims = requested_dims_from_mask(data.attrs.dims, dims, mask);
        world::set(&mut self.world, entity, Parts { data: Some(data), ..parts });
        let ghost placed = *self;
        assert(old(self).data_replaced(placed, entity, data));
        proof {
            lemma_data_keeps_places(*old(self), *self, entity, data);
        }
        if has_role {
            return None;
        }
        self.maybe_create_mapped_window_role(window, now, pool)
    }

    /// Maps a window.
    pub fn map_window(&mut self, window: u32, now: u64, pool: bool) -> (created: Option<RoleCreated>)
        requires
            !old(self).is_waiting(window) ==> old(self).has_place(
                window,
                old(self).data_of(window).attrs.dims,
            ),
            now + DEFERRED_INITIAL_TOPLEVEL_TIMEOUT <= u64::MAX,
        ensures
            match old(self).known(window) {
                Some(entity) => exists|mapped: InnerServerState| #[trigger]
                    old(self).data_replaced(
                        mapped,
                        entity,
                        now_mapped(old(self).data_of(window)),
                    ) && mapped.maybe_given_role(*final(self), created, window, now, pool),
                None => created is None && *final(self) == *old(self),
            },
            old(self).wf() ==> final(self).wf(),
            old(self).one_entity_each() ==> final(self).one_entity_each(),
    {
        let (entity, parts, data) = match self.lookup_data(window) {
            Some(found) => found,
            None => return None,
        };
        let mut data = data;
        data.mapped = true;
        world::set(&mut self.world, entity, Parts { data: Some(data), ..parts });
        let ghost mapped = *self;
        assert(old(self).data_replaced(mapped, entity, data));
        proof {
            lemma_data_keeps_places(*old(self), *self, entity, data);
        }
        self.maybe_create_mapped_window_role(window, now, pool)
    }

    /// Unmaps a window. Returns the role that is to be destroyed.
    pub fn unmap_window(&mut self, window: u32) -> (destroyed: Option<SurfaceRole>)
        ensures
            match old(self).known(window) {
                Some(entity) if old(self).data_of(window).mapped => {
                    &&& destroyed == old(self).parts()[entity].role
                    &&& final(self).parts() == old(self).parts().insert(
                        entity,
                        Parts {
                            data: Some(
                                WindowData {
                                    mapped: false,
                                    initial_toplevel_map_state: InitialToplevelMapState::Unset,
                                    ..old(self).data_of(window)
                                },
                            ),
                            role: None,
                            ..old(self).parts()[entity]
                        },
                    )
                    &&& final(self).names() == old(self).names()
                    &&& *final(self) == (InnerServerState {
                        world: final(self).world,
                        last_focused_toplevel: if old(self).last_focused_toplevel == Some(window) {
                            None
                        } else {
                            old(self).last_focused_toplevel
                        },
                        last_hovered: if old(self).last_hovered == Some(window) {
                            None
                        } else {
                            old(self).last_hovered
                        },
                        ..*old(self)
                    })
                },
                _ => destroyed is None && *final(self) == *old(self),
            },
            old(self).wf() ==> final(self).wf(),
            old(self).one_entity_each() ==> final(self).one_entity_each(),
    {
        let (entity, parts, data) = match self.lookup_data(window) {
            Some(found) => found,
            None => return None,
        };
        if !data.mapped {
            return None;
        }
        self.forget_window(window);
        let mut data = data;
        data.mapped = false;
        data.initial_toplevel_map_state = InitialToplevelMapState::Unset;
        world::set(&mut self.world, entity, Parts { data: Some(data), role: None, ..parts });
        parts.role
    }

    /// Forgets that a window is focused or that the pointer is on it.
    pub fn forget_window(&mut self, window: u32)
        ensures
            *final(self) == (InnerServerState {
                last_focused_toplevel: if old(self).last_focused_toplevel == Some(window) {
                    None
                } else {
                    old(self).last_focused_toplevel
                },
                last_hovered: if old(self).last_hovered == Some(window) {
                    None
                } else {
                    old(self).last_hovered
                },
                ..*old(self)
            }),
            old(self).wf() ==> final(self).wf(),
            old(self).one_entity_each() ==> final(self).one_entity_each(),
    {
        if self.last_focused_toplevel == Some(window) {
            self.last_focused_toplevel = None;
        }
        if self.last_hovered == Some(window) {
            self.last_hovered = None;
        }
    }

    /// Whether an entity has nothing left once its window is gone.
    pub open spec fn empty_without_window(self, entity: u64) -> bool {
        Parts { window: None, data: None, ..self.parts()[entity] } == Parts::nothing()
    }

    /// Forgets a window that was destroyed. Its entity stays as long as anything else is known of
    /// it.
    pub fn destroy_window(&mut self, window: u32)
        ensures
            final(self).windows@ == old(self).windows@.remove(window),
            final(self).parts() == (match old(self).entity_of(window) {
                Some(entity) if old(self).empty_without_window(entity) =>
                    old(self).parts().remove(entity),
                Some(entity) => old(self).parts().insert(
                    entity,
                    Parts { window: None, data: None, ..old(self).parts()[entity] },
                ),
                None => old(self).parts(),
            }),
            final(self).names() == (match old(self).entity_of(window) {
                Some(entity) => old(self).names().remove(entity),
                None => old(self).names(),
            }),
            *final(self) == (InnerServerState {
                world: final(self).world,
                windows: final(self).windows,
                ..*old(self)
            }),
            old(self).wf() ==> final(self).wf(),
            old(self).one_entity_each() ==> final(self).one_entity_each(),
    {
        let found = self.lookup(window);
        self.windows.remove(&window);
        if let Some((entity, parts)) = found {
            let _names = world::take_names(&mut self.world, entity);
            let rest = Parts { window: None, data: None, ..parts };
            if rest == Parts::empty() {
                world::despawn(&mut self.world, entity);
                assert(self.names() =~= old(self).names().remove(entity));
            } else {
                world::set(&mut self.world, entity, rest);
            }
        }
    }

    /// Whether a window has an interaction in progress.
    pub fn has_active_configure_interaction(&self, window: u32) -> (r: bool)
        ensures
            r == (self.known(window) is Some && self.data_of(window).configure_interaction is Some),
    {
        match self.lookup_data(window) {
            Some((_, _, data)) => data.configure_interaction.is_some(),
            None => false,
        }
    }

    /// Ends the interaction of an entity's window. Returns whether there was one, in which case
    /// the viewport of its surface is to be updated.
    pub fn clear_configure_interaction_for_entity(&mut self, entity: u64) -> (cleared: bool)
        ensures
            match world::at(old(self).parts(), entity) {
                Some(p) if p.data matches Some(data) && data.configure_interaction is Some => {
                    &&& cleared
                    &&& final(self).parts() == old(self).parts_with_data(
                        entity,
                        p.data->0.with_interaction(None),
                    )
                },
                _ => !cleared && final(self).parts() == old(self).parts(),
            },
            old(self).only_parts_changed(*final(self)),
            old(self).wf() ==> final(self).wf(),
            old(self).one_entity_each() ==> final(self).one_entity_each(),
    {
        if let Some(parts) = world::get(&self.world, entity) {
            if let Some(data) = parts.data {
                if data.configure_interaction.is_some() {
                    let mut data = data;
                    data.configure_interaction = None;
                    world::set(&mut self.world, entity, Parts { data: Some(data), ..parts });
                    return true;
                }
            }
        }
        false
    }

    /// Ends the interaction of a window. Returns whether there was one.
    pub fn clear_configure_interaction_for_window(&mut self, window: u32) -> (cleared: bool)
        ensures
            match old(self).known(window) {
                Some(entity) if old(self).data_of(window).configure_interaction is Some => {
                    &&& cleared
                    &&& final(self).parts() == old(self).parts_with_data(
                        entity,
                        old(self).data_of(window).with_interaction(None),
                    )
                },
                _ => !cleared && final(self).parts() == old(self).parts(),
            },
            old(self).only_parts_changed(*final(self)),
            old(self).wf() ==> final(self).wf(),
            old(self).one_entity_each() ==> final(self).one_entity_each(),
    {
        match self.lookup(window) {
            Some((entity, _)) => self.clear_configure_interaction_for_entity(entity),
            None => false,
        }
    }

    /// What an entity becomes when the interactions of all windows end.
    pub open spec fn interaction_ended(self, entity: u64) -> Parts {
        let p = self.parts()[entity];
        if self.in_interaction(entity) {
            Parts { data: Some(p.data->0.with_interaction(None)), ..p }
        } else {
            p
        }
    }

    /// Whether an entity's window is being moved or resized.
    pub open spec fn in_interaction(self, entity: u64) -> bool {
        let p = self.parts()[entity];
        &&& self.parts().contains_key(entity)
        &&& p.window matches Some(window) && self.windows@.contains_key(window)
            && self.windows@[window] == entity
        &&& p.data is Some
        &&& p.data->0.configure_interaction is Some
    }

    /// Ends the interactions of all windows. Returns the entities whose viewports are to be
    /// updated.
    pub fn clear_active_configure_interactions(&mut self) -> (changed: Vec<u64>)
        requires
            old(self).wf(),
        ensures
            final(self).wf(),
            old(self).one_entity_each() ==> final(self).one_entity_each(),
            changed@.no_duplicates(),
            forall|entity: u64| #[trigger]
                changed@.contains(entity) <==> old(self).in_interaction(entity),
            final(self).parts() == Map::new(
                |e: u64| old(self).parts().contains_key(e),
                |e: u64| old(self).interaction_ended(e),
            ),
            old(self).only_parts_changed(*final(self)),
    {
        let ghost before = *self;
        let entities = world::entities(&self.world);
        let mut changed: Vec<u64> = Vec::new();
        let mut i: usize = 0;
        while i < entities.len()
            invariant
                i <= entities.len(),
                entities@.no_duplicates(),
                before == *old(self),
                before.only_parts_changed(*self),
                self.parts().dom() == before.parts().dom(),
                forall|e: u64| entities@.contains(e) <==> before.parts().contains_key(e),
                forall|k: int|
                    0 <= k < entities@.len() ==> #[trigger] self.parts()[entities@[k]] == (if k < i {
                        before.interaction_ended(entities@[k])
                    } else {
                        before.parts()[entities@[k]]
                    }),
                changed@.no_duplicates(),
                forall|e: u64| #[trigger]
                    changed@.contains(e) <==> before.in_interaction(e) && entities@.take(
                        i as int,
                    ).contains(e),
            decreases entities.len() - i,
        {
            let entity = entities[i];
            assert(entities@.contains(entities@[i as int]));
            let ghost so_far = changed@;
            if let Some(parts) = world::get(&self.world, entity) {
                if let (Some(window), Some(_)) = (parts.window, parts.data) {
                    if let Some(owner) = self.windows.get(&window) {
                        if *owner == entity && self.clear_configure_interaction_for_entity(entity) {
                            changed.push(entity);
                        }
                    }
                }
            }
            proof {
                world::lemma_take_one_more(entities@, i as int);
                assert(!so_far.contains(entity));
                assert(changed@ == (if before.in_interaction(entity) {
                    so_far.push(entity)
                } else {
                    so_far
                }));
                assert forall|e: u64| #[trigger]
                    so_far.push(entity).contains(e) <==> so_far.contains(e) || e == entity by {
                    vstd::seq_lib::lemma_seq_contains_after_push(so_far, entity, e);
                }
            }
            i += 1;
        }
        proof {
            assert(self.parts() =~= Map::new(
                |e: u64| before.parts().contains_key(e),
                |e: u64| before.interaction_ended(e),
            )) by {
                assert forall|e: u64| before.parts().contains_key(e) implies self.parts()[e]
                    == before.interaction_ended(e) by {
                    assert(entities@.contains(e));
                    let k = choose|k: int| 0 <= k < entities@.len() && entities@[k] == e;
                    assert(entities@[k] == e);
                }
            }
            assert(entities@.take(entities@.len() as int) =~= entities@);
        }
        changed
    }

    /// The press on a window whose toplevel it can move or resize.
    pub open spec fn usable_press(self, window: u32) -> bool {
        self.known(window) matches Some(entity) && self.parts()[entity].last_click is Some
            && windows::toplevel_of(self.parts()[entity]) is Some
    }

    /// The move of a window that its last press allows.
    pub open spec fn move_request(self, window: u32) -> MoveRequest {
        let entity = self.known(window)->0;
        let press = self.parts()[entity].last_click->0;
        MoveRequest { entity, seat: press.seat, serial: press.serial }
    }

    /// Starts moving a window with its last press.
    pub fn move_window(&mut self, window: u32) -> (request: Option<MoveRequest>)
        ensures
            if old(self).usable_press(window) {
                let entity = old(self).known(window)->0;
                let expected = old(self).move_request(window);
                &&& request == Some(expected)
                &&& old(self).data_replaced(
                    *final(self),
                    entity,
                    old(self).data_of(window).with_interaction(
                        Some(ConfigureInteraction::Move { serial: expected.serial }),
                    ),
                )
            } else {
                request is None && *final(self) == *old(self)
            },
            old(self).wf() ==> final(self).wf(),
            old(self).one_entity_each() ==> final(self).one_entity_each(),
    {
        let (entity, parts, data) = match self.lookup_data(window) {
            Some(found) => found,
            None => return None,
        };
        let press = match parts.last_click {
            Some(press) => press,
            None => return None,
        };
        let role = match parts.role {
            Some(role) => role,
            None => return None,
        };
        if role.toplevel().is_none() {
            return None;
        }
        let mut data = data;
        data.configure_interaction = Some(ConfigureInteraction::Move { serial: press.serial });
        world::set(&mut self.world, entity, Parts { data: Some(data), ..parts });
        Some(MoveRequest { entity, seat: press.seat, serial: press.serial })
    }

    /// Notes that the decorations of a window move it.
    pub fn begin_wayland_move_interaction(&mut self, window: u32, serial: u32) -> (begun: bool)
        ensures
            begun == (old(self).known(window) is Some),
            final(self).parts() == (match old(self).known(window) {
                Some(entity) => old(self).parts_with_data(
                    entity,
                    old(self).data_of(window).with_interaction(
                        Some(ConfigureInteraction::Move { serial }),
                    ),
                ),
                None => old(self).parts(),
            }),
            old(self).only_parts_changed(*final(self)),
            old(self).wf() ==> final(self).wf(),
            old(self).one_entity_each() ==> final(self).one_entity_each(),
    {
        if let Some((entity, parts, data)) = self.lookup_data(window) {
            let mut data = data;
            data.configure_interaction = Some(ConfigureInteraction::Move { serial });
            world::set(&mut self.world, entity, Parts { data: Some(data), ..parts });
            return true;
        }
        false
    }

    /// Whether a configure request only moves a mapped, managed window.
    pub open spec fn only_moves(
        data: WindowData,
        dims: WindowDims,
        mask: ConfigWindowMask,
    ) -> bool {
        let current = data.attrs.dims;
        let requested = geometry::masked_dims(current, dims, mask);
        &&& data.mapped
        &&& !data.attrs.is_popup
        &&& requested.x != current.x || requested.y != current.y
        &&& requested.width == current.width
        &&& requested.height == current.height
    }

    /// Takes a configure request that only moves a window as a wish to drag it. A press starts at
    /// most one move.
    pub fn begin_configure_move(&mut self, window: u32, dims: WindowDims, mask: ConfigWindowMask) -> (outcome:
        ConfigureMove)
        ensures
            if old(self).usable_press(window) && InnerServerState::only_moves(
                old(self).data_of(window),
                dims,
                mask,
            ) {
                let entity = old(self).known(window)->0;
                let request = old(self).move_request(window);
                let interaction = Some(ConfigureInteraction::Move { serial: request.serial });
                if old(self).data_of(window).configure_interaction == interaction {
                    outcome == ConfigureMove::Moving && *final(self) == *old(self)
                } else {
                    outcome == ConfigureMove::Start(request) && old(self).data_replaced(
                        *final(self),
                        entity,
                        old(self).data_of(window).with_interaction(interaction),
                    )
                }
            } else {
                outcome == ConfigureMove::NotHandled && *final(self) == *old(self)
            },
            old(self).wf() ==> final(self).wf(),
            old(self).one_entity_each() ==> final(self).one_entity_each(),
    {
        let (_, parts, data) = match self.lookup_data(window) {
            Some(found) => found,
            None => return ConfigureMove::NotHandled,
        };
        let press = match parts.last_click {
            Some(press) => press,
            None => return ConfigureMove::NotHandled,
        };
        let role = match parts.role {
            Some(role) => role,
            None => return ConfigureMove::NotHandled,
        };
        if role.toplevel().is_none() {
            return ConfigureMove::NotHandled;
        }
        let current = data.attrs.dims;
        let requested = requested_dims_from_mask(current, dims, mask);
        let has_position_change = requested.x != current.x || requested.y != current.y;
        let has_size_change = requested.width != current.width || requested.height
            != current.height;
        if !data.mapped || data.attrs.is_popup || !has_position_change || has_size_change {
            return ConfigureMove::NotHandled;
        }
        if data.configure_interaction == Some(
            ConfigureInteraction::Move { serial: press.serial },
        ) {
            return ConfigureMove::Moving;
        }
        match self.move_window(window) {
            Some(request) => ConfigureMove::Start(request),
            None => ConfigureMove::NotHandled,
        }
    }

    /// The resize of a window that its last press allows, if its toplevel can be resized.
    pub open spec fn resize_request(self, window: u32, direction: MoveResizeDirection) -> Option<
        ResizeRequest,
    > {
        if self.usable_press(window) {
            let entity = self.known(window)->0;
            let press = self.parts()[entity].last_click->0;
            let toplevel = windows::toplevel_of(self.parts()[entity])->0;
            let data = self.data_of(window);
            if decoration::has_resize_border(
                data,
                toplevel.fullscreen,
                toplevel.maximized,
                toplevel.tiled,
            ) && !decoration::is_moving(data) {
                Some(
                    ResizeRequest {
                        entity,
                        seat: press.seat,
                        serial: press.serial,
                        edge: resize::edge_of(resize::axes_of(direction)),
                    },
                )
            } else {
                None
            }
        } else {
            None
        }
    }

    /// Starts resizing a window with its last press.
    pub fn resize_window(&self, window: u32, direction: MoveResizeDirection) -> (request: Option<
        ResizeRequest,
    >)
        requires
            direction.drags_edges(),
        ensures
            request == self.resize_request(window, direction),
    {
        let (entity, parts, data) = match self.lookup_data(window) {
            Some(found) => found,
            None => return None,
        };
        let press = match parts.last_click {
            Some(press) => press,
            None => return None,
        };
        let role = match parts.role {
            Some(role) => role,
            None => return None,
        };
        let toplevel = match role.toplevel() {
            Some(toplevel) => toplevel,
            None => return None,
        };
        if !toplevel_can_resize(&data, toplevel.fullscreen, toplevel.maximized, toplevel.tiled) {
            return None;
        }
        let edge = resize_edge_from_direction(direction);
        Some(ResizeRequest { entity, seat: press.seat, serial: press.serial, edge })
    }

    /// Starts a resize that no configure request may change any more.
    pub fn start_locked_resize_window(&mut self, window: u32, direction: MoveResizeDirection) -> (request:
        Option<ResizeRequest>)
        requires
            direction.drags_edges(),
        ensures
            request == final(self).resize_request(window, direction),
            final(self).parts() == (match old(self).known(window) {
                Some(entity) => old(self).parts_with_data(
                    entity,
                    old(self).data_of(window).with_interaction(
                        Some(ConfigureInteraction::LockedResize),
                    ),
                ),
                None => old(self).parts(),
            }),
            old(self).only_parts_changed(*final(self)),
            old(self).wf() ==> final(self).wf(),
            old(self).one_entity_each() ==> final(self).one_entity_each(),
    {
        if let Some((entity, parts, data)) = self.lookup_data(window) {
            let mut data = data;
            data.configure_interaction = Some(ConfigureInteraction::LockedResize);
            world::set(&mut self.world, entity, Parts { data: Some(data), ..parts });
        }
        self.resize_window(window, direction)
    }

    /// Starts the resize that a border of the decorations was dragged for.
    pub fn resize_window_by_edge(&mut self, window: u32, edge: ResizeEdge) -> (request: Option<
        ResizeRequest,
    >)
        requires
            edge != ResizeEdge::NoEdge,
        ensures
            exists|direction: MoveResizeDirection| #[trigger]
                direction.drags_edges() && resize::edge_of(resize::axes_of(direction)) == edge
                    && request == final(self).resize_request(window, direction),
            final(self).parts() == (match old(self).known(window) {
                Some(entity) => old(self).parts_with_data(
                    entity,
                    old(self).data_of(window).with_interaction(
                        Some(ConfigureInteraction::LockedResize),
                    ),
                ),
                None => old(self).parts(),
            }),
            old(self).only_parts_changed(*final(self)),
            old(self).wf() ==> final(self).wf(),
            old(self).one_entity_each() ==> final(self).one_entity_each(),
    {
        self.start_locked_resize_window(window, resize_direction_from_edge(edge))
    }

    /// Takes a configure request that resizes a window as a wish to drag its edges.
    pub fn begin_configure_resize(&mut self, window: u32, dims: WindowDims, mask: ConfigWindowMask) -> (outcome:
        ConfigureResize)
        requires
            old(self).known(window) is Some ==> old(self).data_of(window).wf(),
        ensures
            if old(self).usable_press(window) && !windows::toplevel_of(
                old(self).parts()[old(self).known(window)->0],
            )->0.tiled {
                let entity = old(self).known(window)->0;
                let serial = old(self).parts()[entity].last_click->0.serial;
                match window::resize_decision(old(self).data_of(window), serial, dims, mask) {
                    ConfigureResizeDecision::NotHandled => outcome == ConfigureResize::NotHandled
                        && *final(self) == *old(self),
                    ConfigureResizeDecision::Handled => outcome == ConfigureResize::Handled
                        && *final(self) == *old(self),
                    ConfigureResizeDecision::StartWaylandResize(direction) => {
                        &&& outcome == ConfigureResize::Start(
                            final(self).resize_request(window, direction),
                        )
                        &&& old(self).data_replaced(
                            *final(self),
                            entity,
                            old(self).data_of(window).with_interaction(
                                Some(ConfigureInteraction::Resize { serial, direction }),
                            ),
                        )
                    },
                }
            } else {
                outcome == ConfigureResize::NotHandled && *final(self) == *old(self)
            },
            final(self).known(window) is Some ==> final(self).data_of(window).wf(),
    {
        let (entity, parts, data) = match self.lookup_data(window) {
            Some(found) => found,
            None => return ConfigureResize::NotHandled,
        };
        let press = match parts.last_click {
            Some(press) => press,
            None => return ConfigureResize::NotHandled,
        };
        let role = match parts.role {
            Some(role) => role,
            None => return ConfigureResize::NotHandled,
        };
        let toplevel = match role.toplevel() {
            Some(toplevel) => toplevel,
            None => return ConfigureResize::NotHandled,
        };
        if toplevel.tiled {
            return ConfigureResize::NotHandled;
        }
        let mut data = data;
        match decide_configure_resize(&mut data, press.serial, dims, mask) {
            ConfigureResizeDecision::NotHandled => ConfigureResize::NotHandled,
            ConfigureResizeDecision::Handled => ConfigureResize::Handled,
            ConfigureResizeDecision::StartWaylandResize(direction) => {
                world::set(&mut self.world, entity, Parts { data: Some(data), ..parts });
                ConfigureResize::Start(self.resize_window(window, direction))
            },
        }
    }

    /// A window after its new rectangle was noted, where it is noted right away: while it waits
    /// for its geometry, or if it is not managed.
    pub open spec fn reconfigured_data(data: WindowData, dims: WindowDims) -> WindowData {
        if data.initial_toplevel_map_state is Deferred || data.attrs.is_popup || !data.mapped {
            data.with_dims(dims)
        } else {
            data
        }
    }

    /// A toplevel's window after a new size was noted.
    pub open spec fn resized_data(data: WindowData, dims: WindowDims) -> WindowData {
        data.with_dims(
            WindowDims { width: dims.width, height: dims.height, ..data.attrs.dims },
        )
    }

    /// Takes note of the rectangle that the X server gave a window.
    pub fn reconfigure_window(&mut self, window: u32, dims: WindowDims, pool: bool) -> (outcome:
        Reconfigure)
        requires
            old(self).data_of(window).mapped && old(self).is_waiting(window) ==> old(
                self,
            ).has_place(window, dims),
        ensures
            match old(self).known(window) {
                None => outcome is Nothing && *final(self) == *old(self),
                Some(entity) => {
                    let p = old(self).parts()[entity];
                    let data = old(self).data_of(window);
                    let waiting = data.initial_toplevel_map_state is Deferred;
                    let noted = InnerServerState::reconfigured_data(data, dims);
                    if !waiting && dims == data.attrs.dims {
                        outcome is Nothing && *final(self) == *old(self)
                    } else if data.mapped && waiting {
                        outcome is Released && exists|placed: InnerServerState| #[trigger]
                            old(self).data_replaced(placed, entity, noted)
                                && placed.released_from_wait(
                                *final(self),
                                true,
                                outcome->Released_0,
                                window,
                                pool,
                            )
                    } else {
                        match p.role {
                            Some(SurfaceRole::Popup(Some(_))) if data.mapped
                                && old(self).xdg_wm_base_version >= 3 && p.scale is Some => {
                                &&& outcome == Reconfigure::Popup(
                                    Reposition {
                                        entity,
                                        x: geometry::low_i32(dims.x - data.output_offset.x) as i32,
                                        y: geometry::low_i32(dims.y - data.output_offset.y) as i32,
                                        width: dims.width,
                                        height: dims.height,
                                        scale: p.scale->0,
                                    },
                                )
                                &&& old(self).data_replaced(*final(self), entity, noted)
                            },
                            Some(SurfaceRole::Toplevel(Some(_))) if data.mapped
                                && old(self).xdg_wm_base_version >= 3 && p.scale is Some => {
                                &&& outcome == Reconfigure::Viewport(entity)
                                &&& old(self).data_replaced(
                                    *final(self),
                                    entity,
                                    InnerServerState::resized_data(noted, dims),
                                )
                            },
                            _ => outcome is Nothing && old(self).data_replaced(
                                *final(self),
                                entity,
                                noted,
                            ),
                        }
                    }
                },
            },
            old(self).wf() ==> final(self).wf(),
            old(self).one_entity_each() ==> final(self).one_entity_each(),
    {
        let (entity, parts, data) = match self.lookup_data(window) {
            Some(found) => found,
            None => return Reconfigure::Nothing,
        };
        let mut data = data;
        let had_deferred_initial_map = data.has_deferred_initial_toplevel_map();
        if !had_deferred_initial_map && dims == data.attrs.dims {
            return Reconfigure::Nothing;
        }
        if had_deferred_initial_map || data.attrs.is_popup || !data.mapped {
            data.attrs.dims = dims;
        }
        world::set(&mut self.world, entity, Parts { data: Some(data), ..parts });
        let ghost placed = *self;
        assert(old(self).data_replaced(placed, entity, data));
        if !data.mapped {
            return Reconfigure::Nothing;
        }
        if had_deferred_initial_map {
            proof {
                lemma_data_keeps_places(*old(self), *self, entity, data);
            }
            let (_, created) = self.release_deferred_initial_toplevel_map(window, pool);
            return Reconfigure::Released(created);
        }
        if self.xdg_wm_base_version < 3 {
            return Reconfigure::Nothing;
        }
        match (parts.role, parts.scale) {
            (Some(SurfaceRole::Popup(Some(_))), Some(scale)) => Reconfigure::Popup(
                Reposition {
                    entity,
                    x: sub_i32(dims.x as i32, data.output_offset.x),
                    y: sub_i32(dims.y as i32, data.output_offset.y),
                    width: dims.width,
                    height: dims.height,
                    scale,
                },
            ),
            (Some(SurfaceRole::Toplevel(Some(_))), Some(_)) => {
                data.attrs.dims.width = dims.width;
                data.attrs.dims.height = dims.height;
                let resized = Parts { data: Some(data), ..parts };
                world::set(&mut self.world, entity, resized);
                assert(self.parts() =~= old(self).parts().insert(entity, resized));
                Reconfigure::Viewport(entity)
            },
            _ => Reconfigure::Nothing,
        }
    }

    /// Whether an entity's window has waited for its geometry long enough.
    pub open spec fn is_expired(p: Parts, now: u64) -> bool {
        &&& p.window is Some
        &&& awaits_role(p)
        &&& p.data matches Some(data)
        &&& data.mapped
        &&& data.initial_toplevel_map_state matches InitialToplevelMapState::Deferred { deadline }
        &&& deadline <= now
    }

    /// Whether a window has waited for its geometry long enough.
    pub open spec fn has_expired(self, window: u32, now: u64) -> bool {
        exists|entity: u64| #[trigger]
            self.parts().contains_key(entity) && self.parts()[entity].window == Some(window)
                && InnerServerState::is_expired(self.parts()[entity], now)
    }

    /// Whether each window that has waited long enough can be given its role.
    pub open spec fn expired_have_places(self, now: u64) -> bool {
        forall|window: u32| #[trigger]
            self.has_expired(window, now) && self.is_waiting(window) ==> self.has_place(
                window,
                self.data_of(window).attrs.dims,
            )
    }

    /// Whether the windows are those of the given entities, which are the ones that have waited
    /// long enough, each once.
    pub open spec fn expire_together(self, entities: Seq<u64>, windows: Seq<u32>, now: u64) -> bool {
        &&& entities.no_duplicates()
        &&& forall|entity: u64| #[trigger]
            entities.contains(entity) <==> self.parts().contains_key(entity)
                && self.parts()[entity].window is Some && InnerServerState::is_expired(
                self.parts()[entity],
                now,
            )
        &&& windows =~= entities.map_values(|entity: u64| self.parts()[entity].window->0)
    }

    /// Where each window has one entity, none is listed twice.
    proof fn lemma_expire_once(self, entities: Seq<u64>, windows: Seq<u32>, now: u64)
        requires
            self.one_entity_each(),
            self.expire_together(entities, windows, now),
        ensures
            windows.no_duplicates(),
    {
        assert forall|j: int, k: int|
            0 <= j < windows.len() && 0 <= k < windows.len() && j != k implies windows[j]
            != windows[k] by {
            assert(entities.contains(entities[j]) && entities.contains(entities[k]));
            assert(self.windows@[windows[j]] == entities[j]);
            assert(self.windows@[windows[k]] == entities[k]);
        }
    }

    /// The windows that have waited for their geometry long enough, in no particular order: one of
    /// each entity that has, so that a window with one entity is listed once.
    pub fn expired_windows(&self, now: u64) -> (expired: Vec<u32>)
        ensures
            forall|window: u32| #[trigger]
                expired@.contains(window) <==> self.has_expired(window, now),
            exists|entities: Seq<u64>| #[trigger] self.expire_together(entities, expired@, now),
            self.one_entity_each() ==> expired@.no_duplicates(),
    {
        let mut expired: Vec<u32> = Vec::new();
        let ghost mut due_entities = Seq::<u64>::empty();
        let entities = world::entities(&self.world);
        let mut i: usize = 0;
        while i < entities.len()
            invariant
                i <= entities.len(),
                entities@.no_duplicates(),
                forall|e: u64| entities@.contains(e) <==> self.parts().contains_key(e),
                due_entities.no_duplicates(),
                forall|e: u64| #[trigger]
                    due_entities.contains(e) <==> entities@.take(i as int).contains(e)
                        && self.parts()[e].window is Some && InnerServerState::is_expired(
                        self.parts()[e],
                        now,
                    ),
                expired@ == due_entities.map_values(|e: u64| self.parts()[e].window->0),
                forall|window: u32| #[trigger]
                    expired@.contains(window) <==> exists|k: int|
                        0 <= k < i && self.parts()[#[trigger] entities@[k]].window == Some(window)
                            && InnerServerState::is_expired(self.parts()[entities@[k]], now),
            decreases entities.len() - i,
        {
            let ghost before = expired@;
            assert(entities@.contains(entities@[i as int]));
            let mut due = None;
            if let Some(parts) = world::get(&self.world, entities[i]) {
                if let (Some(window), Some(data), true, None) = (
                    parts.window,
                    parts.data,
                    parts.surface,
                    parts.role,
                ) {
                    if let Some(deadline) = data.deferred_initial_toplevel_deadline() {
                        if data.mapped && deadline <= now {
                            due = Some(window);
                        }
                    }
                }
            }
            assert(due == (if InnerServerState::is_expired(
                self.parts()[entities@[i as int]],
                now,
            ) {
                self.parts()[entities@[i as int]].window
            } else {
                None
            }));
            let ghost listed = due_entities;
            if let Some(window) = due {
                expired.push(window);
                proof {
                    due_entities = due_entities.push(entities@[i as int]);
                }
            }
            proof {
                let entity = entities@[i as int];
                world::lemma_take_one_more(entities@, i as int);
                assert(!entities@.take(i as int).contains(entity));
                assert(!listed.contains(entity));
                assert(listed.push(entity).no_duplicates()) by {
                    assert forall|k: int| 0 <= k < listed.len() implies listed[k] != entity by {
                        assert(listed.contains(listed[k]));
                    }
                }
                assert forall|e: u64| #[trigger]
                    listed.push(entity).contains(e) <==> listed.contains(e) || e == entity by {
                    vstd::seq_lib::lemma_seq_contains_after_push(listed, entity, e);
                }
                assert(expired@ =~= due_entities.map_values(|e: u64| self.parts()[e].window->0));
                assert forall|window: u32| #[trigger] expired@.contains(window) <==> exists|k: int|
                    0 <= k < i + 1 && self.parts()[#[trigger] entities@[k]].window == Some(window)
                        && InnerServerState::is_expired(self.parts()[entities@[k]], now) by {
                    if due is Some {
                        vstd::seq_lib::lemma_seq_contains_after_push(before, due->0, window);
                    }
                    if expired@.contains(window) && !before.contains(window) {
                        assert(self.parts()[entities@[i as int]].window == Some(window));
                    }
                }
            }
            i += 1;
        }
        proof {
            assert(entities@.take(i as int) =~= entities@);
            assert(self.expire_together(due_entities, expired@, now));
            if self.one_entity_each() {
                self.lemma_expire_once(due_entities, expired@, now);
            }
            assert forall|window: u32| #[trigger] expired@.contains(window) <==> self.has_expired(
                window,
                now,
            ) by {
                if expired@.contains(window) {
                    let k = choose|k: int|
                        0 <= k < entities@.len() && self.parts()[#[trigger] entities@[k]].window
                            == Some(window) && InnerServerState::is_expired(
                            self.parts()[entities@[k]],
                            now,
                        );
                    assert(entities@.contains(entities@[k]));
                    assert(self.parts().contains_key(entities@[k]));
                }
                if self.has_expired(window, now) {
                    let entity = choose|entity: u64| #[trigger]
                        self.parts().contains_key(entity) && self.parts()[entity].window == Some(
                            window,
                        ) && InnerServerState::is_expired(self.parts()[entity], now);
                    assert(entities@.contains(entity));
                    let k = choose|k: int| 0 <= k < entities@.len() && entities@[k] == entity;
                    assert(entities@[k] == entity);
                }
            }
        }
        expired
    }

    /// Ends the wait of every window that has waited long enough. Returns the windows in the order
    /// in which that was done, each with the role that it was given.
    pub fn release_expired_deferred_initial_toplevels(&mut self, now: u64, pool: bool) -> (released:
        Vec<(u32, Option<RoleCreated>)>)
        requires
            old(self).expired_have_places(now),
        ensures
            forall|window: u32| #[trigger]
                releases_window(released@, window) <==> old(self).has_expired(window, now),
            exists|entities: Seq<u64>| #[trigger]
                old(self).expire_together(entities, released_windows(released@), now),
            old(self).one_entity_each() ==> released_windows(released@).no_duplicates(),
            exists|states: Seq<InnerServerState>| #[trigger]
                release_steps(states, released@, pool) && states[0] == *old(self)
                    && states[released@.len() as int] == *final(self),
            old(self).wf() ==> final(self).wf(),
            old(self).one_entity_each() ==> final(self).one_entity_each(),
    {
        let expired = self.expired_windows(now);
        let mut released: Vec<(u32, Option<RoleCreated>)> = Vec::new();
        let ghost mut states = seq![*self];
        proof {
            assert forall|k: int|
                0 <= k < expired@.len() && self.is_waiting(
                    #[trigger] expired@[k],
                ) implies self.has_place(expired@[k], self.data_of(expired@[k]).attrs.dims) by {
                assert(expired@.contains(expired@[k]));
                assert(self.has_expired(expired@[k], now));
            }
        }
        let mut i: usize = 0;
        while i < expired.len()
            invariant
                i <= expired.len(),
                released@.len() == i,
                forall|k: int| 0 <= k < i ==> (#[trigger] released@[k]).0 == expired@[k],
                forall|k: int|
                    i <= k < expired@.len() && self.is_waiting(#[trigger] expired@[k])
                        ==> self.has_place(expired@[k], self.data_of(expired@[k]).attrs.dims),
                old(self).wf() ==> self.wf(),
                old(self).one_entity_each() ==> self.one_entity_each(),
                release_steps(states, released@, pool),
                states[0] == *old(self),
                states[i as int] == *self,
            decreases expired.len() - i,
        {
            let window = expired[i];
            let ghost before = *self;
            let (was_waiting, created) = self.release_deferred_initial_toplevel_map(window, pool);
            proof {
                let outcome = (window, created);
                assert(before.released_from_wait(*self, was_waiting, created, window, pool));
                let longer = states.push(*self);
                let told = released@.push(outcome);
                assert(release_steps(longer, told, pool)) by {
                    assert forall|k: int| 0 <= k < told.len() implies #[trigger] release_step(
                        longer,
                        told,
                        k,
                        pool,
                    ) by {
                        if k < released@.len() {
                            assert(release_step(states, released@, k, pool));
                            assert(longer[k] == states[k]);
                            assert(longer[k + 1] == states[k + 1]);
                            assert(told[k] == released@[k]);
                            let w = choose|w: bool|
                                #[trigger] states[k].released_from_wait(
                                    states[k + 1],
                                    w,
                                    released@[k].1,
                                    released@[k].0,
                                    pool,
                                );
                            assert(longer[k].released_from_wait(
                                longer[k + 1],
                                w,
                                told[k].1,
                                told[k].0,
                                pool,
                            ));
                        } else {
                            assert(longer[k] == before);
                            assert(longer[k + 1] == *self);
                            assert(told[k] == outcome);
                            assert(longer[k].released_from_wait(
                                longer[k + 1],
                                was_waiting,
                                told[k].1,
                                told[k].0,
                                pool,
                            ));
                        }
                    }
                }
                states = longer;
                assert forall|k: int|
                    i + 1 <= k < expired@.len() && self.is_waiting(
                        #[trigger] expired@[k],
                    ) implies self.has_place(
                    expired@[k],
                    self.data_of(expired@[k]).attrs.dims,
                ) by {
                    lemma_release_keeps_places(before, *self, created, window, pool, expired@[k]);
                }
            }
            released.push((window, created));
            i += 1;
        }
        proof {
            assert(released_windows(released@) =~= expired@);
            assert forall|window: u32| #[trigger] releases_window(released@, window)
                <==> old(self).has_expired(window, now) by {
                assert(expired@.contains(window) <==> old(self).has_expired(window, now));
                if expired@.contains(window) {
                    let k = choose|k: int| 0 <= k < expired@.len() && expired@[k] == window;
                    assert(released@[k].0 == window);
                }
            }
        }
        released
    }
}

/// The windows whose wait was ended.
pub open spec fn released_windows(released: Seq<(u32, Option<RoleCreated>)>) -> Seq<u32> {
    released.map_values(|r: (u32, Option<RoleCreated>)| r.0)
}

/// Whether a window is among those whose wait was ended.
pub open spec fn releases_window(released: Seq<(u32, Option<RoleCreated>)>, window: u32) -> bool {
    exists|k: int| 0 <= k < released.len() && (#[trigger] released[k]).0 == window
}

/// Whether the `k`th step from one state to the next ends the wait of the `k`th window.
pub open spec fn release_step(
    states: Seq<InnerServerState>,
    released: Seq<(u32, Option<RoleCreated>)>,
    k: int,
    pool: bool,
) -> bool {
    exists|was_waiting: bool|
        #[trigger] states[k].released_from_wait(
            states[k + 1],
            was_waiting,
            released[k].1,
            released[k].0,
            pool,
        )
}

/// Whether each state follows from the one before by ending the wait of one window.
pub open spec fn release_steps(
    states: Seq<InnerServerState>,
    released: Seq<(u32, Option<RoleCreated>)>,
    pool: bool,
) -> bool {
    &&& states.len() == released.len() + 1
    &&& forall|k: int| 0 <= k < released.len() ==> #[trigger] release_step(states, released, k, pool)
}

/// What a window's state becomes takes no other window's place away.
proof fn lemma_data_keeps_places(
    before: InnerServerState,
    after: InnerServerState,
    entity: u64,
    data: WindowData,
)
    requires
        before.parts().contains_key(entity),
        before.data_replaced(after, entity, data),
    ensures
        before.popups_can_be_placed() ==> after.popups_can_be_placed(),
        forall|dims: WindowDims| #[trigger]
            roles::fills_an_output(after.parts(), dims) == roles::fills_an_output(before.parts(), dims),
{
    assert forall|dims: WindowDims| #[trigger]
        roles::fills_an_output(after.parts(), dims) == roles::fills_an_output(before.parts(), dims) by {
        assert(after.parts().dom() =~= before.parts().dom());
        lemma_same_outputs(before.parts(), after.parts(), dims);
    }
    if after.popup_for() is Some && before.popups_can_be_placed() {
        let parent = after.popup_for()->0;
        assert(before.can_parent(parent));
        assert(after.known(parent) == before.known(parent));
    }
}

/// Entities that stay the outputs that they are.
proof fn lemma_same_outputs(before: Map<u64, Parts>, after: Map<u64, Parts>, dims: WindowDims)
    requires
        before.dom() == after.dom(),
        forall|e: u64| #[trigger]
            before.contains_key(e) ==> before[e].output_dims == after[e].output_dims,
    ensures
        roles::fills_an_output(after, dims) == roles::fills_an_output(before, dims),
{
    if roles::fills_an_output(before, dims) {
        let output = choose|e: u64| #[trigger] before.contains_key(e) && roles::has_size(before[e], dims);
        assert(after.contains_key(output) && roles::has_size(after[output], dims));
    }
    if roles::fills_an_output(after, dims) {
        let output = choose|e: u64| #[trigger] after.contains_key(e) && roles::has_size(after[e], dims);
        assert(before.contains_key(output) && roles::has_size(before[output], dims));
    }
}

/// A window that stops waiting takes no other window's place away.
proof fn lemma_release_keeps_places(
    before: InnerServerState,
    after: InnerServerState,
    created: Option<RoleCreated>,
    window: u32,
    pool: bool,
    other: u32,
)
    requires
        before.is_waiting(other) ==> before.has_place(other, before.data_of(other).attrs.dims),
        exists|was_waiting: bool|
            #[trigger] before.released_from_wait(after, was_waiting, created, window, pool),
    ensures
        after.is_waiting(other) ==> after.has_place(other, after.data_of(other).attrs.dims),
{
    assert(after.parts().dom() =~= before.parts().dom());
    lemma_same_outputs(before.parts(), after.parts(), after.data_of(other).attrs.dims);
    if after.popup_for() is Some && before.popups_can_be_placed() {
        let parent = after.popup_for()->0;
        assert(before.can_parent(parent));
        assert(after.known(parent) == before.known(parent));
    }
}

/// Where every window is well known, ending all interactions ends that of each window.
pub proof fn law_every_interaction_ends(before: InnerServerState, after: InnerServerState, window: u32)
    requires
        before.wf(),
        before.only_parts_changed(after),
        after.parts() == Map::new(
            |e: u64| before.parts().contains_key(e),
            |e: u64| before.interaction_ended(e),
        ),
        before.windows@.contains_key(window),
    ensures
        after.known(window) is Some,
        after.data_of(window).configure_interaction is None,
{
}

/// A mapped window whose surface waits for a role gets it, unless it has to wait for its geometry
/// first, which it does for a fifth of a second. One that is not mapped, has no surface or has a
/// role is left alone.
pub proof fn law_when_a_role_is_given(
    before: InnerServerState,
    after: InnerServerState,
    created: Option<RoleCreated>,
    window: u32,
    now: u64,
    pool: bool,
)
    requires
        before.maybe_given_role(after, created, window, now, pool),
        now + 200 <= u64::MAX,
        before.windows@.contains_key(window),
        before.parts().contains_key(before.windows@[window]),
        before.parts()[before.windows@[window]].data is Some,
    ensures
        ({
            let entity = before.windows@[window];
            let p = before.parts()[entity];
            let q = after.parts()[entity];
            let data = p.data->0;
            let due = data.mapped && p.surface && p.role is None;
            let fresh = data.initial_toplevel_map_state is Unset;
            let decorated = data.attrs.decorations matches Some(d) && d.serverside;
            let unplaced = !data.attrs.is_popup && !decorated && data.attrs.dims.x == 0
                && data.attrs.dims.y == 0;
            &&& !due ==> created is None && after == before
            &&& due && fresh && unplaced ==> created is None
                && q.data->0.initial_toplevel_map_state == (InitialToplevelMapState::Deferred {
                deadline: (now + 200) as u64,
            })
            &&& due && data.initial_toplevel_map_state is Deferred ==> created is None && after
                == before
            &&& due && !(data.initial_toplevel_map_state is Deferred) && !(fresh && unplaced)
                ==> created is Some && q.role is Some
            &&& created is Some ==> due
        }),
{
}

/// A window that stops waiting is marked so, and gets its role if its surface is there.
pub proof fn law_waiting_ends_with_a_role(
    before: InnerServerState,
    after: InnerServerState,
    released: bool,
    created: Option<RoleCreated>,
    window: u32,
    pool: bool,
)
    requires
        before.released_from_wait(after, released, created, window, pool),
        before.windows@.contains_key(window),
        before.parts().contains_key(before.windows@[window]),
        before.parts()[before.windows@[window]].data is Some,
    ensures
        ({
            let entity = before.windows@[window];
            let p = before.parts()[entity];
            let q = after.parts()[entity];
            let waited = p.data->0.initial_toplevel_map_state is Deferred;
            &&& released == waited
            &&& waited ==> q.data is Some && q.data->0.initial_toplevel_map_state is Released
                && q.data->0.attrs == p.data->0.attrs && q.data->0.mapped == p.data->0.mapped
            &&& created is Some <==> waited && p.surface && p.role is None
            &&& created is Some ==> q.role is Some
            &&& !waited ==> after == before
        }),
{
    let entity = before.windows@[window];
    let p = before.parts()[entity];
    if p.data->0.initial_toplevel_map_state is Deferred && p.surface && p.role is None {
        let data = no_longer_deferred(before.data_of(window));
        let waiting = choose|waiting: InnerServerState| #[trigger]
            before.data_replaced(waiting, entity, data) && waiting.role_created(
                after,
                created->0,
                entity,
                pool,
            );
        assert(waiting.parts()[entity].data == Some(data));
    }
}

/// A mapped window with a role keeps the position that the compositor gave it, unless it is a popup
/// or changes its size as a toplevel; the position that any other asks for is handed on.
pub proof fn law_whose_position_is_handed_on(
    state: InnerServerState,
    window: u32,
    mask: ConfigWindowMask,
)
    ensures
        ({
            let entity = state.windows@[window];
            let p = state.parts()[entity];
            let known = state.windows@.contains_key(window) && state.parts().contains_key(entity)
                && p.data is Some;
            let data = p.data->0;
            let settled = data.mapped && !data.attrs.is_popup && !(
            data.initial_toplevel_map_state is Deferred) && p.role is Some;
            let resized = (mask.width || mask.height) && (p.role matches Some(
                SurfaceRole::Toplevel(Some(_)),
            ));
            &&& !known ==> state.forwards_position(window, mask)
            &&& known && !settled ==> state.forwards_position(window, mask)
            &&& known && settled && resized ==> state.forwards_position(window, mask)
            &&& known && settled && !resized ==> !state.forwards_position(window, mask)
        }),
{
}

/// A rectangle that the X server tells is taken for a window that is not mapped, is a popup or waits
/// for its geometry; a mapped toplevel takes only the size.
pub proof fn law_which_rectangles_are_taken(data: WindowData, dims: WindowDims)
    ensures
        ({
            let noted = InnerServerState::reconfigured_data(data, dims);
            let sized = InnerServerState::resized_data(data, dims);
            let free = !data.mapped || data.attrs.is_popup
                || data.initial_toplevel_map_state is Deferred;
            &&& free ==> noted.attrs.dims == dims
            &&& !free ==> noted == data
            &&& noted.mapped == data.mapped && noted.initial_toplevel_map_state
                == data.initial_toplevel_map_state && noted.output_offset == data.output_offset
            &&& sized.attrs.dims.width == dims.width && sized.attrs.dims.height == dims.height
            &&& sized.attrs.dims.x == data.attrs.dims.x && sized.attrs.dims.y == data.attrs.dims.y
            &&& sized.mapped == data.mapped && sized.output_offset == data.output_offset
        }),
{
}

/// A request only moves a window if it keeps both of its lengths and changes its place, and only a
/// mapped, managed window is moved.
pub proof fn law_what_only_moves(data: WindowData, dims: WindowDims, mask: ConfigWindowMask)
    ensures
        ({
            let moves = InnerServerState::only_moves(data, dims, mask);
            let was = data.attrs.dims;
            let elsewhere = (mask.x && dims.x != was.x) || (mask.y && dims.y != was.y);
            let resized = (mask.width && dims.width != was.width) || (mask.height && dims.height
                != was.height);
            moves <==> data.mapped && !data.attrs.is_popup && elsewhere && !resized
        }),
{
}

/// A move or a resize is started with the last press on the window, by the seat that made it.
pub proof fn law_moves_use_the_last_press(
    state: InnerServerState,
    window: u32,
    direction: MoveResizeDirection,
)
    requires
        state.windows@.contains_key(window),
        state.parts().contains_key(state.windows@[window]),
        state.parts()[state.windows@[window]].data is Some,
    ensures
        ({
            let entity = state.windows@[window];
            let p = state.parts()[entity];
            let press = p.last_click;
            let top = p.role matches Some(SurfaceRole::Toplevel(Some(_)));
            let toplevel = p.role->0->Toplevel_0->0;
            let request = state.resize_request(window, direction);
            let resizable = !toplevel.fullscreen && !toplevel.maximized && !toplevel.tiled
                && decoration::has_resize_border(p.data->0, false, false, false);
            let moving = p.data->0.configure_interaction matches Some(
                ConfigureInteraction::Move { .. },
            );
            &&& state.usable_press(window) <==> press is Some && top
            &&& state.usable_press(window) ==> state.move_request(window) == (MoveRequest {
                entity,
                seat: press->0.seat,
                serial: press->0.serial,
            })
            &&& request is Some <==> press is Some && top && resizable && !moving
            &&& request matches Some(request) ==> {
                &&& request.entity == entity
                &&& request.seat == press->0.seat
                &&& request.serial == press->0.serial
                &&& request.edge == resize::edge_of(resize::axes_of(direction))
            }
        }),
{
}

/// A window has waited long enough once its deadline has come, if it is mapped and its surface still
/// has no role.
pub proof fn law_who_has_waited_long_enough(p: Parts, now: u64)
    ensures
        InnerServerState::is_expired(p, now) ==> p.window is Some && p.surface && p.role is None
            && p.data is Some && p.data->0.mapped,
        InnerServerState::is_expired(p, now) ==> (
        p.data->0.initial_toplevel_map_state matches InitialToplevelMapState::Deferred { deadline }
            && deadline <= now),
        p.window is Some && p.surface && p.role is None && p.data is Some && p.data->0.mapped && (
        p.data->0.initial_toplevel_map_state matches InitialToplevelMapState::Deferred { deadline }
            && deadline <= now) ==> InnerServerState::is_expired(p, now),
{
}

/// Mapping, waiting and no longer waiting each change one mark of a window and nothing else.
pub proof fn law_marks_of_a_window(data: WindowData, now: u64)
    requires
        now + 200 <= u64::MAX,
    ensures
        now_mapped(data).mapped,
        now_mapped(data).attrs == data.attrs,
        now_mapped(data).initial_toplevel_map_state == data.initial_toplevel_map_state,
        deferred(data, now).initial_toplevel_map_state == (InitialToplevelMapState::Deferred {
            deadline: (now + 200) as u64,
        }),
        deferred(data, now).attrs == data.attrs && deferred(data, now).mapped == data.mapped,
        no_longer_deferred(data).initial_toplevel_map_state is Released,
        no_longer_deferred(data).attrs == data.attrs && no_longer_deferred(data).mapped
            == data.mapped,
{
}

/// Replacing the state of a window is all that it says: the entity has that state, and nothing else
/// differs.
pub proof fn law_replaced_state(
    before: InnerServerState,
    after: InnerServerState,
    entity: u64,
    data: WindowData,
    e: u64,
)
    requires
        before.data_replaced(after, entity, data),
        before.parts().contains_key(entity),
        before.parts().contains_key(e),
    ensures
        after.parts().dom() =~= before.parts().dom(),
        after.parts()[entity].data == Some(data),
        after.parts()[entity].role == before.parts()[entity].role,
        after.parts()[entity].window == before.parts()[entity].window,
        after.parts()[entity].scale == before.parts()[entity].scale,
        e != entity ==> after.parts()[e] == before.parts()[e],
        after.names() == before.names() && after.windows == before.windows,
        after.last_focused_toplevel == before.last_focused_toplevel && after.last_hovered
            == before.last_hovered,
{
}

/// Ending an interaction ends it for the windows that are in one, and for no others.
pub proof fn law_ended_interaction(state: InnerServerState, entity: u64)
    requires
        state.parts().contains_key(entity),
    ensures
        ({
            let p = state.parts()[entity];
            let q = state.interaction_ended(entity);
            let own = p.window is Some && p.data is Some && state.windows@.contains_key(
                p.window->0,
            ) && state.windows@[p.window->0] == entity;
            &&& own ==> q.data is Some && q.data->0.configure_interaction is None
                && q.data->0.attrs == p.data->0.attrs && q.data->0.mapped == p.data->0.mapped
            &&& state.in_interaction(entity) <==> own && p.data->0.configure_interaction is Some
            &&& !own || p.data->0.configure_interaction is None ==> q == p
            &&& Parts { data: p.data, ..q } == p
        }),
{
}

/// The windows whose wait is ended are exactly the first parts of what is told, in order.
pub proof fn law_released_windows(released: Seq<(u32, Option<RoleCreated>)>, window: u32)
    ensures
        released_windows(released).len() == released.len(),
        forall|k: int|
            0 <= k < released.len() ==> released_windows(released)[k] == (#[trigger] released[k]).0,
        releases_window(released, window) <==> released_windows(released).contains(window),
{
    if releases_window(released, window) {
        let k = choose|k: int| 0 <= k < released.len() && (#[trigger] released[k]).0 == window;
        assert(released_windows(released)[k] == window);
    }
    if released_windows(released).contains(window) {
        let k = choose|k: int|
            0 <= k < released_windows(released).len() && released_windows(released)[k] == window;
        assert(released[k].0 == window);
    }
}

/// The windows that have waited long enough are found through their entities, each once.
pub proof fn law_expired_entities(
    state: InnerServerState,
    entities: Seq<u64>,
    windows: Seq<u32>,
    now: u64,
    k: int,
)
    requires
        state.expire_together(entities, windows, now),
        0 <= k < windows.len(),
    ensures
        entities.len() == windows.len(),
        entities.no_duplicates(),
        state.parts().contains_key(entities[k]),
        state.parts()[entities[k]].window == Some(windows[k]),
        InnerServerState::is_expired(state.parts()[entities[k]], now),
        state.has_expired(windows[k], now),
{
    assert(entities.contains(entities[k]));
}

/// The steps that end the waits lead from one state to the next, one window at a time.
pub proof fn law_waits_end_one_by_one(
    states: Seq<InnerServerState>,
    released: Seq<(u32, Option<RoleCreated>)>,
    pool: bool,
    k: int,
)
    requires
        release_steps(states, released, pool),
        0 <= k < released.len(),
    ensures
        states.len() == released.len() + 1,
        exists|was_waiting: bool|
            #[trigger] states[k].released_from_wait(
                states[k + 1],
                was_waiting,
                released[k].1,
                released[k].0,
                pool,
            ),
{
    assert(release_step(states, released, k, pool));
}

} // verus!
