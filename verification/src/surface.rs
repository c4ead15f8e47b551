//! Surfaces of the X server: what they may show when, and which window they belong to.

use vstd::prelude::*;
use crate::geometry::WindowDims;
use crate::output::SurfaceScaleFactor;
use crate::role::SurfaceRole;
use crate::roles;
use crate::roles::RoleCreated;
use crate::state::InnerServerState;
use crate::world;
use crate::world::{Parts, SurfaceAttach, SurfaceSerial};

verus! {

/// Whether a surface may show anything: it has no role that still waits to be configured.
pub open spec fn is_configured(parts: Parts) -> bool {
    parts.role matches Some(role) ==> (role.xdg_surface() matches Some(xdg) ==> xdg.configured)
}

/// One value over another.
pub open spec fn over<T>(top: Option<T>, base: Option<T>) -> Option<T> {
    if top is Some {
        top
    } else {
        base
    }
}

/// What two entities have together; where both have something, `top` counts.
pub open spec fn overlaid(base: Parts, top: Parts) -> Parts {
    Parts {
        window: over(top.window, base.window),
        data: over(top.data, base.data),
        serial: over(top.serial, base.serial),
        last_click: over(top.last_click, base.last_click),
        pending_dims: over(top.pending_dims, base.pending_dims),
        surface: base.surface || top.surface,
        scale: over(top.scale, base.scale),
        role: over(top.role, base.role),
        attach: over(top.attach, base.attach),
        callback: over(top.callback, base.callback),
        on_output: over(top.on_output, base.on_output),
        output: base.output || top.output,
        xdg_output: base.xdg_output || top.xdg_output,
        output_scale: over(top.output_scale, base.output_scale),
        output_dims: over(top.output_dims, base.output_dims),
        global: over(top.global, base.global),
        seat: over(top.seat, base.seat),
        pointer: over(top.pointer, base.pointer),
        server_pointer: base.server_pointer || top.server_pointer,
        current: over(top.current, base.current),
        pending_enter: over(top.pending_enter, base.pending_enter),
        candidate: over(top.candidate, base.candidate),
        shape_device: base.shape_device || top.shape_device,
        enter_serial: over(top.enter_serial, base.enter_serial),
        resize_edge: over(top.resize_edge, base.resize_edge),
        decoration_cursor_serial: over(top.decoration_cursor_serial, base.decoration_cursor_serial),
        forwarded_cursor: over(top.forwarded_cursor, base.forwarded_cursor),
    }
}

fn prefer<T: Copy>(top: Option<T>, base: Option<T>) -> (r: Option<T>)
    ensures
        r == over(top, base),
{
    match top {
        Some(value) => Some(value),
        None => base,
    }
}

fn overlay(base: &Parts, top: &Parts) -> (parts: Parts)
    ensures
        parts == overlaid(*base, *top),
{
    Parts {
        window: prefer(top.window, base.window),
        data: prefer(top.data, base.data),
        serial: prefer(top.serial, base.serial),
        last_click: prefer(top.last_click, base.last_click),
        pending_dims: prefer(top.pending_dims, base.pending_dims),
        surface: base.surface || top.surface,
        scale: prefer(top.scale, base.scale),
        role: prefer(top.role, base.role),
        attach: prefer(top.attach, base.attach),
        callback: prefer(top.callback, base.callback),
        on_output: prefer(top.on_output, base.on_output),
        output: base.output || top.output,
        xdg_output: base.xdg_output || top.xdg_output,
        output_scale: prefer(top.output_scale, base.output_scale),
        output_dims: prefer(top.output_dims, base.output_dims),
        global: prefer(top.global, base.global),
        seat: prefer(top.seat, base.seat),
        pointer: prefer(top.pointer, base.pointer),
        server_pointer: base.server_pointer || top.server_pointer,
        current: prefer(top.current, base.current),
        pending_enter: prefer(top.pending_enter, base.pending_enter),
        candidate: prefer(top.candidate, base.candidate),
        shape_device: base.shape_device || top.shape_device,
        enter_serial: prefer(top.enter_serial, base.enter_serial),
        resize_edge: prefer(top.resize_edge, base.resize_edge),
        decoration_cursor_serial: prefer(
            top.decoration_cursor_serial,
            base.decoration_cursor_serial,
        ),
        forwarded_cursor: prefer(top.forwarded_cursor, base.forwarded_cursor),
    }
}

impl InnerServerState {
    /// Adds a surface that the X server created.
    pub fn new_surface(&mut self) -> (entity: u64)
        requires
            old(self).has_room(),
        ensures
            !old(self).parts().contains_key(entity),
            final(self).parts() == old(self).parts().insert(
                entity,
                Parts {
                    surface: true,
                    scale: Some(SurfaceScaleFactor { n120: 120 }),
                    ..Parts::nothing()
                },
            ),
            old(self).only_parts_changed(*final(self)),
            old(self).wf() ==> final(self).wf(),
            old(self).one_entity_each() ==> final(self).one_entity_each(),
    {
        let mut parts = Parts::empty();
        parts.surface = true;
        parts.scale = Some(SurfaceScaleFactor::unit());
        world::spawn(&mut self.world, parts)
    }

    /// Whether what a surface shows is handed on to the compositor.
    pub fn surface_is_configured(&self, entity: u64) -> (configured: bool)
        ensures
            configured == (world::at(self.parts(), entity) matches Some(p) ==> is_configured(p)),
    {
        match world::get(&self.world, entity) {
            Some(parts) => match parts.role {
                Some(role) => match role.xdg() {
                    Some(xdg) => xdg.configured,
                    None => true,
                },
                None => true,
            },
            None => true,
        }
    }

    /// Handles a buffer that is attached to a surface. Returns whether it is handed on now; if
    /// not, the last one is kept until the surface is configured.
    pub fn surface_attach(&mut self, entity: u64, attach: SurfaceAttach) -> (forward: bool)
        requires
            old(self).parts().contains_key(entity),
        ensures
            forward == is_configured(old(self).parts()[entity]),
            final(self).parts() == (if forward {
                old(self).parts()
            } else {
                old(self).parts().insert(
                    entity,
                    Parts { attach: Some(attach), ..old(self).parts()[entity] },
                )
            }),
            old(self).only_parts_changed(*final(self)),
            old(self).wf() ==> final(self).wf(),
            old(self).one_entity_each() ==> final(self).one_entity_each(),
    {
        let configured = self.surface_is_configured(entity);
        if !configured {
            let parts = world::get(&self.world, entity).unwrap();
            world::set(&mut self.world, entity, Parts { attach: Some(attach), ..parts });
        }
        configured
    }

    /// Handles a frame callback that a surface asks for. Returns whether the wish is handed on
    /// now; if not, the last one is kept until the surface is configured.
    pub fn surface_frame(&mut self, entity: u64, callback: u64) -> (forward: bool)
        requires
            old(self).parts().contains_key(entity),
        ensures
            forward == is_configured(old(self).parts()[entity]),
            final(self).parts() == (if forward {
                old(self).parts()
            } else {
                old(self).parts().insert(
                    entity,
                    Parts { callback: Some(callback), ..old(self).parts()[entity] },
                )
            }),
            old(self).only_parts_changed(*final(self)),
            old(self).wf() ==> final(self).wf(),
            old(self).one_entity_each() ==> final(self).one_entity_each(),
    {
        let configured = self.surface_is_configured(entity);
        if !configured {
            let parts = world::get(&self.world, entity).unwrap();
            world::set(&mut self.world, entity, Parts { callback: Some(callback), ..parts });
        }
        configured
    }

    /// Forgets a surface that was destroyed. Its entity stays if it stands for a window, with a
    /// role whose objects are gone. Returns the role whose objects are to be destroyed.
    pub fn surface_destroy(&mut self, entity: u64) -> (role: Option<SurfaceRole>)
        ensures
            match world::at(old(self).parts(), entity) {
                Some(p) => {
                    &&& role == p.role
                    &&& if p.window is Some {
                        &&& final(self).parts() == old(self).parts().insert(
                            entity,
                            Parts {
                                surface: false,
                                scale: None,
                                role: match p.role {
                                    Some(role) => Some(role.torn_down()),
                                    None => None,
                                },
                                ..p
                            },
                        )
                        &&& final(self).names() == old(self).names()
                    } else {
                        &&& final(self).parts() == old(self).parts().remove(entity)
                        &&& final(self).names() == old(self).names().remove(entity)
                    }
                },
                None => role is None && *final(self) == *old(self),
            },
            role matches Some(SurfaceRole::Toplevel(Some(_))) && old(
                self,
            ).parts()[entity].window is Some ==> (final(self).parts()[entity].role matches Some(
                SurfaceRole::Toplevel(Some(left)),
            ) && !left.decoration.wl),
            *final(self) == (InnerServerState { world: final(self).world, ..*old(self) }),
            old(self).wf() ==> final(self).wf(),
            old(self).one_entity_each() ==> final(self).one_entity_each(),
    {
        let parts = match world::get(&self.world, entity) {
            Some(parts) => parts,
            None => return None,
        };
        if parts.window.is_some() {
            let role = match parts.role {
                Some(mut role) => {
                    role.destroy();
                    Some(role)
                },
                None => None,
            };
            world::set(
                &mut self.world,
                entity,
                Parts { surface: false, scale: None, role, ..parts },
            );
        } else {
            world::despawn(&mut self.world, entity);
        }
        parts.role
    }

    /// Whether an entity waits for the surface with the given serial.
    pub open spec fn awaits_surface(self, entity: u64, serial: SurfaceSerial) -> bool {
        self.parts().contains_key(entity) && self.parts()[entity].serial == Some(serial)
            && !self.parts()[entity].surface
    }

    /// The surface's entity once it stands for the window that waited for it.
    pub open spec fn associated_parts(self, entity: u64, waiting: u64) -> Parts {
        Parts { serial: None, ..overlaid(self.parts()[entity], self.parts()[waiting]) }
    }

    /// The state once the surface of `entity` belongs to the window of `waiting`.
    pub open spec fn associated(self, after: InnerServerState, entity: u64, waiting: u64) -> bool {
        &&& after.parts() == self.parts().remove(waiting).insert(
            entity,
            self.associated_parts(entity, waiting),
        )
        &&& after.names() == (if self.names().contains_key(waiting) {
            self.names().remove(waiting).insert(entity, self.names()[waiting])
        } else {
            self.names()
        })
        &&& after.windows@ == self.windows@.insert(self.parts()[waiting].window->0, entity)
        &&& after == (InnerServerState { world: after.world, windows: after.windows, ..self })
    }

    /// What becomes of a surface that is told its serial: it waits for its window, or joins the
    /// window that waits for it and gets its role if that is mapped.
    pub open spec fn serial_set(
        self,
        after: InnerServerState,
        created: Option<RoleCreated>,
        entity: u64,
        serial: SurfaceSerial,
        pool: bool,
    ) -> bool {
        if exists|waiting: u64| #[trigger] self.awaits_surface(waiting, serial) {
            exists|waiting: u64| #[trigger]
                self.awaits_surface(waiting, serial) && self.joined(
                    after,
                    created,
                    entity,
                    waiting,
                    pool,
                )
        } else {
            &&& created is None
            &&& after.parts() == self.parts().insert(
                entity,
                Parts { serial: Some(serial), ..self.parts()[entity] },
            )
            &&& self.only_parts_changed(after)
        }
    }

    /// What becomes of a surface that joins a window. An entity whose window was destroyed in the
    /// meantime is dropped.
    pub open spec fn joined(
        self,
        after: InnerServerState,
        created: Option<RoleCreated>,
        entity: u64,
        waiting: u64,
        pool: bool,
    ) -> bool {
        if self.parts()[waiting].window is None {
            &&& created is None
            &&& after.parts() == self.parts().remove(waiting)
            &&& after.names() == self.names().remove(waiting)
            &&& after == (InnerServerState { world: after.world, ..self })
        } else if self.parts()[waiting].data->0.mapped {
            created is Some && exists|together: InnerServerState| #[trigger]
                self.associated(together, entity, waiting) && together.role_created(
                    after,
                    created->0,
                    entity,
                    pool,
                )
        } else {
            created is None && self.associated(after, entity, waiting)
        }
    }

    /// Whether a window can be joined with the surface of `entity`: it is no output and has a state;
    /// and where it gets a role, a popup has a window to be placed on, which is current, and a role
    /// that it had before is of the kind that it gets.
    pub open spec fn can_join(self, entity: u64, waiting: u64) -> bool {
        let p = self.parts()[waiting];
        &&& p.data is Some
        &&& p.output_dims is None
        &&& p.data->0.mapped ==> {
            &&& self.role_has_place(waiting, p.data->0.attrs.dims)
            &&& self.popup_for() == p.window ==> self.windows@.contains_key(p.window->0)
                && self.windows@[p.window->0] == waiting
            &&& over(p.role, self.parts()[entity].role) matches Some(role) ==> (role is Popup) == (
            self.role_parent(p.data->0) is Some)
        }
    }

    /// Whether every window that waits for the given serial can be joined.
    pub open spec fn joinable(self, entity: u64, serial: SurfaceSerial) -> bool {
        forall|waiting: u64| #[trigger]
            self.awaits_surface(waiting, serial) && self.parts()[waiting].window is Some
                ==> self.can_join(entity, waiting)
    }

    /// Whether a window can be joined with the surface of `entity`.
    fn joins(&self, entity: u64, waiting: u64) -> (r: bool)
        requires
            self.parts().contains_key(entity),
            self.parts().contains_key(waiting),
            self.parts()[waiting].window is Some,
        ensures
            r == self.can_join(entity, waiting),
    {
        let parts = world::get(&self.world, waiting).unwrap();
        let own = world::get(&self.world, entity).unwrap();
        let data = match parts.data {
            Some(data) => data,
            None => return false,
        };
        if parts.output_dims.is_some() {
            return false;
        }
        if !data.mapped {
            return true;
        }
        if !self.role_finds_place(waiting, data.attrs.dims) {
            return false;
        }
        let window = parts.window.unwrap();
        let popup_for = match self.last_hovered {
            Some(hovered) => Some(hovered),
            None => self.last_focused_toplevel,
        };
        if popup_for == Some(window) {
            match self.windows.get(&window) {
                Some(current) => if *current != waiting {
                    return false;
                },
                None => return false,
            }
        }
        match prefer(parts.role, own.role) {
            Some(role) => matches!(role, SurfaceRole::Popup(_)) == self.parent_for(&data).is_some(),
            None => true,
        }
    }

    /// Whether every window that waits for the given serial can be joined with the surface of
    /// `entity`.
    pub fn surface_is_joinable(&self, entity: u64, serial: SurfaceSerial) -> (r: bool)
        requires
            self.parts().contains_key(entity),
        ensures
            r == self.joinable(entity, serial),
    {
        let entities = world::entities(&self.world);
        let mut i: usize = 0;
        while i < entities.len()
            invariant
                i <= entities.len(),
                self.parts().contains_key(entity),
                forall|e: u64| entities@.contains(e) <==> self.parts().contains_key(e),
                forall|k: int|
                    0 <= k < i && self.awaits_surface(#[trigger] entities@[k], serial)
                        && self.parts()[entities@[k]].window is Some ==> self.can_join(
                        entity,
                        entities@[k],
                    ),
            decreases entities.len() - i,
        {
            let waiting = entities[i];
            assert(entities@.contains(entities@[i as int]));
            if let Some(parts) = world::get(&self.world, waiting) {
                if !parts.surface && parts.serial == Some(serial) && parts.window.is_some()
                    && !self.joins(entity, waiting) {
                    assert(self.awaits_surface(waiting, serial));
                    return false;
                }
            }
            i += 1;
        }
        assert forall|waiting: u64| #[trigger]
            self.awaits_surface(waiting, serial) && self.parts()[waiting].window
                is Some implies self.can_join(entity, waiting) by {
            assert(entities@.contains(waiting));
        }
        true
    }

    /// The entity that waits for the surface with the given serial, or one of them.
    fn find_waiting(&self, serial: SurfaceSerial) -> (found: Option<u64>)
        ensures
            match found {
                Some(waiting) => self.awaits_surface(waiting, serial),
                None => forall|waiting: u64| !#[trigger] self.awaits_surface(waiting, serial),
            },
    {
        let entities = world::entities(&self.world);
        let mut i: usize = 0;
        while i < entities.len()
            invariant
                i <= entities.len(),
                forall|e: u64| entities@.contains(e) <==> self.parts().contains_key(e),
                forall|k: int|
                    0 <= k < i ==> !self.awaits_surface(#[trigger] entities@[k], serial),
            decreases entities.len() - i,
        {
            if let Some(parts) = world::get(&self.world, entities[i]) {
                if !parts.surface && parts.serial == Some(serial) {
                    return Some(entities[i]);
                }
            }
            i += 1;
        }
        assert forall|waiting: u64| !#[trigger] self.awaits_surface(waiting, serial) by {
            if self.parts().contains_key(waiting) {
                assert(entities@.contains(waiting));
            }
        }
        None
    }

    /// Joins the surface of `entity` with the window of `waiting`.
    fn associate(&mut self, entity: u64, waiting: u64)
        requires
            old(self).wf(),
            old(self).parts().contains_key(entity),
            old(self).parts()[entity].surface,
            old(self).parts()[entity].window is None,
            old(self).parts().contains_key(waiting),
            !old(self).parts()[waiting].surface,
            old(self).parts()[waiting].window is Some,
            old(self).parts()[waiting].data is Some,
        ensures
            old(self).associated(*final(self), entity, waiting),
            old(self).popups_can_be_placed() && (old(self).popup_for()
                == old(self).parts()[waiting].window ==> old(
                self,
            ).windows@[old(self).parts()[waiting].window->0] == waiting)
                ==> final(self).popups_can_be_placed(),
            final(self).wf(),
            old(self).one_entity_each() ==> final(self).one_entity_each(),
    {
        let base = world::get(&self.world, entity).unwrap();
        let top = world::get(&self.world, waiting).unwrap();
        let names = world::take_names(&mut self.world, waiting);
        world::despawn(&mut self.world, waiting);
        let mut together = overlay(&base, &top);
        together.serial = None;
        world::set(&mut self.world, entity, together);
        if let Some(names) = names {
            world::set_names(&mut self.world, entity, names);
            assert(self.names() =~= old(self).names().remove(waiting).insert(entity, names));
        } else {
            assert(self.names() =~= old(self).names());
        }
        if let Some(window) = top.window {
            self.windows.insert(window, entity);
            assert(self.wf()) by {
                assert forall|w: u32| #[trigger] self.windows@.contains_key(w) implies {
                    &&& self.parts().contains_key(self.windows@[w])
                    &&& self.parts()[self.windows@[w]].window == Some(w)
                    &&& self.parts()[self.windows@[w]].data is Some
                } by {
                    if w != window {
                        assert(old(self).windows@.contains_key(w));
                    }
                }
            }
        }
        proof {
            if self.popup_for() is Some && old(self).popups_can_be_placed() {
                let parent = self.popup_for()->0;
                assert(old(self).can_parent(parent));
                assert(old(self).windows@.contains_key(parent));
                if old(self).windows@[parent] != waiting && top.window != Some(parent) {
                    assert(old(self).windows@[parent] != entity);
                }
            }
        }
    }

    /// Handles the serial by which a surface is tied to a window.
    pub fn set_surface_serial(&mut self, entity: u64, serial: SurfaceSerial, pool: bool) -> (created:
        Option<RoleCreated>)
        requires
            old(self).wf(),
            old(self).parts().contains_key(entity),
            old(self).parts()[entity].surface,
            old(self).parts()[entity].window is None,
            old(self).parts()[entity].output_dims is None,
            old(self).joinable(entity, serial),
        ensures
            old(self).serial_set(*final(self), created, entity, serial, pool),
            final(self).wf(),
            old(self).one_entity_each() ==> final(self).one_entity_each(),
    {
        let waiting = match self.find_waiting(serial) {
            Some(waiting) => waiting,
            None => {
                let parts = world::get(&self.world, entity).unwrap();
                world::set(&mut self.world, entity, Parts { serial: Some(serial), ..parts });
                return None;
            },
        };
        assert(old(self).awaits_surface(waiting, serial));
        let top = world::get(&self.world, waiting).unwrap();
        if top.window.is_none() {
            world::despawn(&mut self.world, waiting);
            return None;
        }
        self.associate(entity, waiting);
        let ghost together = *self;
        assert(old(self).associated(together, entity, waiting));
        let mapped = match top.data {
            Some(data) => data.mapped,
            None => false,
        };
        if !mapped {
            return None;
        }
        proof {
            let data = together.parts()[entity].data->0;
            assert(data == top.data->0);
            lemma_outputs_survive_joining(*old(self), together, entity, waiting, data.attrs.dims);
        }
        Some(self.create_role_window_and_activate(entity, pool))
    }
}

/// Joining a surface with a window changes nothing about the outputs.
proof fn lemma_outputs_survive_joining(
    before: InnerServerState,
    after: InnerServerState,
    entity: u64,
    waiting: u64,
    dims: WindowDims,
)
    requires
        before.parts().contains_key(entity),
        before.parts().contains_key(waiting),
        before.parts()[entity].output_dims is None,
        before.parts()[waiting].output_dims is None,
        entity != waiting,
        before.associated(after, entity, waiting),
    ensures
        roles::fills_an_output(before.parts(), dims) == roles::fills_an_output(
            after.parts(),
            dims,
        ),
{
    if roles::fills_an_output(before.parts(), dims) {
        let output = choose|e: u64| #[trigger]
            before.parts().contains_key(e) && roles::has_size(before.parts()[e], dims);
        assert(after.parts().contains_key(output) && roles::has_size(
            after.parts()[output],
            dims,
        ));
    }
    if roles::fills_an_output(after.parts(), dims) {
        let output = choose|e: u64| #[trigger]
            after.parts().contains_key(e) && roles::has_size(after.parts()[e], dims);
        assert(before.parts().contains_key(output) && roles::has_size(
            before.parts()[output],
            dims,
        ));
    }
}

impl InnerServerState {
    /// Takes note of a lock of the pointer to a surface, whose scale it keeps. Returns the entity
    /// of the lock, if the surface has a scale.
    pub fn lock_pointer(&mut self, surface: u64) -> (lock: Option<u64>)
        requires
            old(self).has_room(),
        ensures
            ({
                let scale = match world::at(old(self).parts(), surface) {
                    Some(p) => p.scale,
                    None => None,
                };
                match lock {
                    Some(entity) => scale is Some && !old(self).parts().contains_key(entity)
                        && final(self).parts() == old(self).parts().insert(
                        entity,
                        Parts { scale, ..Parts::nothing() },
                    ),
                    None => scale is None && final(self).parts() == old(self).parts(),
                }
            }),
            old(self).only_parts_changed(*final(self)),
            old(self).wf() ==> final(self).wf(),
            old(self).one_entity_each() ==> final(self).one_entity_each(),
    {
        let parts = match world::get(&self.world, surface) {
            Some(parts) => parts,
            None => return None,
        };
        if parts.scale.is_none() {
            return None;
        }
        let mut lock = Parts::empty();
        lock.scale = parts.scale;
        Some(world::spawn(&mut self.world, lock))
    }

    /// The scale that a cursor position in a lock is divided by: the X server takes the surface to
    /// be larger by that factor than it is.
    pub fn lock_scale(&self, lock: u64) -> (scale: Option<SurfaceScaleFactor>)
        ensures
            scale == (match world::at(self.parts(), lock) {
                Some(p) => p.scale,
                None => None,
            }),
    {
        match world::get(&self.world, lock) {
            Some(parts) => parts.scale,
            None => None,
        }
    }

    /// Forgets a lock.
    pub fn unlock_pointer(&mut self, lock: u64)
        ensures
            final(self).parts() == old(self).parts().remove(lock),
            final(self).names() == old(self).names().remove(lock),
            *final(self) == (InnerServerState { world: final(self).world, ..*old(self) }),
            old(self).wf() && (world::at(old(self).parts(), lock) matches Some(p) ==> p.window
                is None) ==> final(self).wf(),
            old(self).one_entity_each() && (world::at(old(self).parts(), lock) matches Some(p)
                ==> p.window is None) ==> final(self).one_entity_each(),
    {
        world::despawn(&mut self.world, lock);
    }
}

/// What a surface commits is handed on as soon as its role has been configured, and at once where
/// it has no role.
pub proof fn law_when_commits_pass(p: Parts)
    ensures
        p.role is None ==> is_configured(p),
        p.role matches Some(SurfaceRole::Toplevel(Some(toplevel))) ==> (is_configured(p)
            <==> toplevel.xdg.configured),
        p.role matches Some(SurfaceRole::Popup(Some(popup))) ==> (is_configured(p)
            <==> popup.xdg.configured),
{
}

/// A surface that joins a window takes over the window with all that is known of it, and stays the
/// surface that it is. The window then leads to the surface's entity, and its own is gone.
pub proof fn law_surface_takes_over_its_window(
    before: InnerServerState,
    after: InnerServerState,
    entity: u64,
    waiting: u64,
)
    requires
        before.associated(after, entity, waiting),
        before.parts().contains_key(waiting),
        before.parts().contains_key(entity),
        before.parts()[entity].surface,
        before.parts()[waiting].window is Some,
        before.parts()[waiting].data is Some,
        entity != waiting,
    ensures
        ({
            let window = before.parts()[waiting].window->0;
            let joined = after.parts()[entity];
            &&& joined.window == Some(window)
            &&& joined.data == before.parts()[waiting].data
            &&& joined.surface
            &&& joined.serial is None
            &&& before.parts()[waiting].role is None ==> joined.role == before.parts()[entity].role
            &&& before.parts()[waiting].scale is None ==> joined.scale
                == before.parts()[entity].scale
            &&& before.parts()[waiting].on_output is None ==> joined.on_output
                == before.parts()[entity].on_output
            &&& !after.parts().contains_key(waiting)
            &&& after.windows@[window] == entity
            &&& before.names().contains_key(waiting) ==> after.names()[entity]
                == before.names()[waiting]
            &&& forall|e: u64| #[trigger]
                before.parts().contains_key(e) && e != entity && e != waiting
                    ==> after.parts().contains_key(e) && after.parts()[e] == before.parts()[e]
            &&& forall|w: u32| #[trigger]
                before.windows@.contains_key(w) && w != window ==> after.windows@[w]
                    == before.windows@[w]
        }),
{
}

/// A surface and a window find each other by their serial: an entity waits exactly if it has that
/// serial and no surface of its own.
pub proof fn law_who_waits_for_a_surface(
    state: InnerServerState,
    entity: u64,
    serial: SurfaceSerial,
)
    ensures
        state.awaits_surface(entity, serial) ==> state.parts().contains_key(entity)
            && state.parts()[entity].serial is Some && state.parts()[entity].serial->0.low
            == serial.low && state.parts()[entity].serial->0.high == serial.high
            && !state.parts()[entity].surface,
        state.parts().contains_key(entity) && !state.parts()[entity].surface
            && state.parts()[entity].serial == Some(serial) ==> state.awaits_surface(
            entity,
            serial,
        ),
{
}

/// A surface that is told its serial waits for its window with it if no window waits; otherwise it
/// joins one that does, and has its role at once if that window is mapped.
pub proof fn law_serials_bring_together(
    before: InnerServerState,
    after: InnerServerState,
    created: Option<RoleCreated>,
    entity: u64,
    serial: SurfaceSerial,
    pool: bool,
)
    requires
        before.serial_set(after, created, entity, serial, pool),
        before.parts().contains_key(entity),
        before.parts()[entity].surface,
        before.parts()[entity].window is None,
    ensures
        (forall|e: u64| #[trigger] before.parts().contains_key(e) ==> before.parts()[e].surface
            || before.parts()[e].serial != Some(serial)) ==> created is None
            && after.parts()[entity].serial == Some(serial) && after.parts()[entity].window is None,
        (exists|e: u64| #[trigger] before.parts().contains_key(e) && !before.parts()[e].surface
            && before.parts()[e].serial == Some(serial)) && (forall|e: u64| #[trigger]
            before.parts().contains_key(e) && !before.parts()[e].surface && before.parts()[e].serial
                == Some(serial) ==> before.parts()[e].window is Some && before.parts()[e].data
                is Some) ==> after.parts()[entity].window is Some && after.parts()[entity].data
            is Some && after.windows@[after.parts()[entity].window->0] == entity && (
        created is Some <==> after.parts()[entity].data->0.mapped),
{
    if exists|waiting: u64| #[trigger] before.awaits_surface(waiting, serial) {
        let waiting = choose|waiting: u64| #[trigger]
            before.awaits_surface(waiting, serial) && before.joined(
                after,
                created,
                entity,
                waiting,
                pool,
            );
        assert(before.parts().contains_key(waiting));
        if before.parts()[waiting].window is Some && before.parts()[waiting].data is Some {
            if before.parts()[waiting].data->0.mapped {
                let together = choose|together: InnerServerState| #[trigger]
                    before.associated(together, entity, waiting) && together.role_created(
                        after,
                        created->0,
                        entity,
                        pool,
                    );
                law_surface_takes_over_its_window(before, together, entity, waiting);
                roles::law_created_role(together, after, created->0, entity, pool, entity);
            } else {
                law_surface_takes_over_its_window(before, after, entity, waiting);
            }
        }
    } else {
        assert forall|e: u64| #[trigger] before.parts().contains_key(e) implies before.parts()[e].surface
            || before.parts()[e].serial != Some(serial) by {
            assert(!before.awaits_surface(e, serial));
        }
    }
}

/// A surface can join every window that waits for its serial: one that is mapped must then find a
/// place for its role, of the kind that the surface may have.
pub proof fn law_who_can_join(state: InnerServerState, entity: u64, serial: SurfaceSerial, w: u64)
    requires
        state.joinable(entity, serial),
        state.parts().contains_key(w),
        !state.parts()[w].surface,
        state.parts()[w].serial == Some(serial),
        state.parts()[w].window is Some,
    ensures
        ({
            let p = state.parts()[w];
            &&& p.data is Some
            &&& p.output_dims is None
            &&& p.data->0.mapped ==> state.role_has_place(w, p.data->0.attrs.dims)
            &&& p.data->0.mapped && p.role is Some ==> (p.role->0 is Popup <==> state.role_parent(
                p.data->0,
            ) is Some)
            &&& p.data->0.mapped && p.role is None && state.parts()[entity].role is Some ==> (
            state.parts()[entity].role->0 is Popup <==> state.role_parent(p.data->0) is Some)
        }),
{
    assert(state.awaits_surface(w, serial));
}

} // verus!
