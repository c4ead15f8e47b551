//! The compositor's globals: which are offered to the X server, and what is bound from them.

use vstd::prelude::*;
use crate::output;
use crate::output::{OutputDimensions, OutputDimensionsSource, OutputScaleFactor};
use crate::pointer;
use crate::pointer::{invalidate_move_candidates_for_seat_global, ForwardedPointerCursor};
use crate::state::{GlobalInfo, InnerServerState, Interface};
use crate::text::same_text;
use crate::world;
use crate::world::{Handle, Parts};

verus! {

/// A global of the compositor.
#[derive(Debug)]
pub struct Global {
    pub name: u32,
    pub interface: String,
    pub version: u32,
}

/// The greatest version of each interface that is understood.
#[derive(Clone, Copy, Debug, PartialEq, Eq, Structural)]
pub struct SupportedVersions {
    pub compositor: u32,
    pub shm: u32,
    pub seat: u32,
    pub output: u32,
    pub relative_pointer: u32,
    pub drm: u32,
    pub dmabuf: u32,
    pub xdg_output: u32,
    pub pointer_constraints: u32,
    pub tablet: u32,
    pub drm_syncobj: u32,
}

impl Interface {
    /// What the interface is called in the protocol.
    pub open spec fn protocol_name(self) -> Seq<char> {
        match self {
            Interface::Compositor => "wl_compositor"@,
            Interface::Shm => "wl_shm"@,
            Interface::Seat => "wl_seat"@,
            Interface::Output => "wl_output"@,
            Interface::RelativePointer => "zwp_relative_pointer_manager_v1"@,
            Interface::Drm => "wl_drm"@,
            Interface::Dmabuf => "zwp_linux_dmabuf_v1"@,
            Interface::XdgOutput => "zxdg_output_manager_v1"@,
            Interface::PointerConstraints => "zwp_pointer_constraints_v1"@,
            Interface::Tablet => "zwp_tablet_manager_v2"@,
            Interface::DrmSyncobj => "wp_linux_drm_syncobj_manager_v1"@,
        }
    }

    /// The interface with a name, if it is one that is offered to the X server.
    pub fn with_name(name: &str) -> (interface: Option<Interface>)
        ensures
            match interface {
                Some(interface) => interface.protocol_name() == name@,
                None => forall|interface: Interface| interface.protocol_name() != name@,
            },
    {
        if same_text(name, "wl_compositor") {
            Some(Interface::Compositor)
        } else if same_text(name, "wl_shm") {
            Some(Interface::Shm)
        } else if same_text(name, "wl_seat") {
            Some(Interface::Seat)
        } else if same_text(name, "wl_output") {
            Some(Interface::Output)
        } else if same_text(name, "zwp_relative_pointer_manager_v1") {
            Some(Interface::RelativePointer)
        } else if same_text(name, "wl_drm") {
            Some(Interface::Drm)
        } else if same_text(name, "zwp_linux_dmabuf_v1") {
            Some(Interface::Dmabuf)
        } else if same_text(name, "zxdg_output_manager_v1") {
            Some(Interface::XdgOutput)
        } else if same_text(name, "zwp_pointer_constraints_v1") {
            Some(Interface::PointerConstraints)
        } else if same_text(name, "zwp_tablet_manager_v2") {
            Some(Interface::Tablet)
        } else if same_text(name, "wp_linux_drm_syncobj_manager_v1") {
            Some(Interface::DrmSyncobj)
        } else {
            None
        }
    }
}

/// Different interfaces have different names, so that a name stands for one interface only.
pub proof fn law_a_name_is_one_interface(a: Interface, b: Interface)
    requires
        a.protocol_name() == b.protocol_name(),
    ensures
        a == b,
{
    reveal_strlit("wl_compositor");
    reveal_strlit("wl_shm");
    reveal_strlit("wl_seat");
    reveal_strlit("wl_output");
    reveal_strlit("zwp_relative_pointer_manager_v1");
    reveal_strlit("wl_drm");
    reveal_strlit("zwp_linux_dmabuf_v1");
    reveal_strlit("zxdg_output_manager_v1");
    reveal_strlit("zwp_pointer_constraints_v1");
    reveal_strlit("zwp_tablet_manager_v2");
    reveal_strlit("wp_linux_drm_syncobj_manager_v1");
    assert("wl_shm"@[3] != "wl_drm"@[3]);
    assert("zwp_relative_pointer_manager_v1"@[0] != "wp_linux_drm_syncobj_manager_v1"@[0]);
    assert("wl_compositor"@.len() == 13 && "wl_shm"@.len() == 6 && "wl_seat"@.len() == 7
        && "wl_output"@.len() == 9 && "zwp_linux_dmabuf_v1"@.len() == 19
        && "zxdg_output_manager_v1"@.len() == 22 && "zwp_pointer_constraints_v1"@.len() == 26
        && "zwp_tablet_manager_v2"@.len() == 21);
    assert("zwp_relative_pointer_manager_v1"@.len() == 31
        && "wp_linux_drm_syncobj_manager_v1"@.len() == 31 && "wl_drm"@.len() == 6);
}

impl SupportedVersions {
    /// The greatest version of an interface that is understood.
    pub open spec fn at(self, interface: Interface) -> u32 {
        match interface {
            Interface::Compositor => self.compositor,
            Interface::Shm => self.shm,
            Interface::Seat => self.seat,
            Interface::Output => self.output,
            Interface::RelativePointer => self.relative_pointer,
            Interface::Drm => self.drm,
            Interface::Dmabuf => self.dmabuf,
            Interface::XdgOutput => self.xdg_output,
            Interface::PointerConstraints => self.pointer_constraints,
            Interface::Tablet => self.tablet,
            Interface::DrmSyncobj => self.drm_syncobj,
        }
    }

    /// The greatest version of an interface that is understood.
    pub fn of(&self, interface: Interface) -> (version: u32)
        ensures
            version == self.at(interface),
    {
        match interface {
            Interface::Compositor => self.compositor,
            Interface::Shm => self.shm,
            Interface::Seat => self.seat,
            Interface::Output => self.output,
            Interface::RelativePointer => self.relative_pointer,
            Interface::Drm => self.drm,
            Interface::Dmabuf => self.dmabuf,
            Interface::XdgOutput => self.xdg_output,
            Interface::PointerConstraints => self.pointer_constraints,
            Interface::Tablet => self.tablet,
            Interface::DrmSyncobj => self.drm_syncobj,
        }
    }
}

/// An output of which nothing has been said yet.
pub open spec fn fresh_output(global: u32) -> Parts {
    Parts {
        output: true,
        global: Some(global),
        output_scale: Some(OutputScaleFactor::Output(1)),
        output_dims: Some(
            OutputDimensions {
                source: OutputDimensionsSource::Wl,
                x: 0,
                y: 0,
                width: 0,
                height: 0,
                rotated_90: false,
            },
        ),
        ..Parts::nothing()
    }
}

impl InnerServerState {
    /// Takes note of a global of the compositor. Returns what is to be offered to the X server: an
    /// interface that it knows, in no later version than is understood.
    pub fn new_global(&mut self, global: &Global, supported: &SupportedVersions) -> (offered: Option<
        GlobalInfo,
    >)
        ensures
            match offered {
                Some(info) => info.interface.protocol_name() == global.interface@ && info.version
                    == (if global.version <= supported.at(info.interface) {
                    global.version
                } else {
                    supported.at(info.interface)
                }) && final(self).globals_map@ == old(self).globals_map@.insert(global.name, info),
                None => (forall|interface: Interface|
                    interface.protocol_name() != global.interface@) && final(self).globals_map@
                    == old(self).globals_map@,
            },
            *final(self) == (InnerServerState {
                globals_map: final(self).globals_map,
                ..*old(self)
            }),
            old(self).wf() ==> final(self).wf(),
            old(self).one_entity_each() ==> final(self).one_entity_each(),
    {
        let interface = match Interface::with_name(global.interface.as_str()) {
            Some(interface) => interface,
            None => return None,
        };
        let understood = supported.of(interface);
        let version = if global.version <= understood {
            global.version
        } else {
            understood
        };
        let info = GlobalInfo { interface, version };
        self.globals_map.insert(global.name, info);
        Some(info)
    }

    /// What becomes of the state when the output bound from a global goes, if there is one.
    pub open spec fn output_gone(self, after: InnerServerState, global: u32) -> bool {
        if exists|output: u64| #[trigger]
            self.parts().contains_key(output) && output::is_output_of(
                self.parts()[output],
                global,
            ) {
            exists|output: u64| #[trigger]
                self.parts().contains_key(output) && output::is_output_of(
                    self.parts()[output],
                    global,
                ) && self.output_removed(after, output)
        } else {
            after == self
        }
    }

    /// Forgets a global that the compositor withdrew: the output that was bound from it, or the
    /// presses on its seats. Returns what was offered to the X server, and nothing if nothing was.
    pub fn remove_global(&mut self, global: u32) -> (removed: Option<GlobalInfo>)
        ensures
            match removed {
                Some(info) => {
                    &&& old(self).globals_map@.contains_key(global)
                    &&& old(self).globals_map@[global] == info
                    &&& final(self).globals_map@ == old(self).globals_map@.remove(global)
                    &&& match info.interface {
                        Interface::Output => exists|shrunk: InnerServerState| #[trigger]
                            shrunk.output_gone(*final(self), global) && shrunk
                                == (InnerServerState {
                                globals_map: final(self).globals_map,
                                ..*old(self)
                            }),
                        Interface::Seat => final(self).parts() == pointer::invalidated_for_global(
                            old(self).parts(),
                            global,
                        ) && *final(self) == (InnerServerState {
                            world: final(self).world,
                            globals_map: final(self).globals_map,
                            ..*old(self)
                        }),
                        _ => *final(self) == (InnerServerState {
                            globals_map: final(self).globals_map,
                            ..*old(self)
                        }),
                    }
                },
                None => !old(self).globals_map@.contains_key(global) && final(self).globals_map@
                    == old(self).globals_map@ && *final(self) == (InnerServerState {
                    globals_map: final(self).globals_map,
                    ..*old(self)
                }),
            },
            final(self).names() == old(self).names(),
            old(self).wf() ==> final(self).wf(),
            old(self).one_entity_each() ==> final(self).one_entity_each(),
    {
        let info = match self.globals_map.remove(&global) {
            Some(info) => info,
            None => return None,
        };
        let ghost shrunk = *self;
        match info.interface {
            Interface::Output => {
                self.remove_output(global);
                assert(shrunk.output_gone(*self, global));
            },
            Interface::Seat => {
                invalidate_move_candidates_for_seat_global(&mut self.world, global);
            },
            _ => {},
        }
        Some(info)
    }

    /// Takes note of an output that the X server bound.
    pub fn bind_output(&mut self, global: u32) -> (entity: u64)
        requires
            old(self).has_room(),
        ensures
            !old(self).parts().contains_key(entity),
            final(self).parts() == old(self).parts().insert(entity, fresh_output(global)),
            final(self).names() == old(self).names(),
            final(self).updated_outputs@ == old(self).updated_outputs@.push(entity),
            *final(self) == (InnerServerState {
                world: final(self).world,
                updated_outputs: final(self).updated_outputs,
                ..*old(self)
            }),
            old(self).wf() ==> final(self).wf(),
            old(self).one_entity_each() ==> final(self).one_entity_each(),
    {
        let mut parts = Parts::empty();
        parts.output = true;
        parts.global = Some(global);
        parts.output_scale = Some(OutputScaleFactor::Output(1));
        parts.output_dims = Some(
            OutputDimensions {
                source: OutputDimensionsSource::Wl,
                x: 0,
                y: 0,
                width: 0,
                height: 0,
                rotated_90: false,
            },
        );
        let entity = world::spawn(&mut self.world, parts);
        self.updated_outputs.push(entity);
        entity
    }

    /// Takes note of a seat that the X server bound.
    pub fn bind_seat(&mut self, global: u32, seat: u64) -> (entity: u64)
        requires
            old(self).has_room(),
        ensures
            !old(self).parts().contains_key(entity),
            final(self).parts() == old(self).parts().insert(
                entity,
                Parts {
                    global: Some(global),
                    seat: Some(Handle { id: seat, alive: true }),
                    ..Parts::nothing()
                },
            ),
            old(self).only_parts_changed(*final(self)),
            old(self).wf() ==> final(self).wf(),
            old(self).one_entity_each() ==> final(self).one_entity_each(),
    {
        let mut parts = Parts::empty();
        parts.global = Some(global);
        parts.seat = Some(Handle { id: seat, alive: true });
        world::spawn(&mut self.world, parts)
    }

    /// Takes note of the logical geometry of an output that the X server asked for. Returns
    /// whether there is such an output.
    pub fn bind_xdg_output(&mut self, entity: u64) -> (exists_: bool)
        ensures
            exists_ == old(self).parts().contains_key(entity),
            final(self).parts() == (if exists_ {
                old(self).parts().insert(
                    entity,
                    Parts { xdg_output: true, ..old(self).parts()[entity] },
                )
            } else {
                old(self).parts()
            }),
            old(self).only_parts_changed(*final(self)),
            old(self).wf() ==> final(self).wf(),
            old(self).one_entity_each() ==> final(self).one_entity_each(),
    {
        match self.parts_of(entity) {
            Some(parts) => self.set_parts(entity, Parts { xdg_output: true, ..parts }),
            None => false,
        }
    }

    /// Takes note of the pointer of a seat that the X server asked for. Returns whether there is
    /// such a seat.
    pub fn get_pointer(&mut self, entity: u64, pointer: u64) -> (exists_: bool)
        ensures
            exists_ == old(self).parts().contains_key(entity),
            final(self).parts() == (if exists_ {
                old(self).parts().insert(
                    entity,
                    Parts {
                        pointer: Some(Handle { id: pointer, alive: true }),
                        server_pointer: true,
                        ..old(self).parts()[entity]
                    },
                )
            } else {
                old(self).parts()
            }),
            old(self).only_parts_changed(*final(self)),
            old(self).wf() ==> final(self).wf(),
            old(self).one_entity_each() ==> final(self).one_entity_each(),
    {
        match self.parts_of(entity) {
            Some(parts) => self.set_parts(
                entity,
                Parts {
                    pointer: Some(Handle { id: pointer, alive: true }),
                    server_pointer: true,
                    ..parts
                },
            ),
            None => false,
        }
    }

    /// Forgets the pointer of a seat that the X server no longer wants. Returns the pointer to
    /// release.
    pub fn release_pointer(&mut self, entity: u64) -> (released: Option<Handle>)
        ensures
            released == (if old(self).parts().contains_key(entity) {
                old(self).parts()[entity].pointer
            } else {
                None
            }),
            final(self).parts() == (if old(self).parts().contains_key(entity) {
                old(self).parts().insert(
                    entity,
                    Parts { pointer: None, server_pointer: false, ..old(self).parts()[entity] },
                )
            } else {
                old(self).parts()
            }),
            old(self).only_parts_changed(*final(self)),
            old(self).wf() ==> final(self).wf(),
            old(self).one_entity_each() ==> final(self).one_entity_each(),
    {
        match self.parts_of(entity) {
            Some(parts) => {
                self.set_parts(entity, Parts { pointer: None, server_pointer: false, ..parts });
                parts.pointer
            },
            None => None,
        }
    }

    /// Takes note of the cursor that the X server wants on a pointer, so that it can be set again.
    /// Returns whether there is such a pointer.
    pub fn set_cursor(&mut self, entity: u64, cursor: ForwardedPointerCursor) -> (known: bool)
        ensures
            known == (old(self).parts().contains_key(entity) && old(self).parts()[entity].pointer
                is Some),
            final(self).parts() == (if known {
                old(self).parts().insert(
                    entity,
                    Parts { forwarded_cursor: Some(cursor), ..old(self).parts()[entity] },
                )
            } else {
                old(self).parts()
            }),
            old(self).only_parts_changed(*final(self)),
            old(self).wf() ==> final(self).wf(),
            old(self).one_entity_each() ==> final(self).one_entity_each(),
    {
        match self.parts_of(entity) {
            Some(parts) => {
                if parts.pointer.is_none() {
                    return false;
                }
                self.set_parts(entity, Parts { forwarded_cursor: Some(cursor), ..parts })
            },
            None => false,
        }
    }
}

/// Each interface is offered at its own version.
pub proof fn law_versions_are_per_interface(versions: SupportedVersions)
    ensures
        versions.at(Interface::Compositor) == versions.compositor,
        versions.at(Interface::Shm) == versions.shm,
        versions.at(Interface::Seat) == versions.seat,
        versions.at(Interface::Output) == versions.output,
        versions.at(Interface::RelativePointer) == versions.relative_pointer,
        versions.at(Interface::Drm) == versions.drm,
        versions.at(Interface::Dmabuf) == versions.dmabuf,
        versions.at(Interface::XdgOutput) == versions.xdg_output,
        versions.at(Interface::PointerConstraints) == versions.pointer_constraints,
        versions.at(Interface::Tablet) == versions.tablet,
        versions.at(Interface::DrmSyncobj) == versions.drm_syncobj,
{
}

/// A new output is at the origin, at scale one, without a size, and known by its global.
pub proof fn law_new_output(global: u32)
    ensures
        ({
            let p = fresh_output(global);
            &&& p.output && !p.xdg_output
            &&& p.global == Some(global)
            &&& p.output_scale is Some && p.output_scale->0.in_120ths() == 120
            &&& p.output_dims is Some && p.output_dims->0.x == 0 && p.output_dims->0.y == 0
            &&& p.output_dims->0.width == 0 && p.output_dims->0.height == 0
            &&& !p.output_dims->0.rotated_90
            &&& p.window is None && p.data is None && p.role is None && !p.surface
        }),
{
}

/// An output whose global is gone is forgotten: one that was bound from it, if there is one.
pub proof fn law_output_goes_with_its_global(
    before: InnerServerState,
    after: InnerServerState,
    global: u32,
)
    requires
        before.output_gone(after, global),
    ensures
        (exists|output: u64| #[trigger]
            before.parts().contains_key(output) && before.parts()[output].output
                && before.parts()[output].global == Some(global)) ==> exists|output: u64| #[trigger]
            before.parts().contains_key(output) && before.parts()[output].output
                && before.parts()[output].global == Some(global)
                && after.parts()[output].output_dims is None
                && after.parts()[output].output_scale is None,
        (forall|output: u64| #[trigger]
            before.parts().contains_key(output) ==> !(before.parts()[output].output
                && before.parts()[output].global == Some(global))) ==> after == before,
{
    if exists|output: u64| #[trigger]
        before.parts().contains_key(output) && output::is_output_of(
            before.parts()[output],
            global,
        ) {
        let output = choose|output: u64| #[trigger]
            before.parts().contains_key(output) && output::is_output_of(
                before.parts()[output],
                global,
            ) && before.output_removed(after, output);
        output::law_gone_output_is_forgotten(before, after, output, output);
        assert(before.parts().contains_key(output));
    }
}

} // verus!
