//! The state that all handlers work on.

use vstd::prelude::*;
use std::collections::{HashMap, HashSet};
use crate::output::SurfaceScaleFactor;
use crate::world;
use crate::world::{Names, Parts};

verus! {

/// An interface of the compositor that is offered to the X server.
#[derive(Clone, Copy, Debug, PartialEq, Eq, Structural)]
pub enum Interface {
    Compositor,
    Shm,
    Seat,
    Output,
    RelativePointer,
    Drm,
    Dmabuf,
    XdgOutput,
    PointerConstraints,
    Tablet,
    DrmSyncobj,
}

/// A compositor global that is offered to the X server.
#[derive(Clone, Copy, Debug, PartialEq, Eq, Structural)]
pub struct GlobalInfo {
    pub interface: Interface,
    pub version: u32,
}

/// The window to focus next, and the output that it is on.
#[derive(Clone, Copy, Debug, PartialEq, Eq, Structural)]
pub struct FocusData {
    pub window: u32,
    pub output: Option<u64>,
}

/// The seat and the serial of a keyboard event.
#[derive(Clone, Copy, Debug, PartialEq, Eq, Structural)]
pub struct KeyboardSerial {
    pub seat: u64,
    pub serial: u32,
}

/// The least coordinate of any output on one axis, and the output that has it.
#[derive(Clone, Copy, Debug, PartialEq, Eq, Structural)]
pub struct GlobalOutputOffsetDimension {
    pub owner: Option<u64>,
    pub value: i32,
}

/// The corner that all output positions are counted from.
#[derive(Clone, Copy, Debug, PartialEq, Eq, Structural)]
pub struct GlobalOutputOffset {
    pub x: GlobalOutputOffsetDimension,
    pub y: GlobalOutputOffsetDimension,
}

/// A token that a window waits to be activated with.
#[derive(Debug)]
pub struct PendingActivation {
    pub window: u32,
    pub token: String,
}

/// Everything that is known of the two sides.
pub struct InnerServerState {
    pub world: hecs::World,
    /// The entity of each X11 window.
    pub windows: HashMap<u32, u64>,
    /// The processes whose environment has been read.
    pub pids: HashSet<u32>,
    /// The globals that are offered, by name.
    pub globals_map: HashMap<u32, GlobalInfo>,
    pub last_focused_toplevel: Option<u32>,
    pub last_hovered: Option<u32>,
    pub last_kb_serial: Option<KeyboardSerial>,
    pub to_focus: Option<FocusData>,
    pub unfocus: bool,
    pub global_output_offset: GlobalOutputOffset,
    pub global_offset_updated: bool,
    pub updated_outputs: Vec<u64>,
    /// A scale that the X server is yet to be told.
    pub new_scale: Option<SurfaceScaleFactor>,
    /// The scale that the X server was last told.
    pub published_x11_scale: SurfaceScaleFactor,
    /// The compositor can activate windows.
    pub activation_state: bool,
    /// The compositor tells surfaces fractional scales.
    pub fractional_scale: bool,
    /// The compositor can decorate windows.
    pub decoration_manager: bool,
    pub xdg_wm_base_version: u32,
    pub pending_activations: Vec<PendingActivation>,
}

/// The optional protocols of a compositor.
#[derive(Clone, Copy, Debug, PartialEq, Eq, Structural)]
pub struct CompositorFeatures {
    pub activation: bool,
    pub fractional_scale: bool,
    pub decoration_manager: bool,
    pub xdg_wm_base_version: u32,
}

impl InnerServerState {
    /// The parts of each entity.
    pub open spec fn parts(self) -> Map<u64, Parts> {
        world::world_parts(self.world)
    }

    /// The texts of each entity.
    pub open spec fn names(self) -> Map<u64, Names> {
        world::world_names(self.world)
    }

    /// Whether one more entity can be added.
    pub open spec fn has_room(self) -> bool {
        world::has_room(self.parts())
    }

    /// The entity of a window, if there is one and it still exists.
    pub open spec fn entity_of(self, window: u32) -> Option<u64> {
        if self.windows@.contains_key(window) && self.parts().contains_key(self.windows@[window]) {
            Some(self.windows@[window])
        } else {
            None
        }
    }

    /// The entity of a window whose state is known.
    pub open spec fn known(self, window: u32) -> Option<u64> {
        match self.entity_of(window) {
            Some(entity) if self.parts()[entity].data is Some => Some(entity),
            _ => None,
        }
    }

    /// Every window has an entity, which stands for that window and holds its state. A resize in
    /// progress drags edges.
    pub open spec fn wf(self) -> bool {
        &&& forall|window: u32| #[trigger]
            self.windows@.contains_key(window) ==> self.parts().contains_key(self.windows@[window])
                && self.parts()[self.windows@[window]].window == Some(window)
                && self.parts()[self.windows@[window]].data is Some
        &&& forall|entity: u64| #[trigger]
            self.parts().contains_key(entity) && self.parts()[entity].data is Some
                ==> self.parts()[entity].data->0.wf()
    }

    /// Whether also no entity stands for a window that leads to another one, so that each window
    /// has one entity. This holds until a window is announced a second time.
    pub open spec fn one_entity_each(self) -> bool {
        &&& self.wf()
        &&& forall|entity: u64| #[trigger]
            self.parts().contains_key(entity) && self.parts()[entity].window is Some
                ==> self.windows@.contains_key(self.parts()[entity].window->0)
                && self.windows@[self.parts()[entity].window->0] == entity
    }

    /// The state before anything is known.
    pub fn new(features: CompositorFeatures) -> (state: InnerServerState)
        ensures
            state.wf(),
            state.one_entity_each(),
            state.parts().dom() == Set::<u64>::empty(),
            state.names().dom() == Set::<u64>::empty(),
            state.windows@ == Map::<u32, u64>::empty(),
            state.pids@ == Set::<u32>::empty(),
            state.globals_map@ == Map::<u32, GlobalInfo>::empty(),
            state.last_focused_toplevel is None,
            state.last_hovered is None,
            state.last_kb_serial is None,
            state.to_focus is None,
            !state.unfocus,
            state.global_output_offset == (GlobalOutputOffset {
                x: GlobalOutputOffsetDimension { owner: None, value: 0 },
                y: GlobalOutputOffsetDimension { owner: None, value: 0 },
            }),
            !state.global_offset_updated,
            state.updated_outputs@ == Seq::<u64>::empty(),
            state.new_scale is None,
            state.published_x11_scale.n120 == 120,
            state.activation_state == features.activation,
            state.fractional_scale == features.fractional_scale,
            state.decoration_manager == features.decoration_manager,
            state.xdg_wm_base_version == features.xdg_wm_base_version,
            state.pending_activations@ == Seq::<PendingActivation>::empty(),
    {
        InnerServerState {
            world: world::new_world(),
            windows: HashMap::new(),
            pids: HashSet::new(),
            globals_map: HashMap::new(),
            last_focused_toplevel: None,
            last_hovered: None,
            last_kb_serial: None,
            to_focus: None,
            unfocus: false,
            global_output_offset: GlobalOutputOffset {
                x: GlobalOutputOffsetDimension { owner: None, value: 0 },
                y: GlobalOutputOffsetDimension { owner: None, value: 0 },
            },
            global_offset_updated: false,
            updated_outputs: Vec::new(),
            new_scale: None,
            published_x11_scale: SurfaceScaleFactor::unit(),
            activation_state: features.activation,
            fractional_scale: features.fractional_scale,
            decoration_manager: features.decoration_manager,
            xdg_wm_base_version: features.xdg_wm_base_version,
            pending_activations: Vec::new(),
        }
    }

    /// Whether one more entity can be added.
    pub fn room_left(&self) -> (r: bool)
        ensures
            r == self.has_room(),
    {
        let entities = world::entities(&self.world);
        proof {
            assert(entities@.to_set() =~= self.parts().dom());
            entities@.unique_seq_to_set();
            vstd::seq_lib::seq_to_set_is_finite(entities@);
        }
        entities.len() < u32::MAX as usize
    }

    /// Adds an entity with the given parts.
    pub fn spawn(&mut self, parts: Parts) -> (entity: u64)
        requires
            old(self).has_room(),
        ensures
            !old(self).parts().contains_key(entity),
            final(self).parts() == old(self).parts().insert(entity, parts),
            final(self).names() == old(self).names(),
            *final(self) == (InnerServerState { world: final(self).world, ..*old(self) }),
            old(self).wf() && (parts.data matches Some(data) ==> data.wf()) ==> final(self).wf(),
            old(self).one_entity_each() && parts.window is None && (parts.data matches Some(data)
                ==> data.wf()) ==> final(self).one_entity_each(),
    {
        world::spawn(&mut self.world, parts)
    }

    /// What is known of an entity.
    pub fn parts_of(&self, entity: u64) -> (parts: Option<Parts>)
        ensures
            parts == world::at(self.parts(), entity),
    {
        world::get(&self.world, entity)
    }

    /// Replaces what is known of an entity. Returns whether the entity exists.
    pub fn set_parts(&mut self, entity: u64, parts: Parts) -> (exists_: bool)
        ensures
            exists_ == old(self).parts().contains_key(entity),
            final(self).parts() == (if exists_ {
                old(self).parts().insert(entity, parts)
            } else {
                old(self).parts()
            }),
            final(self).names() == old(self).names(),
            *final(self) == (InnerServerState { world: final(self).world, ..*old(self) }),
    {
        if world::get(&self.world, entity).is_none() {
            return false;
        }
        world::set(&mut self.world, entity, parts);
        true
    }

    /// The entity of a window and what is known of it.
    pub fn lookup(&self, window: u32) -> (found: Option<(u64, Parts)>)
        ensures
            match found {
                Some((entity, parts)) => self.entity_of(window) == Some(entity)
                    && self.parts()[entity] == parts,
                None => self.entity_of(window) is None,
            },
    {
        match self.windows.get(&window) {
            Some(entity) => match world::get(&self.world, *entity) {
                Some(parts) => Some((*entity, parts)),
                None => None,
            },
            None => None,
        }
    }
}

} // verus!
