//! Giving windows their toplevels and popups, and taking them away again.

use vstd::prelude::*;
use crate::decoration;
use crate::decoration::DecorationsDataSatellite;
use crate::geometry;
use crate::geometry::{sub_i16, WindowDims};
use crate::output::SurfaceScaleFactor;
use crate::role::{
    DecorationsData, PopupData, SurfaceRole, ToplevelCapabilities, ToplevelData, XdgSurfaceData,
};
use crate::state::{InnerServerState, KeyboardSerial};
use crate::window;
use crate::window::{wants_serverside_decorations, WindowAttributes, WindowData};
use crate::windows;
use crate::windows::{decoration_mode, DecorationMode, SizeHints};
use crate::world;
use crate::world::Parts;

verus! {

/// How a new toplevel is set up.
#[derive(Debug)]
pub struct ToplevelPlan {
    pub entity: u64,
    pub app_id: Option<String>,
    pub title: Option<String>,
    pub fullscreen: bool,
    /// The mode to ask the compositor's decoration manager for, if there is one.
    pub decoration_mode: Option<DecorationMode>,
    /// Decorations have to be drawn here.
    pub satellite: bool,
    /// The token to activate the new surface with.
    pub activation_token: Option<String>,
    /// The entity whose toplevel is the parent.
    pub parent: Option<u64>,
    pub size_hints: Option<SizeHints>,
}

/// How a new popup is placed. Lengths are divided by the scale first, and a size is at least one.
#[derive(Clone, Copy, Debug, PartialEq, Eq, Structural)]
pub struct PopupPlan {
    pub entity: u64,
    /// The entity whose surface is the parent.
    pub parent: u64,
    /// The offset from the parent's corner.
    pub x: i16,
    pub y: i16,
    pub width: u16,
    pub height: u16,
    pub anchor_width: u16,
    pub anchor_height: u16,
    pub scale: SurfaceScaleFactor,
}

/// A role to be given to a surface.
#[derive(Debug)]
pub enum RolePlan {
    Toplevel(ToplevelPlan),
    Popup(PopupPlan),
}

/// A token to be asked for, with which a window will be activated.
#[derive(Debug)]
pub struct ActivationRequest {
    pub app_id: Option<String>,
    pub seat_and_serial: Option<KeyboardSerial>,
    /// The entity of the surface that is focused now.
    pub surface: u64,
}

/// A role that a surface was given.
#[derive(Debug)]
pub struct RoleCreated {
    pub plan: RolePlan,
    pub activation: Option<ActivationRequest>,
}

/// Copies of the texts of an entity.
struct NameCopies {
    title: Option<String>,
    class: Option<String>,
    token: Option<String>,
}

/// Whether some output has exactly the size of a window.
pub open spec fn fills_an_output(parts: Map<u64, Parts>, dims: WindowDims) -> bool {
    exists|entity: u64| #[trigger]
        parts.contains_key(entity) && has_size(parts[entity], dims)
}

/// Whether an entity is an output with exactly the size of a window.
pub open spec fn has_size(parts: Parts, dims: WindowDims) -> bool {
    parts.output_dims matches Some(d) && d.width == dims.width && d.height == dims.height
}

/// An `xdg_surface` that was just created.
pub open spec fn fresh_xdg() -> XdgSurfaceData {
    XdgSurfaceData { configured: false, pending: None }
}

impl InnerServerState {
    /// The window that a popup belongs to: the one that the pointer is on, or else the one that is
    /// focused.
    pub open spec fn popup_for(self) -> Option<u32> {
        if self.last_hovered is Some {
            self.last_hovered
        } else {
            self.last_focused_toplevel
        }
    }

    /// Whether a window has a surface that popups can be placed on.
    pub open spec fn can_parent(self, window: u32) -> bool {
        &&& self.known(window) matches Some(entity)
        &&& self.parts()[entity].scale is Some
        &&& self.parts()[entity].role matches Some(role)
        &&& role.xdg_surface() is Some
    }

    /// Whether popups can be placed: the window that they belong to has a surface.
    pub open spec fn popups_can_be_placed(self) -> bool {
        self.popup_for() matches Some(window) ==> self.can_parent(window)
    }

    /// Whether an entity's window can be given its role at the given size: to become a popup it
    /// needs a window that popups can be placed on.
    pub open spec fn role_has_place(self, entity: u64, dims: WindowDims) -> bool {
        self.parts()[entity].data->0.attrs.is_popup && !fills_an_output(self.parts(), dims)
            ==> self.popups_can_be_placed()
    }

    /// The window that this one becomes a popup of. A window as large as an output is always a
    /// toplevel.
    pub open spec fn role_parent(self, data: WindowData) -> Option<u32> {
        if data.attrs.is_popup && !fills_an_output(self.parts(), data.attrs.dims) {
            self.popup_for()
        } else {
            None
        }
    }

    /// The decorations that are drawn here for a new toplevel.
    pub open spec fn fresh_satellite(self, entity: u64, pool: bool) -> Option<
        DecorationsDataSatellite,
    > {
        let p = self.parts()[entity];
        let (resizable, resize_input_enabled) = decoration::resize_state(p);
        if !self.decoration_manager && window::wants_serverside(p.data->0.attrs.decorations)
            && pool {
            Some(
                DecorationsDataSatellite {
                    focused: self.last_focused_toplevel == p.window,
                    ..DecorationsDataSatellite::fresh(true, resizable, resize_input_enabled)
                },
            )
        } else {
            None
        }
    }

    /// A toplevel that was just created.
    pub open spec fn fresh_toplevel(self, entity: u64, pool: bool) -> ToplevelData {
        ToplevelData {
            xdg: fresh_xdg(),
            fullscreen: false,
            maximized: false,
            tiled: false,
            minimized: false,
            capabilities: (ToplevelCapabilities { maximize: true, minimize: true }),
            decoration: (DecorationsData {
                wl: self.decoration_manager,
                satellite: self.fresh_satellite(entity, pool),
            }),
        }
    }

    /// The entity of the window group's leader.
    pub open spec fn group_of(self, entity: u64) -> Option<u64> {
        match self.parts()[entity].data->0.attrs.group {
            Some(group) => self.known(group),
            None => None,
        }
    }

    /// The toplevel that the window of an entity is transient for.
    pub open spec fn transient_parent(self, entity: u64) -> Option<u64> {
        match self.parts()[entity].data->0.attrs.transient_for {
            Some(parent) if self.window_toplevel(parent) is Some => self.entity_of(parent),
            _ => None,
        }
    }

    /// Whether a plan sets up the toplevel of an entity as it should be: named like the window or
    /// else like its group, decorated by whoever does, and with its size limits.
    pub open spec fn is_toplevel_plan(
        self,
        plan: ToplevelPlan,
        entity: u64,
        pool: bool,
        fullscreen: bool,
    ) -> bool {
        let attrs = self.parts()[entity].data->0.attrs;
        let group = self.group_of(entity);
        let satellite = self.fresh_satellite(entity, pool);
        &&& plan.entity == entity
        &&& plan.fullscreen == fullscreen
        &&& windows::text_of(plan.app_id) == (if windows::class_of(self.names(), entity) is None
            && group is Some {
            windows::text_of(windows::class_of(self.names(), group->0))
        } else {
            windows::text_of(windows::class_of(self.names(), entity))
        })
        &&& windows::text_of(plan.title) == (if windows::title_of(self.names(), entity) is None
            && group is Some {
            windows::title_text(windows::title_of(self.names(), group->0))
        } else {
            windows::title_text(windows::title_of(self.names(), entity))
        })
        &&& plan.decoration_mode == (if self.decoration_manager {
            Some(
                match attrs.decorations {
                    Some(decorations) => windows::mode_of(decorations),
                    None => DecorationMode::ServerSide,
                },
            )
        } else {
            None
        })
        &&& plan.satellite == (satellite is Some)
        &&& windows::text_of(plan.activation_token) == (if self.activation_state {
            windows::text_of(windows::token_of(self.names(), entity))
        } else {
            None
        })
        &&& plan.parent == self.transient_parent(entity)
        &&& plan.size_hints == (match attrs.size_hints {
            Some(hints) => Some(
                SizeHints {
                    hints,
                    x11_scale: attrs.hints_x11_scale,
                    decorations_height: decoration::height_of(satellite),
                },
            ),
            None => None,
        })
    }

    /// The plan of a popup on the window `parent`.
    pub open spec fn popup_plan(self, entity: u64, parent: u32) -> PopupPlan {
        let own = self.parts()[entity].data->0.attrs.dims;
        let parent_entity = self.known(parent)->0;
        let under = self.parts()[parent_entity].data->0.attrs.dims;
        PopupPlan {
            entity,
            parent: parent_entity,
            x: geometry::low_i16(own.x - under.x) as i16,
            y: geometry::low_i16(own.y - under.y) as i16,
            width: own.width,
            height: own.height,
            anchor_width: under.width,
            anchor_height: under.height,
            scale: self.parts()[parent_entity].scale->0,
        }
    }

    /// Whether a plan gives an entity the role that it should have.
    pub open spec fn is_role_plan(self, plan: RolePlan, entity: u64, pool: bool) -> bool {
        let data = self.parts()[entity].data->0;
        match (self.role_parent(data), plan) {
            (Some(parent), RolePlan::Popup(popup)) => popup == self.popup_plan(entity, parent),
            (None, RolePlan::Toplevel(toplevel)) => self.is_toplevel_plan(
                toplevel,
                entity,
                pool,
                fills_an_output(self.parts(), data.attrs.dims),
            ),
            _ => false,
        }
    }

    /// An entity once it has its role.
    pub open spec fn with_role(self, entity: u64, pool: bool) -> Parts {
        let p = self.parts()[entity];
        match self.role_parent(p.data->0) {
            Some(parent) => Parts {
                role: Some(SurfaceRole::Popup(Some(PopupData { xdg: fresh_xdg() }))),
                scale: self.parts()[self.known(parent)->0].scale,
                ..p
            },
            None => Parts {
                role: Some(SurfaceRole::Toplevel(Some(self.fresh_toplevel(entity, pool)))),
                ..p
            },
        }
    }

    /// Whether an entity that has a role can be given the one that it should have: a role never
    /// changes its kind.
    pub open spec fn role_kind_fits(self, entity: u64) -> bool {
        self.parts()[entity].role matches Some(role) ==> (role is Popup) == (self.role_parent(
            self.parts()[entity].data->0,
        ) is Some)
    }

    /// Whether a request asks for the token that activates a window: there is one if the
    /// compositor can activate and a focused window with a surface is known.
    pub open spec fn is_activation_request(self, request: Option<ActivationRequest>) -> bool {
        let focused = match self.last_focused_toplevel {
            Some(window) => self.entity_of(window),
            None => None,
        };
        if self.activation_state && focused is Some && self.parts()[focused->0].surface {
            &&& request matches Some(request)
            &&& windows::text_of(request.app_id) == windows::text_of(
                windows::class_of(self.names(), focused->0),
            )
            &&& request.seat_and_serial == self.last_kb_serial
            &&& request.surface == focused->0
        } else {
            request is None
        }
    }

    /// Whether a role was created for an entity: it has the role, the plan says how, and a
    /// toplevel asks to be activated.
    pub open spec fn role_created(
        self,
        after: InnerServerState,
        created: RoleCreated,
        entity: u64,
        pool: bool,
    ) -> bool {
        &&& self.is_role_plan(created.plan, entity, pool)
        &&& after.parts() == self.parts().insert(entity, self.with_role(entity, pool))
        &&& if created.plan is Toplevel {
            after.is_activation_request(created.activation)
        } else {
            created.activation is None
        }
        &&& self.only_parts_changed(after)
    }

    /// Copies the texts of an entity.
    fn copy_names(&mut self, entity: u64) -> (copies: NameCopies)
        requires
            old(self).parts().contains_key(entity),
        ensures
            windows::text_of(copies.title) == windows::title_text(
                windows::title_of(old(self).names(), entity),
            ),
            windows::text_of(copies.class) == windows::text_of(
                windows::class_of(old(self).names(), entity),
            ),
            windows::text_of(copies.token) == windows::text_of(
                windows::token_of(old(self).names(), entity),
            ),
            final(self).parts() == old(self).parts(),
            old(self).only_parts_changed(*final(self)),
    {
        match world::take_names(&mut self.world, entity) {
            Some(names) => {
                let title = match &names.title {
                    Some(title) => Some(title.name().to_owned()),
                    None => None,
                };
                let class = match &names.class {
                    Some(class) => Some(class.clone()),
                    None => None,
                };
                let token = match &names.activation_token {
                    Some(token) => Some(token.clone()),
                    None => None,
                };
                world::set_names(&mut self.world, entity, names);
                assert(self.names() =~= old(self).names());
                NameCopies { title, class, token }
            },
            None => {
                assert(self.names() =~= old(self).names());
                NameCopies { title: None, class: None, token: None }
            },
        }
    }

    /// Whether some output has exactly the size of a window.
    fn fills_output(&self, dims: WindowDims) -> (fills: bool)
        ensures
            fills == fills_an_output(self.parts(), dims),
    {
        let entities = world::entities(&self.world);
        let mut i: usize = 0;
        while i < entities.len()
            invariant
                i <= entities.len(),
                forall|e: u64| entities@.contains(e) <==> self.parts().contains_key(e),
                forall|k: int|
                    0 <= k < i ==> !has_size(self.parts()[#[trigger] entities@[k]], dims),
            decreases entities.len() - i,
        {
            assert(entities@.contains(entities@[i as int]));
            if let Some(parts) = world::get(&self.world, entities[i]) {
                if let Some(d) = parts.output_dims {
                    if d.width == dims.width as i32 && d.height == dims.height as i32 {
                        assert(self.parts().contains_key(entities@[i as int]));
                        return true;
                    }
                }
            }
            i += 1;
        }
        proof {
            assert forall|e: u64| #[trigger] self.parts().contains_key(e) implies !has_size(
                self.parts()[e],
                dims,
            ) by {
                assert(entities@.contains(e));
            }
        }
        false
    }

    /// The window that this one becomes a popup of.
    pub(crate) fn parent_for(&self, data: &WindowData) -> (parent: Option<u32>)
        ensures
            parent == self.role_parent(*data),
    {
        if !data.attrs.is_popup || self.fills_output(data.attrs.dims) {
            return None;
        }
        match self.last_hovered {
            Some(window) => Some(window),
            None => self.last_focused_toplevel,
        }
    }

    /// Whether a window has a surface that popups can be placed on.
    fn parents_popups(&self, window: u32) -> (r: bool)
        ensures
            r == self.can_parent(window),
    {
        match self.lookup_data(window) {
            Some((_, parts, _)) => match (parts.role, parts.scale) {
                (Some(role), Some(_)) => role.xdg().is_some(),
                _ => false,
            },
            None => false,
        }
    }

    /// Whether an entity's window can be given its role at the given size: to become a popup it
    /// needs a window that popups can be placed on.
    pub fn role_finds_place(&self, entity: u64, dims: WindowDims) -> (r: bool)
        requires
            self.parts().contains_key(entity),
            self.parts()[entity].data is Some,
        ensures
            r == self.role_has_place(entity, dims),
    {
        let data = world::get(&self.world, entity).unwrap().data.unwrap();
        let sized = WindowData { attrs: WindowAttributes { dims, ..data.attrs }, ..data };
        match self.parent_for(&sized) {
            Some(parent) => self.parents_popups(parent),
            None => true,
        }
    }

    /// Works out how the toplevel of an entity is set up.
    fn plan_toplevel(&mut self, entity: u64, data: WindowData, pool: bool, fullscreen: bool) -> (plan:
        ToplevelPlan)
        requires
            old(self).parts().contains_key(entity),
            old(self).parts()[entity].data == Some(data),
        ensures
            old(self).is_toplevel_plan(plan, entity, pool, fullscreen),
            final(self).parts() == old(self).parts(),
            old(self).only_parts_changed(*final(self)),
    {
        let own = self.copy_names(entity);
        let mut app_id = own.class;
        let mut title = own.title;
        if let Some(group) = data.attrs.group {
            if let Some((group_entity, _, _)) = self.lookup_data(group) {
                let group_names = self.copy_names(group_entity);
                if app_id.is_none() {
                    app_id = group_names.class;
                }
                if title.is_none() {
                    title = group_names.title;
                }
            }
        }
        let mode = if self.decoration_manager {
            Some(
                match data.attrs.decorations {
                    Some(decorations) => decoration_mode(decorations),
                    None => DecorationMode::ServerSide,
                },
            )
        } else {
            None
        };
        let satellite = !self.decoration_manager && wants_serverside_decorations(
            data.attrs.decorations,
        ) && pool;
        let activation_token = if self.activation_state {
            own.token
        } else {
            None
        };
        let parent = match data.attrs.transient_for {
            Some(parent) => match self.lookup(parent) {
                Some((parent_entity, parts)) => match parts.role {
                    Some(role) => match role.toplevel() {
                        Some(_) => Some(parent_entity),
                        None => None,
                    },
                    None => None,
                },
                None => None,
            },
            None => None,
        };
        let size_hints = match data.attrs.size_hints {
            Some(hints) => Some(
                SizeHints {
                    hints,
                    x11_scale: data.attrs.hints_x11_scale,
                    decorations_height: if satellite {
                        decoration::TITLEBAR_HEIGHT
                    } else {
                        0
                    },
                },
            ),
            None => None,
        };
        ToplevelPlan {
            entity,
            app_id,
            title,
            fullscreen,
            decoration_mode: mode,
            satellite,
            activation_token,
            parent,
            size_hints,
        }
    }

    /// Creates the toplevel of an entity. `pool` tells whether buffers for decorations can be had.
    pub fn create_toplevel(&mut self, entity: u64, pool: bool, fullscreen: bool) -> (plan:
        ToplevelPlan)
        requires
            old(self).parts().contains_key(entity),
            old(self).parts()[entity].data is Some,
        ensures
            old(self).is_toplevel_plan(plan, entity, pool, fullscreen),
            ({
                let names = old(self).names();
                let data = old(self).parts()[entity].data->0;
                let own = names.contains_key(entity);
                let leader = old(self).windows@[data.attrs.group->0];
                let led = data.attrs.group is Some && old(self).windows@.contains_key(
                    data.attrs.group->0,
                ) && old(self).parts().contains_key(leader) && old(self).parts()[leader].data
                    is Some && names.contains_key(leader);
                let titled = own && names[entity].title is Some;
                let classed = own && names[entity].class is Some;
                let parent = old(self).windows@[data.attrs.transient_for->0];
                let has_parent = data.attrs.transient_for is Some && old(
                    self,
                ).windows@.contains_key(data.attrs.transient_for->0) && old(
                    self,
                ).parts().contains_key(parent) && old(self).parts()[parent].role matches Some(
                    SurfaceRole::Toplevel(Some(_)),
                );
                &&& titled ==> (plan.title matches Some(title) && title@
                    == names[entity].title->0.text())
                &&& !titled && led && names[leader].title is Some ==> (plan.title matches Some(title)
                    && title@ == names[leader].title->0.text())
                &&& !titled && !(led && names[leader].title is Some) ==> plan.title is None
                &&& classed ==> (plan.app_id matches Some(app_id) && app_id@
                    == names[entity].class->0@)
                &&& !classed && led && names[leader].class is Some ==> (plan.app_id matches Some(
                    app_id,
                ) && app_id@ == names[leader].class->0@)
                &&& !classed && !(led && names[leader].class is Some) ==> plan.app_id is None
                &&& plan.entity == entity
                &&& plan.fullscreen == fullscreen
                &&& plan.parent is Some <==> has_parent
                &&& has_parent ==> plan.parent == Some(parent)
                &&& plan.decoration_mode is Some <==> old(self).decoration_manager
                &&& plan.decoration_mode == Some(DecorationMode::ClientSide) <==> old(
                    self,
                ).decoration_manager && (data.attrs.decorations matches Some(d) && !d.serverside)
                &&& plan.satellite <==> !old(self).decoration_manager && pool && !(
                data.attrs.decorations matches Some(d) && !d.serverside)
                &&& plan.activation_token is Some <==> old(self).activation_state && own
                    && names[entity].activation_token is Some
                &&& plan.activation_token matches Some(token) ==> token@
                    == names[entity].activation_token->0@
                &&& plan.size_hints is Some <==> data.attrs.size_hints is Some
                &&& plan.size_hints matches Some(limits) ==> {
                    &&& Some(limits.hints) == data.attrs.size_hints
                    &&& limits.x11_scale == data.attrs.hints_x11_scale
                    &&& plan.satellite ==> limits.decorations_height == decoration::TITLEBAR_HEIGHT
                    &&& !plan.satellite ==> limits.decorations_height == 0
                }
            }),
            final(self).parts() == old(self).parts().insert(
                entity,
                Parts {
                    role: Some(
                        SurfaceRole::Toplevel(Some(old(self).fresh_toplevel(entity, pool))),
                    ),
                    ..old(self).parts()[entity]
                },
            ),
            old(self).only_parts_changed(*final(self)),
            final(self).parts()[entity].role matches Some(SurfaceRole::Toplevel(Some(toplevel))) && {
                &&& !toplevel.xdg.configured
                &&& toplevel.xdg.pending is None
                &&& !toplevel.fullscreen && !toplevel.maximized && !toplevel.tiled
                    && !toplevel.minimized
                &&& toplevel.decoration.wl == old(self).decoration_manager
                &&& toplevel.decoration.satellite is Some == plan.satellite
                &&& toplevel.decoration.satellite matches Some(d) ==> d.should_draw && (d.focused
                    <==> old(self).last_focused_toplevel == old(self).parts()[entity].window)
            },
            old(self).wf() ==> final(self).wf(),
            old(self).one_entity_each() ==> final(self).one_entity_each(),
    {
        let parts = world::get(&self.world, entity).unwrap();
        let data = parts.data.unwrap();
        let plan = self.plan_toplevel(entity, data, pool, fullscreen);
        let satellite = if plan.satellite {
            let (resizable, resize_input_enabled) = decoration::parent_resize_state(&parts);
            let mut satellite = DecorationsDataSatellite::new(
                true,
                resizable,
                resize_input_enabled,
            );
            satellite.focused = self.last_focused_toplevel == parts.window;
            Some(satellite)
        } else {
            None
        };
        let toplevel = ToplevelData {
            xdg: XdgSurfaceData { configured: false, pending: None },
            fullscreen: false,
            maximized: false,
            tiled: false,
            minimized: false,
            capabilities: ToplevelCapabilities::all(),
            decoration: DecorationsData { wl: self.decoration_manager, satellite },
        };
        world::set(
            &mut self.world,
            entity,
            Parts { role: Some(SurfaceRole::Toplevel(Some(toplevel))), ..parts },
        );
        plan
    }

    /// Creates the popup of an entity on the window `parent`. The popup starts at its parent's
    /// scale.
    pub fn create_popup(&mut self, entity: u64, parent: u32) -> (plan: PopupPlan)
        requires
            old(self).parts().contains_key(entity),
            old(self).parts()[entity].data is Some,
            old(self).can_parent(parent),
        ensures
            plan == old(self).popup_plan(entity, parent),
            ({
                let own = old(self).parts()[entity].data->0.attrs.dims;
                let under = old(self).parts()[old(self).windows@[parent]].data->0.attrs.dims;
                &&& plan.entity == entity
                &&& plan.parent == old(self).windows@[parent]
                &&& i16::MIN <= own.x - under.x <= i16::MAX ==> plan.x + under.x == own.x
                &&& i16::MIN <= own.y - under.y <= i16::MAX ==> plan.y + under.y == own.y
                &&& plan.width == own.width
                &&& plan.height == own.height
                &&& plan.anchor_width == under.width
                &&& plan.anchor_height == under.height
                &&& Some(plan.scale) == old(self).parts()[old(self).windows@[parent]].scale
                &&& final(self).parts()[entity].scale == Some(plan.scale)
            }),
            final(self).parts() == old(self).parts().insert(
                entity,
                Parts {
                    role: Some(SurfaceRole::Popup(Some(PopupData { xdg: fresh_xdg() }))),
                    scale: old(self).parts()[old(self).known(parent)->0].scale,
                    ..old(self).parts()[entity]
                },
            ),
            old(self).only_parts_changed(*final(self)),
            old(self).wf() ==> final(self).wf(),
            old(self).one_entity_each() ==> final(self).one_entity_each(),
    {
        let parts = world::get(&self.world, entity).unwrap();
        let dims = parts.data.unwrap().attrs.dims;
        let (parent_entity, parent_parts, parent_data) = self.lookup_data(parent).unwrap();
        let parent_dims = parent_data.attrs.dims;
        let scale = parent_parts.scale.unwrap();
        let xdg = XdgSurfaceData { configured: false, pending: None };
        world::set(
            &mut self.world,
            entity,
            Parts {
                role: Some(SurfaceRole::Popup(Some(PopupData { xdg }))),
                scale: Some(scale),
                ..parts
            },
        );
        PopupPlan {
            entity,
            parent: parent_entity,
            x: sub_i16(dims.x, parent_dims.x),
            y: sub_i16(dims.y, parent_dims.y),
            width: dims.width,
            height: dims.height,
            anchor_width: parent_dims.width,
            anchor_height: parent_dims.height,
            scale,
        }
    }

    /// Gives the surface of an entity its role: a popup for a window that is not managed, unless
    /// it is as large as an output; a toplevel for any other.
    pub fn create_role_window(&mut self, entity: u64, pool: bool) -> (plan: RolePlan)
        requires
            old(self).parts().contains_key(entity),
            old(self).parts()[entity].data is Some,
            old(self).role_has_place(entity, old(self).parts()[entity].data->0.attrs.dims),
            old(self).role_kind_fits(entity),
        ensures
            old(self).is_role_plan(plan, entity, pool),
            ({
                let data = old(self).parts()[entity].data->0;
                let whole = exists|e: u64| #[trigger]
                    old(self).parts().contains_key(e) && old(self).parts()[e].output_dims
                        is Some && old(self).parts()[e].output_dims->0.width
                        == data.attrs.dims.width && old(self).parts()[e].output_dims->0.height
                        == data.attrs.dims.height;
                let over = if old(self).last_hovered is Some {
                    old(self).last_hovered
                } else {
                    old(self).last_focused_toplevel
                };
                &&& plan is Popup <==> data.attrs.is_popup && !whole && over is Some
                &&& plan matches RolePlan::Popup(popup) ==> popup.entity == entity && popup.parent
                    == old(self).windows@[over->0]
                &&& plan matches RolePlan::Toplevel(toplevel) ==> toplevel.entity == entity
                    && toplevel.fullscreen == whole
            }),
            final(self).parts() == old(self).parts().insert(
                entity,
                old(self).with_role(entity, pool),
            ),
            old(self).only_parts_changed(*final(self)),
            old(self).wf() ==> final(self).wf(),
            old(self).one_entity_each() ==> final(self).one_entity_each(),
    {
        let parts = world::get(&self.world, entity).unwrap();
        let data = parts.data.unwrap();
        match self.parent_for(&data) {
            Some(parent) => RolePlan::Popup(self.create_popup(entity, parent)),
            None => {
                let fullscreen = self.fills_output(data.attrs.dims);
                RolePlan::Toplevel(self.create_toplevel(entity, pool, fullscreen))
            },
        }
    }

    /// Asks for the token that activates a window, in the name of the window that is focused.
    pub fn activate_window(&mut self) -> (request: Option<ActivationRequest>)
        ensures
            old(self).is_activation_request(request),
            request is Some ==> old(self).activation_state && old(self).last_focused_toplevel is Some
                && old(self).windows@[old(self).last_focused_toplevel->0] == request->0.surface
                && old(self).parts()[request->0.surface].surface,
            request is Some ==> request->0.seat_and_serial == old(self).last_kb_serial,
            old(self).activation_state && (old(self).last_focused_toplevel matches Some(window)
                && old(self).windows@.contains_key(window) && old(self).parts().contains_key(
                old(self).windows@[window],
            ) && old(self).parts()[old(self).windows@[window]].surface) ==> request is Some,
            final(self).parts() == old(self).parts(),
            old(self).only_parts_changed(*final(self)),
            old(self).wf() ==> final(self).wf(),
            old(self).one_entity_each() ==> final(self).one_entity_each(),
    {
        if !self.activation_state {
            return None;
        }
        let last_focused_toplevel = match self.last_focused_toplevel {
            Some(window) => window,
            None => return None,
        };
        let (entity, parts) = match self.lookup(last_focused_toplevel) {
            Some(found) => found,
            None => return None,
        };
        if !parts.surface {
            return None;
        }
        let names = self.copy_names(entity);
        Some(
            ActivationRequest {
                app_id: names.class,
                seat_and_serial: self.last_kb_serial,
                surface: entity,
            },
        )
    }

    /// Gives the surface of an entity its role, and asks for a new toplevel to be activated.
    pub fn create_role_window_and_activate(&mut self, entity: u64, pool: bool) -> (created:
        RoleCreated)
        requires
            old(self).parts().contains_key(entity),
            old(self).parts()[entity].data is Some,
            old(self).role_has_place(entity, old(self).parts()[entity].data->0.attrs.dims),
            old(self).role_kind_fits(entity),
        ensures
            old(self).role_created(*final(self), created, entity, pool),
            old(self).wf() ==> final(self).wf(),
            old(self).one_entity_each() ==> final(self).one_entity_each(),
    {
        let plan = self.create_role_window(entity, pool);
        let activation = match &plan {
            RolePlan::Toplevel(_) => self.activate_window(),
            RolePlan::Popup(_) => None,
        };
        RoleCreated { plan, activation }
    }
}

/// A window's own title and class are those of its toplevel, whether or not it belongs to a group.
/// Only a window without one takes the title or the class of its group's leader.
pub proof fn law_own_names_win(
    state: InnerServerState,
    plan: ToplevelPlan,
    entity: u64,
    pool: bool,
    fullscreen: bool,
)
    requires
        state.is_toplevel_plan(plan, entity, pool, fullscreen),
    ensures
        ({
            let names = state.names();
            let group = state.parts()[entity].data->0.attrs.group;
            let leader = state.windows@[group->0];
            let led = group is Some && state.windows@.contains_key(group->0)
                && state.parts().contains_key(leader) && state.parts()[leader].data is Some
                && names.contains_key(leader);
            let titled = names.contains_key(entity) && names[entity].title is Some;
            let classed = names.contains_key(entity) && names[entity].class is Some;
            &&& titled ==> (plan.title matches Some(title) && title@
                == names[entity].title->0.text())
            &&& classed ==> (plan.app_id matches Some(app_id) && app_id@ == names[entity].class->0@)
            &&& !titled && led && names[leader].title is Some ==> (plan.title matches Some(title)
                && title@ == names[leader].title->0.text())
            &&& !classed && led && names[leader].class is Some ==> (plan.app_id matches Some(app_id)
                && app_id@ == names[leader].class->0@)
            &&& !titled && !led ==> plan.title is None
            &&& !classed && !led ==> plan.app_id is None
        }),
{
}

/// A new toplevel is decorated by exactly one: by the compositor's decoration manager where there
/// is one, by nobody if the window draws its own, and here otherwise, if buffers can be had. Its
/// size limits allow for the title bar only if that is drawn here.
pub proof fn law_new_toplevel_is_decorated_once(
    state: InnerServerState,
    plan: ToplevelPlan,
    entity: u64,
    pool: bool,
    fullscreen: bool,
)
    requires
        state.is_toplevel_plan(plan, entity, pool, fullscreen),
    ensures
        ({
            let attrs = state.parts()[entity].data->0.attrs;
            let own = attrs.decorations matches Some(d) && !d.serverside;
            &&& plan.entity == entity
            &&& plan.fullscreen == fullscreen
            &&& plan.decoration_mode is Some <==> state.decoration_manager
            &&& plan.decoration_mode == Some(DecorationMode::ClientSide)
                <==> state.decoration_manager && own
            &&& plan.satellite <==> !state.decoration_manager && !own && pool
            &&& state.fresh_toplevel(entity, pool).decoration.satellite is Some == plan.satellite
            &&& state.fresh_toplevel(entity, pool).decoration.wl == state.decoration_manager
            &&& plan.size_hints is Some <==> attrs.size_hints is Some
            &&& plan.size_hints matches Some(limits) ==> Some(limits.hints) == attrs.size_hints
                && limits.x11_scale == attrs.hints_x11_scale && limits.decorations_height == (
            if plan.satellite {
                decoration::TITLEBAR_HEIGHT
            } else {
                0
            })
        }),
{
}

/// A toplevel's parent is the toplevel of the window that its own is transient for, and nothing
/// else.
pub proof fn law_toplevel_has_its_parent(
    state: InnerServerState,
    plan: ToplevelPlan,
    entity: u64,
    pool: bool,
    fullscreen: bool,
)
    requires
        state.is_toplevel_plan(plan, entity, pool, fullscreen),
    ensures
        ({
            let over = state.parts()[entity].data->0.attrs.transient_for;
            let parent = state.windows@[over->0];
            &&& plan.parent is Some <==> (over is Some && state.windows@.contains_key(over->0)
                && state.parts().contains_key(parent) && (state.parts()[parent].role matches Some(
                SurfaceRole::Toplevel(Some(_)),
            )))
            &&& plan.parent is Some ==> plan.parent == Some(parent)
        }),
{
}

/// A popup that is placed at its offset from its parent's corner is where the X11 client put it,
/// on either side of that corner, and it has the size that the client gave it.
pub proof fn law_popup_is_where_the_client_put_it(state: InnerServerState, entity: u64, parent: u32)
    requires
        state.can_parent(parent),
    ensures
        ({
            let plan = state.popup_plan(entity, parent);
            let own = state.parts()[entity].data->0.attrs.dims;
            let under = state.parts()[state.windows@[parent]].data->0.attrs.dims;
            &&& plan.entity == entity
            &&& plan.parent == state.windows@[parent]
            &&& i16::MIN <= own.x - under.x <= i16::MAX ==> plan.x + under.x == own.x
            &&& i16::MIN <= own.y - under.y <= i16::MAX ==> plan.y + under.y == own.y
            &&& (plan.x + under.x - own.x) % 0x10000 == 0
            &&& (plan.y + under.y - own.y) % 0x10000 == 0
            &&& plan.width == own.width && plan.height == own.height
            &&& plan.anchor_width == under.width && plan.anchor_height == under.height
            &&& Some(plan.scale) == state.parts()[state.windows@[parent]].scale
        }),
{
    let own = state.parts()[entity].data->0.attrs.dims;
    let under = state.parts()[state.windows@[parent]].data->0.attrs.dims;
    geometry::law_low_bits(own.x - under.x);
    geometry::law_low_bits(own.y - under.y);
}

/// A window becomes a popup if it is not managed, does not cover an output, and there is a window
/// to place it on: the one that the pointer is on before the one that is focused. Any other becomes
/// a toplevel, full screen exactly if it covers an output.
pub proof fn law_who_becomes_a_popup(
    state: InnerServerState,
    plan: RolePlan,
    entity: u64,
    pool: bool,
)
    requires
        state.is_role_plan(plan, entity, pool),
    ensures
        ({
            let data = state.parts()[entity].data->0;
            let whole = exists|e: u64| #[trigger]
                state.parts().contains_key(e) && state.parts()[e].output_dims is Some
                    && state.parts()[e].output_dims->0.width == data.attrs.dims.width
                    && state.parts()[e].output_dims->0.height == data.attrs.dims.height;
            &&& plan is Popup <==> data.attrs.is_popup && !whole && (state.last_hovered is Some
                || state.last_focused_toplevel is Some)
            &&& plan is Popup && state.last_hovered is Some && state.known(
                state.last_hovered->0,
            ) is Some ==> plan->Popup_0.parent == state.windows@[state.last_hovered->0]
            &&& plan is Popup && state.last_hovered is None && state.known(
                state.last_focused_toplevel->0,
            ) is Some ==> plan->Popup_0.parent == state.windows@[state.last_focused_toplevel->0]
            &&& plan is Toplevel ==> plan->Toplevel_0.fullscreen == whole
            &&& state.with_role(entity, pool).role is Some
            &&& state.with_role(entity, pool).role->0 is Popup == plan is Popup
        }),
{
    let dims = state.parts()[entity].data->0.attrs.dims;
    assert(fills_an_output(state.parts(), dims) == exists|e: u64| #[trigger]
        state.parts().contains_key(e) && state.parts()[e].output_dims is Some
            && state.parts()[e].output_dims->0.width == dims.width
            && state.parts()[e].output_dims->0.height == dims.height) by {
        if fills_an_output(state.parts(), dims) {
            let e = choose|e: u64| #[trigger]
                state.parts().contains_key(e) && has_size(state.parts()[e], dims);
            assert(state.parts().contains_key(e));
        }
    }
}

/// A role that is created is the entity's own, fresh and not yet configured, and concerns no other
/// entity. A toplevel asks to be activated in the name of the focused window, where there is one; a
/// popup never does.
pub proof fn law_created_role(
    before: InnerServerState,
    after: InnerServerState,
    created: RoleCreated,
    entity: u64,
    pool: bool,
    e: u64,
)
    requires
        before.role_created(after, created, entity, pool),
        before.parts().contains_key(entity),
        before.parts().contains_key(e),
    ensures
        ({
            let q = after.parts()[entity];
            &&& q.role is Some
            &&& created.plan is Popup ==> (q.role matches Some(SurfaceRole::Popup(Some(popup)))
                && !popup.xdg.configured && popup.xdg.pending is None)
            &&& created.plan is Toplevel ==> (q.role matches Some(
                SurfaceRole::Toplevel(Some(toplevel)),
            ) && !toplevel.xdg.configured && toplevel.xdg.pending is None && !toplevel.fullscreen
                && !toplevel.maximized && !toplevel.minimized && !toplevel.tiled
                && toplevel.capabilities.maximize && toplevel.capabilities.minimize)
            &&& created.plan is Toplevel ==> q.scale == before.parts()[entity].scale
            &&& q.data == before.parts()[entity].data && q.window == before.parts()[entity].window
            &&& e != entity ==> after.parts()[e] == before.parts()[e]
            &&& after.names() == before.names() && after.windows == before.windows
            &&& created.plan is Popup ==> created.activation is None
            &&& !before.activation_state || before.last_focused_toplevel is None
                ==> created.activation is None
            &&& created.activation matches Some(request) ==> {
                &&& request.seat_and_serial == before.last_kb_serial
                &&& before.windows@[before.last_focused_toplevel->0] == request.surface
                &&& after.parts()[request.surface].surface
            }
        }),
{
}

/// A token is asked for in the name of the focused window, with the last serial of a keyboard,
/// exactly if the compositor can activate and that window has a surface.
pub proof fn law_activation_request(state: InnerServerState, request: Option<ActivationRequest>)
    requires
        state.is_activation_request(request),
    ensures
        ({
            let focused = state.last_focused_toplevel;
            let entity = state.windows@[focused->0];
            let there = focused is Some && state.windows@.contains_key(focused->0)
                && state.parts().contains_key(entity) && state.parts()[entity].surface;
            &&& request is Some <==> state.activation_state && there
            &&& request matches Some(request) ==> {
                &&& request.surface == entity
                &&& request.seat_and_serial == state.last_kb_serial
                &&& state.names().contains_key(entity) && state.names()[entity].class is Some ==> (
                request.app_id matches Some(app_id) && app_id@
                    == state.names()[entity].class->0@)
                &&& !state.names().contains_key(entity) ==> request.app_id is None
            }
        }),
{
}

/// A window finds its place unless it has to become a popup of a window that has no surface to
/// place popups on.
pub proof fn law_who_finds_a_place(state: InnerServerState, entity: u64, dims: WindowDims)
    ensures
        ({
            let popup = state.parts()[entity].data->0.attrs.is_popup;
            let whole = fills_an_output(state.parts(), dims);
            let over = if state.last_hovered is Some {
                state.last_hovered
            } else {
                state.last_focused_toplevel
            };
            let under = state.parts()[state.windows@[over->0]];
            let ready = state.windows@.contains_key(over->0) && state.parts().contains_key(
                state.windows@[over->0],
            ) && under.data is Some && under.scale is Some && (under.role matches Some(
                SurfaceRole::Toplevel(Some(_)),
            ) || under.role matches Some(SurfaceRole::Popup(Some(_))));
            &&& !popup || whole || over is None ==> state.role_has_place(entity, dims)
            &&& popup && !whole && over is Some ==> (state.role_has_place(entity, dims) <==> ready)
        }),
{
}

} // verus!
