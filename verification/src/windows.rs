//! What X11 windows tell the bridge, and what the compositor is asked in return.

use vstd::prelude::*;
use crate::geometry::WindowDims;
use crate::output::SurfaceScaleFactor;
use crate::role::SurfaceRole;
use crate::state::InnerServerState;
use crate::window;
use crate::window::{Decorations, WindowAttributes, WindowData, WmNormalHints};
use crate::world;
use crate::world::{Names, Parts, SurfaceSerial};
use crate::xstate::{SetState, WmHints, WmName};

verus! {

/// Who the compositor is asked to let draw decorations.
#[derive(Clone, Copy, Debug, PartialEq, Eq, Structural)]
pub enum DecorationMode {
    ClientSide,
    ServerSide,
}

/// Size limits to put on a toplevel. The limits are divided by the scale first.
#[derive(Clone, Copy, Debug, PartialEq, Eq, Structural)]
pub struct SizeHints {
    pub hints: WmNormalHints,
    /// The X11 scale of the limits.
    pub x11_scale: SurfaceScaleFactor,
    /// What the title bar adds to the heights.
    pub decorations_height: i32,
}

/// What a state change asks of a toplevel.
#[derive(Clone, Copy, Debug, PartialEq, Eq, Structural)]
pub enum ToplevelRequest {
    SetFullscreen,
    UnsetFullscreen,
    SetMaximized,
    UnsetMaximized,
    SetMinimized,
}

/// The decoration mode that goes with what a window asks for.
pub open spec fn mode_of(decorations: Decorations) -> DecorationMode {
    if decorations.serverside {
        DecorationMode::ServerSide
    } else {
        DecorationMode::ClientSide
    }
}

/// The decoration mode that goes with what a window asks for.
pub fn decoration_mode(decorations: Decorations) -> (mode: DecorationMode)
    ensures
        mode == mode_of(decorations),
{
    if decorations.is_serverside() {
        DecorationMode::ServerSide
    } else {
        DecorationMode::ClientSide
    }
}

/// The title of an entity.
pub open spec fn title_of(names: Map<u64, Names>, entity: u64) -> Option<WmName> {
    match world::at(names, entity) {
        Some(names) => names.title,
        None => None,
    }
}

/// The class of an entity.
pub open spec fn class_of(names: Map<u64, Names>, entity: u64) -> Option<String> {
    match world::at(names, entity) {
        Some(names) => names.class,
        None => None,
    }
}

/// The activation token of an entity.
pub open spec fn token_of(names: Map<u64, Names>, entity: u64) -> Option<String> {
    match world::at(names, entity) {
        Some(names) => names.activation_token,
        None => None,
    }
}

/// Whether a title is kept against a new one: a `_NET_WM_NAME` is not replaced by a `WM_NAME`.
pub open spec fn title_kept(current: Option<WmName>, name: WmName) -> bool {
    current matches Some(WmName::NetWmName(_)) && name is WmName
}

/// The characters of an optional title.
pub open spec fn title_text(title: Option<WmName>) -> Option<Seq<char>> {
    match title {
        Some(title) => Some(title.text()),
        None => None,
    }
}

/// The characters of an optional string.
pub open spec fn text_of(text: Option<String>) -> Option<Seq<char>> {
    match text {
        Some(text) => Some(text@),
        None => None,
    }
}

/// The live toplevel of an entity.
pub open spec fn toplevel_of(parts: Parts) -> Option<crate::role::ToplevelData> {
    match parts.role {
        Some(role) => role.live_toplevel(),
        None => None,
    }
}

impl InnerServerState {
    /// All entities, with the state of one window replaced.
    pub open spec fn parts_with_data(self, entity: u64, data: WindowData) -> Map<u64, Parts> {
        self.parts().insert(entity, Parts { data: Some(data), ..self.parts()[entity] })
    }

    /// The state of a window that is known.
    pub open spec fn data_of(self, window: u32) -> WindowData {
        self.parts()[self.known(window)->0].data->0
    }

    /// What stays when only entities change.
    pub open spec fn only_parts_changed(self, after: InnerServerState) -> bool {
        &&& after.names() == self.names()
        &&& after == (InnerServerState { world: after.world, ..self })
    }

    /// The entity of a window, what is known of it, and the window's state.
    pub fn lookup_data(&self, window: u32) -> (found: Option<(u64, Parts, WindowData)>)
        ensures
            match found {
                Some((entity, parts, data)) => self.known(window) == Some(entity)
                    && self.parts()[entity] == parts && parts.data == Some(data),
                None => self.known(window) is None,
            },
    {
        match self.lookup(window) {
            Some((entity, parts)) => match parts.data {
                Some(data) => Some((entity, parts, data)),
                None => None,
            },
            None => None,
        }
    }

    /// The live toplevel of a window.
    pub open spec fn window_toplevel(self, window: u32) -> Option<crate::role::ToplevelData> {
        match self.entity_of(window) {
            Some(entity) => toplevel_of(self.parts()[entity]),
            None => None,
        }
    }

    /// The live toplevel of a window.
    fn lookup_toplevel(&self, window: u32) -> (found: Option<crate::role::ToplevelData>)
        ensures
            found == self.window_toplevel(window),
    {
        match self.lookup(window) {
            Some((_, parts)) => match parts.role {
                Some(role) => role.toplevel(),
                None => None,
            },
            None => None,
        }
    }

    /// Notes a process, and tells whether its environment is yet to be read.
    pub fn note_pid(&mut self, pid: Option<u32>) -> (unread: bool)
        ensures
            unread == (pid matches Some(pid) && !old(self).pids@.contains(pid)),
            final(self).pids@ == (match pid {
                Some(pid) => old(self).pids@.insert(pid),
                None => old(self).pids@,
            }),
            *final(self) == (InnerServerState { pids: final(self).pids, ..*old(self) }),
            old(self).wf() ==> final(self).wf(),
            old(self).one_entity_each() ==> final(self).one_entity_each(),
    {
        match pid {
            Some(pid) => self.pids.insert(pid),
            None => false,
        }
    }

    /// Takes note of a window that was created.
    pub fn new_window(
        &mut self,
        window: u32,
        override_redirect: bool,
        dims: WindowDims,
        activation_token: Option<String>,
    )
        requires
            old(self).has_room(),
        ensures
            ({
                let entity = final(self).windows@[window];
                let names = Names { title: None, class: None, activation_token };
                &&& !old(self).parts().contains_key(entity)
                &&& final(self).parts() == old(self).parts().insert(
                    entity,
                    Parts {
                        window: Some(window),
                        data: Some(WindowData::fresh(override_redirect, dims)),
                        ..Parts::nothing()
                    },
                )
                &&& final(self).names() == old(self).names().insert(entity, names)
                &&& final(self).windows@ == old(self).windows@.insert(window, entity)
            }),
            *final(self) == (InnerServerState {
                world: final(self).world,
                windows: final(self).windows,
                ..*old(self)
            }),
            old(self).wf() ==> final(self).wf(),
            old(self).one_entity_each() && !old(self).windows@.contains_key(window)
                ==> final(self).one_entity_each(),
    {
        let mut parts = Parts::empty();
        parts.window = Some(window);
        parts.data = Some(WindowData::new(override_redirect, dims));
        let entity = world::spawn(&mut self.world, parts);
        world::set_names(
            &mut self.world,
            entity,
            Names { title: None, class: None, activation_token },
        );
        self.windows.insert(window, entity);
    }

    /// Tells whether a window is managed.
    pub fn set_popup(&mut self, window: u32, is_popup: bool)
        ensures
            final(self).parts() == (match old(self).known(window) {
                Some(entity) => old(self).parts_with_data(
                    entity,
                    WindowData {
                        attrs: WindowAttributes { is_popup, ..old(self).data_of(window).attrs },
                        ..old(self).data_of(window)
                    },
                ),
                None => old(self).parts(),
            }),
            old(self).only_parts_changed(*final(self)),
            old(self).wf() ==> final(self).wf(),
            old(self).one_entity_each() ==> final(self).one_entity_each(),
    {
        if let Some((entity, parts, data)) = self.lookup_data(window) {
            let mut data = data;
            data.attrs.is_popup = is_popup;
            world::set(&mut self.world, entity, Parts { data: Some(data), ..parts });
        }
    }

    /// Sets the title of a window. Returns the title to give its toplevel, if it has one.
    pub fn set_win_title(&mut self, window: u32, name: WmName) -> (title: Option<String>)
        ensures
            ({
                let known = old(self).known(window);
                let current = title_of(old(self).names(), known->0);
                let changed = known is Some && !title_kept(current, name);
                &&& text_of(title) == (if changed && old(self).window_toplevel(window) is Some {
                    Some(name.text())
                } else {
                    None
                })
                &&& match known {
                    Some(entity) => {
                        &&& final(self).names().dom() == old(self).names().dom().insert(entity)
                        &&& final(self).names().remove(entity) == old(self).names().remove(entity)
                        &&& title_of(final(self).names(), entity) == (if changed {
                            Some(name)
                        } else {
                            current
                        })
                        &&& class_of(final(self).names(), entity) == class_of(
                            old(self).names(),
                            entity,
                        )
                        &&& token_of(final(self).names(), entity) == token_of(
                            old(self).names(),
                            entity,
                        )
                    },
                    None => final(self).names() == old(self).names(),
                }
            }),
            ({
                let names = old(self).names();
                let entity = old(self).windows@[window];
                let known = old(self).windows@.contains_key(window) && old(
                    self,
                ).parts().contains_key(entity) && old(self).parts()[entity].data is Some;
                let better = names.contains_key(entity) && (names[entity].title matches Some(
                    WmName::NetWmName(_),
                )) && name is WmName;
                &&& known && !better ==> final(self).names().contains_key(entity) && final(self).names()[entity].title == Some(name)
                &&& known && better ==> final(self).names()[entity].title == names[entity].title
                &&& !known ==> title is None
                &&& known && better ==> title is None
                &&& known && !better && (old(self).parts()[entity].role matches Some(
                    SurfaceRole::Toplevel(Some(_)),
                )) ==> (title matches Some(title) && title@ == name.text())
            }),
            final(self).parts() == old(self).parts(),
            *final(self) == (InnerServerState { world: final(self).world, ..*old(self) }),
            old(self).wf() ==> final(self).wf(),
            old(self).one_entity_each() ==> final(self).one_entity_each(),
    {
        let (entity, _, _) = match self.lookup_data(window) {
            Some(found) => found,
            None => return None,
        };
        let toplevel = self.lookup_toplevel(window);
        let mut names = match world::take_names(&mut self.world, entity) {
            Some(names) => names,
            None => Names { title: None, class: None, activation_token: None },
        };
        let keep = match (&names.title, &name) {
            (Some(WmName::NetWmName(_)), WmName::WmName(_)) => true,
            _ => false,
        };
        let mut sent = None;
        if !keep {
            if toplevel.is_some() {
                sent = Some(name.name().to_owned());
            }
            names.title = Some(name);
        }
        world::set_names(&mut self.world, entity, names);
        sent
    }

    /// Sets the class of a window. Returns the application id to give its toplevel, if it has one.
    pub fn set_win_class(&mut self, window: u32, class: String) -> (app_id: Option<String>)
        ensures
            ({
                let known = old(self).known(window);
                &&& text_of(app_id) == (if known is Some && old(self).window_toplevel(window)
                    is Some {
                    Some(class@)
                } else {
                    None
                })
                &&& match known {
                    Some(entity) => {
                        &&& final(self).names().dom() == old(self).names().dom().insert(entity)
                        &&& final(self).names().remove(entity) == old(self).names().remove(entity)
                        &&& title_of(final(self).names(), entity) == title_of(
                            old(self).names(),
                            entity,
                        )
                        &&& class_of(final(self).names(), entity) == Some(class)
                        &&& token_of(final(self).names(), entity) == token_of(
                            old(self).names(),
                            entity,
                        )
                    },
                    None => final(self).names() == old(self).names(),
                }
            }),
            ({
                let entity = old(self).windows@[window];
                let known = old(self).windows@.contains_key(window) && old(
                    self,
                ).parts().contains_key(entity) && old(self).parts()[entity].data is Some;
                &&& known ==> final(self).names().contains_key(entity) && final(self).names()[entity].class == Some(class)
                &&& !known ==> app_id is None
                &&& known && (old(self).parts()[entity].role matches Some(
                    SurfaceRole::Toplevel(Some(_)),
                )) ==> (app_id matches Some(app_id) && app_id@ == class@)
            }),
            final(self).parts() == old(self).parts(),
            *final(self) == (InnerServerState { world: final(self).world, ..*old(self) }),
            old(self).wf() ==> final(self).wf(),
            old(self).one_entity_each() ==> final(self).one_entity_each(),
    {
        let (entity, _, _) = match self.lookup_data(window) {
            Some(found) => found,
            None => return None,
        };
        let toplevel = self.lookup_toplevel(window);
        let mut names = match world::take_names(&mut self.world, entity) {
            Some(names) => names,
            None => Names { title: None, class: None, activation_token: None },
        };
        let sent = if toplevel.is_some() {
            Some(class.clone())
        } else {
            None
        };
        names.class = Some(class);
        world::set_names(&mut self.world, entity, names);
        sent
    }

    /// Sets the window group of a window.
    pub fn set_win_hints(&mut self, window: u32, hints: WmHints)
        ensures
            final(self).parts() == (match old(self).known(window) {
                Some(entity) => old(self).parts_with_data(
                    entity,
                    WindowData {
                        attrs: WindowAttributes {
                            group: hints.window_group,
                            ..old(self).data_of(window).attrs
                        },
                        ..old(self).data_of(window)
                    },
                ),
                None => old(self).parts(),
            }),
            old(self).only_parts_changed(*final(self)),
            old(self).wf() ==> final(self).wf(),
            old(self).one_entity_each() ==> final(self).one_entity_each(),
    {
        if let Some((entity, parts, data)) = self.lookup_data(window) {
            let mut data = data;
            data.attrs.group = hints.window_group;
            world::set(&mut self.world, entity, Parts { data: Some(data), ..parts });
        }
    }

    /// The size limits to put on the toplevel of a window, if it has one.
    pub open spec fn limits_of_toplevel(self, window: u32, hints: WmNormalHints) -> Option<
        SizeHints,
    > {
        match self.window_toplevel(window) {
            Some(toplevel) => Some(
                SizeHints {
                    hints,
                    x11_scale: self.published_x11_scale,
                    decorations_height: crate::decoration::height_of(
                        toplevel.decoration.satellite,
                    ),
                },
            ),
            None => None,
        }
    }

    fn toplevel_limits(&self, window: u32, hints: WmNormalHints) -> (limits: Option<SizeHints>)
        ensures
            limits == self.limits_of_toplevel(window, hints),
    {
        match self.lookup_toplevel(window) {
            Some(toplevel) => Some(
                SizeHints {
                    hints,
                    x11_scale: self.published_x11_scale,
                    decorations_height: crate::decoration::decorations_height(
                        &toplevel.decoration.satellite,
                    ),
                },
            ),
            None => None,
        }
    }

    /// Sets the size limits of a window. Returns the limits to put on its toplevel, if they are
    /// new and it has one.
    pub fn set_size_hints(&mut self, window: u32, hints: WmNormalHints) -> (update: Option<SizeHints>)
        ensures
            match old(self).known(window) {
                Some(entity) if old(self).data_of(window).attrs.size_hints != Some(hints) => {
                    let data = old(self).data_of(window);
                    &&& final(self).parts() == old(self).parts_with_data(
                        entity,
                        WindowData {
                            attrs: WindowAttributes {
                                size_hints: Some(hints),
                                hints_x11_scale: old(self).published_x11_scale,
                                ..data.attrs
                            },
                            ..data
                        },
                    )
                    &&& update == old(self).limits_of_toplevel(window, hints)
                },
                _ => update is None && final(self).parts() == old(self).parts(),
            },
            old(self).only_parts_changed(*final(self)),
            old(self).wf() ==> final(self).wf(),
            old(self).one_entity_each() ==> final(self).one_entity_each(),
    {
        let (entity, parts, data) = match self.lookup_data(window) {
            Some(found) => found,
            None => return None,
        };
        if let Some(current) = data.attrs.size_hints {
            if current == hints {
                return None;
            }
        }
        let update = self.toplevel_limits(window, hints);
        let mut data = data;
        data.attrs.hints_x11_scale = self.published_x11_scale;
        data.attrs.size_hints = Some(hints);
        world::set(&mut self.world, entity, Parts { data: Some(data), ..parts });
        update
    }

    /// Sets which window functions a window asks for.
    pub fn set_win_functions(&mut self, window: u32, functions: u32)
        ensures
            final(self).parts() == (match old(self).known(window) {
                Some(entity) => old(self).parts_with_data(
                    entity,
                    WindowData {
                        attrs: WindowAttributes {
                            functions: Some(functions),
                            ..old(self).data_of(window).attrs
                        },
                        ..old(self).data_of(window)
                    },
                ),
                None => old(self).parts(),
            }),
            old(self).only_parts_changed(*final(self)),
            old(self).wf() ==> final(self).wf(),
            old(self).one_entity_each() ==> final(self).one_entity_each(),
    {
        if let Some((entity, parts, data)) = self.lookup_data(window) {
            let mut data = data;
            data.attrs.functions = Some(functions);
            world::set(&mut self.world, entity, Parts { data: Some(data), ..parts });
        }
    }

    /// Sets which decorations a window asks for. Returns the mode to ask the compositor for, if
    /// it decorates the window's toplevel and the wish is new.
    pub fn set_win_decorations(&mut self, window: u32, decorations: Decorations) -> (mode: Option<
        DecorationMode,
    >)
        ensures
            match old(self).known(window) {
                Some(entity) => {
                    let data = old(self).data_of(window);
                    &&& final(self).parts() == old(self).parts_with_data(
                        entity,
                        WindowData {
                            attrs: WindowAttributes {
                                decorations: Some(decorations),
                                ..data.attrs
                            },
                            ..data
                        },
                    )
                    &&& mode == (match old(self).window_toplevel(window) {
                        Some(toplevel) if toplevel.decoration.wl && data.attrs.decorations != Some(
                            decorations,
                        ) => Some(mode_of(decorations)),
                        _ => None,
                    })
                },
                None => mode is None && final(self).parts() == old(self).parts(),
            },
            old(self).only_parts_changed(*final(self)),
            old(self).wf() ==> final(self).wf(),
            old(self).one_entity_each() ==> final(self).one_entity_each(),
    {
        let (entity, parts, data) = match self.lookup_data(window) {
            Some(found) => found,
            None => return None,
        };
        let mut mode = None;
        if data.attrs.decorations != Some(decorations) {
            if let Some(toplevel) = self.lookup_toplevel(window) {
                if toplevel.decoration.wl {
                    mode = Some(decoration_mode(decorations));
                }
            }
        }
        let mut data = data;
        data.attrs.decorations = Some(decorations);
        world::set(&mut self.world, entity, Parts { data: Some(data), ..parts });
        mode
    }

    /// Sets the serial by which the window's surface will be found.
    pub fn set_window_serial(&mut self, window: u32, serial: SurfaceSerial)
        ensures
            final(self).parts() == (match old(self).entity_of(window) {
                Some(entity) => old(self).parts().insert(
                    entity,
                    Parts { serial: Some(serial), ..old(self).parts()[entity] },
                ),
                None => old(self).parts(),
            }),
            old(self).only_parts_changed(*final(self)),
            old(self).wf() ==> final(self).wf(),
            old(self).one_entity_each() ==> final(self).one_entity_each(),
    {
        if let Some((entity, parts)) = self.lookup(window) {
            world::set(&mut self.world, entity, Parts { serial: Some(serial), ..parts });
        }
    }

    /// Sets the window that a window is transient for.
    pub fn set_transient_for(&mut self, window: u32, parent: u32)
        ensures
            final(self).parts() == (match old(self).known(window) {
                Some(entity) => old(self).parts_with_data(
                    entity,
                    WindowData {
                        attrs: WindowAttributes {
                            transient_for: Some(parent),
                            ..old(self).data_of(window).attrs
                        },
                        ..old(self).data_of(window)
                    },
                ),
                None => old(self).parts(),
            }),
            old(self).only_parts_changed(*final(self)),
            old(self).wf() ==> final(self).wf(),
            old(self).one_entity_each() ==> final(self).one_entity_each(),
    {
        if let Some((entity, parts, data)) = self.lookup_data(window) {
            let mut data = data;
            data.attrs.transient_for = Some(parent);
            world::set(&mut self.world, entity, Parts { data: Some(data), ..parts });
        }
    }

    /// What a request to change whether a window is full screen asks of its toplevel.
    pub fn set_fullscreen(&self, window: u32, state: SetState) -> (request: Option<ToplevelRequest>)
        ensures
            request == (match self.window_toplevel(window) {
                Some(toplevel) => Some(
                    if state.asks_for(toplevel.fullscreen) {
                        ToplevelRequest::SetFullscreen
                    } else {
                        ToplevelRequest::UnsetFullscreen
                    },
                ),
                None => None,
            }),
    {
        match self.lookup_toplevel(window) {
            Some(toplevel) => Some(
                if state.apply(toplevel.fullscreen) {
                    ToplevelRequest::SetFullscreen
                } else {
                    ToplevelRequest::UnsetFullscreen
                },
            ),
            None => None,
        }
    }

    /// What a request to change whether a window is maximized asks of its toplevel.
    pub fn set_maximized(&self, window: u32, state: SetState) -> (request: Option<ToplevelRequest>)
        ensures
            request == (match self.window_toplevel(window) {
                Some(toplevel) => Some(
                    if state.asks_for(toplevel.maximized) {
                        ToplevelRequest::SetMaximized
                    } else {
                        ToplevelRequest::UnsetMaximized
                    },
                ),
                None => None,
            }),
    {
        match self.lookup_toplevel(window) {
            Some(toplevel) => Some(
                if state.apply(toplevel.maximized) {
                    ToplevelRequest::SetMaximized
                } else {
                    ToplevelRequest::UnsetMaximized
                },
            ),
            None => None,
        }
    }

    /// All entities, with the toplevel of one window minimized.
    pub open spec fn parts_minimized(self, window: u32) -> Map<u64, Parts> {
        match self.window_toplevel(window) {
            Some(toplevel) => {
                let entity = self.entity_of(window)->0;
                self.parts().insert(
                    entity,
                    Parts {
                        role: Some(
                            SurfaceRole::Toplevel(
                                Some(crate::role::ToplevelData { minimized: true, ..toplevel }),
                            ),
                        ),
                        ..self.parts()[entity]
                    },
                )
            },
            None => self.parts(),
        }
    }

    /// Minimizes the toplevel of a window.
    pub fn set_minimized(&mut self, window: u32) -> (request: Option<ToplevelRequest>)
        ensures
            request == (if old(self).window_toplevel(window) is Some {
                Some(ToplevelRequest::SetMinimized)
            } else {
                None
            }),
            final(self).parts() == old(self).parts_minimized(window),
            old(self).only_parts_changed(*final(self)),
            old(self).wf() ==> final(self).wf(),
            old(self).one_entity_each() ==> final(self).one_entity_each(),
    {
        let (entity, parts) = match self.lookup(window) {
            Some(found) => found,
            None => return None,
        };
        let role = match parts.role {
            Some(role) => role,
            None => return None,
        };
        let toplevel = match role.toplevel() {
            Some(toplevel) => toplevel,
            None => return None,
        };
        let minimized = crate::role::ToplevelData { minimized: true, ..toplevel };
        world::set(
            &mut self.world,
            entity,
            Parts { role: Some(SurfaceRole::Toplevel(Some(minimized))), ..parts },
        );
        Some(ToplevelRequest::SetMinimized)
    }
}

/// A title from `_NET_WM_NAME` outlives any number of titles from `WM_NAME`.
pub proof fn law_net_wm_name_is_kept(name: String, old_name: String)
    ensures
        title_kept(Some(WmName::NetWmName(name)), WmName::WmName(old_name)),
        !title_kept(Some(WmName::WmName(old_name)), WmName::NetWmName(name)),
        !title_kept(Some(WmName::WmName(old_name)), WmName::WmName(name)),
{
}

/// The compositor is asked to decorate a window that wants that, and to leave alone one that draws
/// its own.
pub proof fn law_decoration_mode(decorations: Decorations)
    ensures
        mode_of(decorations) == DecorationMode::ServerSide <==> decorations.serverside,
        mode_of(decorations) == DecorationMode::ClientSide <==> !decorations.serverside,
{
}

/// A title is kept only against a plainer one: one that came as `_NET_WM_NAME` against one that came
/// as `WM_NAME`.
pub proof fn law_which_title_is_kept(current: Option<WmName>, name: WmName)
    ensures
        name is NetWmName ==> !title_kept(current, name),
        current is None ==> !title_kept(current, name),
        current matches Some(WmName::WmName(_)) ==> !title_kept(current, name),
        (current matches Some(WmName::NetWmName(_)) && name is WmName) ==> title_kept(
            current,
            name,
        ),
{
}

/// What an entity is called is what is noted for it, text by text.
pub proof fn law_names_are_those_noted(names: Map<u64, Names>, entity: u64)
    ensures
        names.contains_key(entity) ==> title_of(names, entity) == names[entity].title && class_of(
            names,
            entity,
        ) == names[entity].class && token_of(names, entity) == names[entity].activation_token,
        !names.contains_key(entity) ==> title_of(names, entity) is None && class_of(names, entity)
            is None && token_of(names, entity) is None,
        title_text(title_of(names, entity)) is Some <==> title_of(names, entity) is Some,
        title_of(names, entity) matches Some(WmName::WmName(text)) ==> title_text(
            title_of(names, entity),
        ) == Some(text@),
        title_of(names, entity) matches Some(WmName::NetWmName(text)) ==> title_text(
            title_of(names, entity),
        ) == Some(text@),
{
}

/// A window is found by its number: its entity is the one that it leads to, its state the one that
/// is noted there, and its toplevel the one that its surface has.
pub proof fn law_windows_are_found_by_number(state: InnerServerState, window: u32)
    ensures
        ({
            let entity = state.windows@[window];
            let there = state.windows@.contains_key(window) && state.parts().contains_key(entity);
            &&& state.entity_of(window) is Some <==> there
            &&& there ==> state.entity_of(window) == Some(entity)
            &&& state.known(window) is Some <==> there && state.parts()[entity].data is Some
            &&& state.known(window) is Some ==> state.known(window) == Some(entity)
            &&& state.known(window) is Some ==> Some(state.data_of(window))
                == state.parts()[entity].data
            &&& state.window_toplevel(window) is Some <==> there && (
            state.parts()[entity].role matches Some(SurfaceRole::Toplevel(Some(_))))
            &&& there ==> (state.parts()[entity].role matches Some(SurfaceRole::Toplevel(toplevel))
                ==> state.window_toplevel(window) == toplevel)
        }),
{
}

/// The size limits of a toplevel are the hints that came, at the scale at which the X server works,
/// with the height of a title bar only where one is drawn here.
pub proof fn law_size_limits(state: InnerServerState, window: u32, hints: WmNormalHints)
    ensures
        ({
            let limits = state.limits_of_toplevel(window, hints);
            &&& limits is Some <==> state.window_toplevel(window) is Some
            &&& limits matches Some(limits) ==> {
                let satellite = state.window_toplevel(window)->0.decoration.satellite;
                &&& limits.hints == hints
                &&& limits.x11_scale == state.published_x11_scale
                &&& satellite is None || !satellite->0.draw_titlebar ==> limits.decorations_height
                    == 0
                &&& satellite is Some && satellite->0.draw_titlebar ==> limits.decorations_height
                    == 25
            }
        }),
{
}

/// Minimizing a window marks its toplevel and nothing else.
pub proof fn law_minimizing_marks_the_toplevel(state: InnerServerState, window: u32, e: u64)
    requires
        state.parts().contains_key(e),
    ensures
        ({
            let after = state.parts_minimized(window);
            let entity = state.windows@[window];
            &&& after.dom() =~= state.parts().dom()
            &&& e != entity ==> after[e] == state.parts()[e]
            &&& state.window_toplevel(window) is None ==> after == state.parts()
            &&& state.window_toplevel(window) matches Some(toplevel) ==> {
                &&& after[entity].role matches Some(SurfaceRole::Toplevel(Some(minimized)))
                &&& minimized.minimized
                &&& minimized.fullscreen == toplevel.fullscreen
                &&& minimized.maximized == toplevel.maximized
                &&& minimized.xdg == toplevel.xdg
                &&& minimized.decoration == toplevel.decoration
            }
        }),
{
}

/// What changes only the parts of entities leaves everything else as it was.
pub proof fn law_only_parts_change(before: InnerServerState, after: InnerServerState)
    requires
        before.only_parts_changed(after),
    ensures
        after.names() == before.names(),
        after.windows == before.windows,
        after.pids == before.pids,
        after.globals_map == before.globals_map,
        after.last_focused_toplevel == before.last_focused_toplevel,
        after.last_hovered == before.last_hovered,
        after.last_kb_serial == before.last_kb_serial,
        after.to_focus == before.to_focus && after.unfocus == before.unfocus,
        after.global_output_offset == before.global_output_offset,
        after.global_offset_updated == before.global_offset_updated,
        after.updated_outputs == before.updated_outputs,
        after.new_scale == before.new_scale,
        after.published_x11_scale == before.published_x11_scale,
        after.pending_activations == before.pending_activations,
{
}

/// Noting the state of a window changes that entity, and nothing of it but that.
pub proof fn law_noted_state(state: InnerServerState, entity: u64, data: WindowData, e: u64)
    requires
        state.parts().contains_key(entity),
        state.parts().contains_key(e),
    ensures
        ({
            let after = state.parts_with_data(entity, data);
            &&& after.dom() =~= state.parts().dom()
            &&& after[entity].data == Some(data)
            &&& Parts { data: state.parts()[entity].data, ..after[entity] }
                == state.parts()[entity]
            &&& e != entity ==> after[e] == state.parts()[e]
        }),
{
}

} // verus!
