//! Pointers and clicks on the decorations of toplevels, and the cursors shown for them.

use vstd::prelude::*;
use crate::configure::ResizeRequest;
use crate::decoration;
use crate::decoration::{
    parent_resize_state, DecorationAction, DecorationPart, DecorationsDataSatellite, FIXED_UNIT,
};
use crate::pointer::ForwardedPointerCursor;
use crate::resize;
use crate::resize::{cursor_shape_for_edge, CursorShape, MoveResizeDirection, ResizeEdge};
use crate::state::InnerServerState;
use crate::surface_events;
use crate::surface_events::replace_satellite;
use crate::titlebar::{DrawDecision, MotionOutcome};
use crate::window::ConfigureInteraction;
use crate::windows;
use crate::windows::ToplevelRequest;
use crate::world;
use crate::world::Parts;
use crate::xstate::SetState;

verus! {

/// What a press on decorations leads to.
#[derive(Clone, Copy, Debug, PartialEq, Eq, Structural)]
pub enum DecorationClick {
    Nothing,
    /// The window is resized, unless it cannot be.
    Resize(Option<ResizeRequest>),
    /// The toplevel is moved.
    Move,
}

/// What a release on decorations leads to.
#[derive(Clone, Copy, Debug, PartialEq, Eq, Structural)]
pub enum DecorationRelease {
    Nothing,
    /// The window is asked to close.
    Close { window: u32 },
    ToggleMaximized(Option<ToplevelRequest>),
    /// The X server is told that the window is minimized.
    Minimize { window: u32, request: Option<ToplevelRequest> },
}

/// What is to be done about a pointer's cursor.
#[derive(Clone, Copy, Debug, PartialEq, Eq, Structural)]
pub enum CursorAction {
    Nothing,
    SetShape { serial: u32, shape: CursorShape },
    /// The image that the X server last asked for.
    Restore { serial: u32, surface: Option<u64>, hotspot_x: i32, hotspot_y: i32 },
}

/// The decorations that are drawn around an entity's toplevel.
pub open spec fn satellite_of(parts: Parts) -> Option<DecorationsDataSatellite> {
    match windows::toplevel_of(parts) {
        Some(toplevel) => toplevel.decoration.satellite,
        None => None,
    }
}

/// The decorations that are drawn around an entity's toplevel.
pub fn satellite(parts: &Parts) -> (found: Option<DecorationsDataSatellite>)
    ensures
        found == satellite_of(*parts),
{
    match parts.role {
        Some(role) => match role.toplevel() {
            Some(toplevel) => toplevel.decoration.satellite,
            None => None,
        },
        None => None,
    }
}

impl InnerServerState {
    /// The decorations of an entity that has some.
    pub open spec fn decorations(self, entity: u64) -> Option<DecorationsDataSatellite> {
        match world::at(self.parts(), entity) {
            Some(parts) => satellite_of(parts),
            None => None,
        }
    }

    /// All entities, with other decorations on one of them.
    pub open spec fn parts_with_satellite(
        self,
        entity: u64,
        satellite: DecorationsDataSatellite,
    ) -> Map<u64, Parts> {
        self.parts().insert(
            entity,
            surface_events::with_satellite(self.parts()[entity], Some(satellite)),
        )
    }

    /// The decorations of an entity once it is known whether its borders can be dragged.
    pub open spec fn decorations_refreshed(self, entity: u64) -> DecorationsDataSatellite {
        let (resizable, enabled) = decoration::resize_state(self.parts()[entity]);
        DecorationsDataSatellite {
            resizable,
            resize_input_enabled: enabled,
            ..self.decorations(entity)->0
        }
    }

    /// Moves a pointer over the decorations of `parent`. The position is in fixed point. Returns
    /// what changed, and whether the input regions did.
    pub fn decoration_motion(&mut self, parent: u64, part: DecorationPart, x: i32, y: i32) -> (outcome:
        Option<(MotionOutcome, bool)>)
        requires
            old(self).decorations(parent) is Some ==> old(self).decorations_refreshed(parent).fits(),
        ensures
            match old(self).decorations(parent) {
                Some(before) => {
                    let d = old(self).decorations_refreshed(parent);
                    let shift = if part is Titlebar {
                        d.border() * FIXED_UNIT
                    } else {
                        0
                    };
                    let after = d.pointed_at(x + shift, y + shift, d.resize_input_enabled);
                    &&& outcome matches Some((motion, input_changed))
                    &&& motion.edge == after.hovered_resize_edge
                    &&& motion.buttons_changed == (after.buttons != before.buttons)
                    &&& input_changed == (d.resize_input_enabled != before.resize_input_enabled)
                    &&& final(self).parts() == old(self).parts_with_satellite(parent, after)
                },
                None => outcome is None && final(self).parts() == old(self).parts(),
            },
            old(self).only_parts_changed(*final(self)),
            old(self).wf() ==> final(self).wf(),
            old(self).one_entity_each() ==> final(self).one_entity_each(),
    {
        let parts = match world::get(&self.world, parent) {
            Some(parts) => parts,
            None => return None,
        };
        let mut decorations = match satellite(&parts) {
            Some(decorations) => decorations,
            None => return None,
        };
        let (has_resize_border, can_resize) = parent_resize_state(&parts);
        let outcome = decorations.handle_surface_motion(part, x, y, has_resize_border, can_resize);
        world::set(&mut self.world, parent, replace_satellite(&parts, Some(decorations)));
        Some(outcome)
    }

    /// Moves a pointer off the decorations of `parent`. Returns whether the title bar is drawn
    /// anew.
    pub fn decoration_leave(&mut self, parent: u64) -> (redraw: bool)
        ensures
            match old(self).decorations(parent) {
                Some(d) => {
                    let buttons = crate::titlebar::pressing(
                        crate::titlebar::hovering(d.buttons, None),
                        None,
                    );
                    &&& redraw == (buttons != d.buttons && d.draws(d.width as int))
                    &&& final(self).parts() == old(self).parts_with_satellite(
                        parent,
                        DecorationsDataSatellite {
                            buttons,
                            hovered_resize_edge: None,
                            pressed_button: None,
                            ..d
                        },
                    )
                },
                None => !redraw && final(self).parts() == old(self).parts(),
            },
            old(self).only_parts_changed(*final(self)),
            old(self).wf() ==> final(self).wf(),
            old(self).one_entity_each() ==> final(self).one_entity_each(),
    {
        let parts = match world::get(&self.world, parent) {
            Some(parts) => parts,
            None => return false,
        };
        let mut decorations = match satellite(&parts) {
            Some(decorations) => decorations,
            None => return false,
        };
        let redraw = decorations.handle_leave();
        world::set(&mut self.world, parent, replace_satellite(&parts, Some(decorations)));
        redraw
    }

    /// The state once the decorations of `parent` were pressed or released.
    pub open spec fn decorations_replaced(
        self,
        after: InnerServerState,
        parent: u64,
        satellite: DecorationsDataSatellite,
    ) -> bool {
        &&& after.parts() == self.parts_with_satellite(parent, satellite)
        &&& self.only_parts_changed(after)
    }

    /// Handles a left press on the decorations of `parent`. Returns what it leads to, and whether
    /// the title bar is drawn anew.
    pub fn decoration_click(&mut self, parent: u64, serial: u32) -> (outcome: (DecorationClick, bool))
        requires
            old(self).decorations(parent) matches Some(d) ==> old(self).parts()[parent].window
                is Some && d.hovered_resize_edge != Some(ResizeEdge::NoEdge),
        ensures
            outcome.1 == (old(self).decorations(parent) matches Some(d) && d.buttons_redrawn(
                d.pressed(),
            )),
            match old(self).decorations(parent) {
                Some(d) => {
                    let click = outcome.0;
                    let window = old(self).parts()[parent].window->0;
                    exists|pressed: InnerServerState| #[trigger]
                        old(self).decorations_replaced(pressed, parent, d.pressed()) && (
                        match d.press_action() {
                            Some(DecorationAction::Resize(edge)) => {
                                &&& click is Resize
                                &&& exists|direction: MoveResizeDirection| #[trigger]
                                    direction.drags_edges() && resize::edge_of(
                                        resize::axes_of(direction),
                                    ) == edge && click->Resize_0 == final(self).resize_request(
                                        window,
                                        direction,
                                    )
                                &&& final(self).parts() == pressed.parts_interacting(
                                    window,
                                    ConfigureInteraction::LockedResize,
                                )
                                &&& pressed.only_parts_changed(*final(self))
                            },
                            Some(DecorationAction::Move) => {
                                &&& click == DecorationClick::Move
                                &&& final(self).parts() == pressed.parts_interacting(
                                    window,
                                    ConfigureInteraction::Move { serial },
                                )
                                &&& pressed.only_parts_changed(*final(self))
                            },
                            _ => click == DecorationClick::Nothing && *final(self) == pressed,
                        })
                },
                None => outcome.0 == DecorationClick::Nothing && *final(self) == *old(self),
            },
            old(self).wf() ==> final(self).wf(),
            old(self).one_entity_each() ==> final(self).one_entity_each(),
    {
        let parts = match world::get(&self.world, parent) {
            Some(parts) => parts,
            None => return (DecorationClick::Nothing, false),
        };
        let mut decorations = match satellite(&parts) {
            Some(decorations) => decorations,
            None => return (DecorationClick::Nothing, false),
        };
        let window = parts.window.unwrap();
        let (action, redraw) = decorations.handle_press();
        world::set(&mut self.world, parent, replace_satellite(&parts, Some(decorations)));
        let ghost pressed = *self;
        assert(old(self).decorations_replaced(pressed, parent, decorations));
        let click = match action {
            Some(DecorationAction::Resize(edge)) => DecorationClick::Resize(
                self.resize_window_by_edge(window, edge),
            ),
            Some(DecorationAction::Move) => {
                self.begin_wayland_move_interaction(window, serial);
                DecorationClick::Move
            },
            _ => DecorationClick::Nothing,
        };
        (click, redraw)
    }

    /// All entities, with an interaction begun on one window if it is known.
    pub open spec fn parts_interacting(
        self,
        window: u32,
        interaction: ConfigureInteraction,
    ) -> Map<u64, Parts> {
        match self.known(window) {
            Some(entity) => self.parts_with_data(
                entity,
                self.data_of(window).with_interaction(Some(interaction)),
            ),
            None => self.parts(),
        }
    }

    /// Handles a left release on the decorations of `parent`. Returns what it leads to, and whether
    /// the title bar is drawn anew.
    pub fn decoration_release(&mut self, parent: u64) -> (outcome: (DecorationRelease, bool))
        requires
            old(self).decorations(parent) is Some ==> old(self).parts()[parent].window is Some,
        ensures
            outcome.1 == (old(self).decorations(parent) matches Some(d) && d.buttons_redrawn(
                d.released(),
            )),
            match old(self).decorations(parent) {
                Some(d) => {
                    let release = outcome.0;
                    let window = old(self).parts()[parent].window->0;
                    exists|released: InnerServerState| #[trigger]
                        old(self).decorations_replaced(released, parent, d.released()) && (
                        match d.release_action() {
                            Some(DecorationAction::Close) => {
                                &&& release == (DecorationRelease::Close { window })
                                &&& *final(self) == (InnerServerState {
                                    last_focused_toplevel: if released.last_focused_toplevel
                                        == Some(window) {
                                        None
                                    } else {
                                        released.last_focused_toplevel
                                    },
                                    last_hovered: if released.last_hovered == Some(window) {
                                        None
                                    } else {
                                        released.last_hovered
                                    },
                                    ..released
                                })
                            },
                            Some(DecorationAction::ToggleMaximized) => {
                                &&& *final(self) == released
                                &&& release == DecorationRelease::ToggleMaximized(
                                    match released.window_toplevel(window) {
                                        Some(toplevel) => Some(
                                            if toplevel.maximized {
                                                ToplevelRequest::UnsetMaximized
                                            } else {
                                                ToplevelRequest::SetMaximized
                                            },
                                        ),
                                        None => None,
                                    },
                                )
                            },
                            Some(DecorationAction::Minimize) => {
                                &&& release == (DecorationRelease::Minimize {
                                    window,
                                    request: if released.window_toplevel(window) is Some {
                                        Some(ToplevelRequest::SetMinimized)
                                    } else {
                                        None
                                    },
                                })
                                &&& final(self).parts() == released.parts_minimized(window)
                                &&& released.only_parts_changed(*final(self))
                            },
                            _ => release == DecorationRelease::Nothing && *final(self) == released,
                        })
                },
                None => outcome.0 == DecorationRelease::Nothing && *final(self) == *old(self),
            },
            old(self).wf() ==> final(self).wf(),
            old(self).one_entity_each() ==> final(self).one_entity_each(),
    {
        let parts = match world::get(&self.world, parent) {
            Some(parts) => parts,
            None => return (DecorationRelease::Nothing, false),
        };
        let mut decorations = match satellite(&parts) {
            Some(decorations) => decorations,
            None => return (DecorationRelease::Nothing, false),
        };
        let window = parts.window.unwrap();
        let (action, redraw) = decorations.handle_release();
        world::set(&mut self.world, parent, replace_satellite(&parts, Some(decorations)));
        let ghost released = *self;
        assert(old(self).decorations_replaced(released, parent, decorations));
        let release = match action {
            Some(DecorationAction::Close) => {
                self.forget_window(window);
                DecorationRelease::Close { window }
            },
            Some(DecorationAction::ToggleMaximized) => DecorationRelease::ToggleMaximized(
                self.set_maximized(window, SetState::Toggle),
            ),
            Some(DecorationAction::Minimize) => {
                let request = self.set_minimized(window);
                DecorationRelease::Minimize { window, request }
            },
            _ => DecorationRelease::Nothing,
        };
        (release, redraw)
    }

    /// Decides what is drawn around an entity's toplevel of the given size.
    pub fn draw_decorations(&mut self, entity: u64, width: i32, height: i32) -> (decision:
        DrawDecision)
        ensures
            match old(self).decorations(entity) {
                Some(d) => decision == d.draw_decision(width) && old(self).decorations_replaced(
                    *final(self),
                    entity,
                    d.drawn(width, height),
                ),
                None => decision == DrawDecision::Nothing && *final(self) == *old(self),
            },
            old(self).wf() ==> final(self).wf(),
            old(self).one_entity_each() ==> final(self).one_entity_each(),
    {
        let parts = match world::get(&self.world, entity) {
            Some(parts) => parts,
            None => return DrawDecision::Nothing,
        };
        let mut decorations = match satellite(&parts) {
            Some(decorations) => decorations,
            None => return DrawDecision::Nothing,
        };
        let decision = decorations.draw_decorations(width, height);
        world::set(&mut self.world, entity, replace_satellite(&parts, Some(decorations)));
        decision
    }

    /// Whether decorations are to be drawn anew when their colours change.
    pub open spec fn redraws(self, entity: u64) -> bool {
        self.decorations(entity) matches Some(d) && d.width > 0 && d.should_draw
    }

    /// The entities whose decorations are to be drawn anew, at the size that they have, when their
    /// colours change.
    pub fn decorations_to_redraw(&self) -> (redrawn: Vec<u64>)
        ensures
            redrawn@.no_duplicates(),
            forall|entity: u64| #[trigger] redrawn@.contains(entity) <==> self.redraws(entity),
    {
        let entities = world::entities(&self.world);
        let mut redrawn: Vec<u64> = Vec::new();
        let mut i: usize = 0;
        while i < entities.len()
            invariant
                i <= entities.len(),
                entities@.no_duplicates(),
                forall|e: u64| entities@.contains(e) <==> self.parts().contains_key(e),
                redrawn@.no_duplicates(),
                forall|e: u64| #[trigger]
                    redrawn@.contains(e) <==> self.redraws(e) && entities@.take(
                        i as int,
                    ).contains(e),
            decreases entities.len() - i,
        {
            let entity = entities[i];
            assert(entities@.contains(entities@[i as int]));
            let ghost so_far = redrawn@;
            if let Some(parts) = world::get(&self.world, entity) {
                if let Some(decorations) = satellite(&parts) {
                    if decorations.width > 0 && decorations.should_draw {
                        redrawn.push(entity);
                    }
                }
            }
            proof {
                world::lemma_take_one_more(entities@, i as int);
                assert(!so_far.contains(entity));
                assert forall|e: u64| #[trigger]
                    so_far.push(entity).contains(e) <==> so_far.contains(e) || e == entity by {
                    vstd::seq_lib::lemma_seq_contains_after_push(so_far, entity, e);
                }
            }
            i += 1;
        }
        proof {
            assert(entities@.take(entities@.len() as int) =~= entities@);
        }
        redrawn
    }
}

/// The shape that is set for a pointer: none before it entered anything, or where the compositor
/// cannot set shapes.
pub open spec fn shape_action(p: Parts, shape: CursorShape) -> CursorAction {
    match p.enter_serial {
        Some(serial) if p.shape_device => CursorAction::SetShape { serial, shape },
        _ => CursorAction::Nothing,
    }
}

fn set_shape(parts: &Parts, shape: CursorShape) -> (action: CursorAction)
    ensures
        action == shape_action(*parts, shape),
{
    match parts.enter_serial {
        Some(serial) => if parts.shape_device {
            CursorAction::SetShape { serial, shape }
        } else {
            CursorAction::Nothing
        },
        None => CursorAction::Nothing,
    }
}

impl InnerServerState {
    /// The image that a pointer shows again: what the X server last asked for, if its surface
    /// still exists.
    pub open spec fn restored_cursor(self, p: Parts) -> CursorAction {
        match p.enter_serial {
            Some(serial) if p.pointer is Some => {
                let forwarded = match p.forwarded_cursor {
                    Some(cursor) => cursor,
                    None => ForwardedPointerCursor { surface: None, hotspot_x: 0, hotspot_y: 0 },
                };
                CursorAction::Restore {
                    serial,
                    surface: match forwarded.surface {
                        Some(entity) if self.parts().contains_key(entity)
                            && self.parts()[entity].surface => Some(entity),
                        _ => None,
                    },
                    hotspot_x: forwarded.hotspot_x,
                    hotspot_y: forwarded.hotspot_y,
                }
            },
            _ => CursorAction::Nothing,
        }
    }

    fn restore_forwarded_pointer_cursor(&self, parts: &Parts) -> (action: CursorAction)
        ensures
            action == self.restored_cursor(*parts),
    {
        let serial = match (parts.enter_serial, parts.pointer) {
            (Some(serial), Some(_)) => serial,
            _ => return CursorAction::Nothing,
        };
        let forwarded = match parts.forwarded_cursor {
            Some(cursor) => cursor,
            None => ForwardedPointerCursor { surface: None, hotspot_x: 0, hotspot_y: 0 },
        };
        let surface = match forwarded.surface {
            Some(entity) => match world::get(&self.world, entity) {
                Some(known) => if known.surface {
                    Some(entity)
                } else {
                    None
                },
                None => None,
            },
            None => None,
        };
        CursorAction::Restore {
            serial,
            surface,
            hotspot_x: forwarded.hotspot_x,
            hotspot_y: forwarded.hotspot_y,
        }
    }

    /// Shows the cursor of the border that a pointer is on, or the X server's own image again.
    pub fn update_pointer_resize_cursor(&mut self, pointer: u64, edge: Option<ResizeEdge>) -> (action:
        CursorAction)
        requires
            old(self).parts().contains_key(pointer),
            edge != Some(ResizeEdge::NoEdge),
        ensures
            ({
                let p = old(self).parts()[pointer];
                &&& final(self).parts() == old(self).parts().insert(
                    pointer,
                    Parts { resize_edge: edge, ..p },
                )
                &&& action == (if p.resize_edge == edge {
                    CursorAction::Nothing
                } else {
                    match edge {
                        Some(edge) => shape_action(p, resize::shape_of(edge)),
                        None => old(self).restored_cursor(p),
                    }
                })
            }),
            old(self).only_parts_changed(*final(self)),
            old(self).wf() ==> final(self).wf(),
            old(self).one_entity_each() ==> final(self).one_entity_each(),
    {
        let parts = world::get(&self.world, pointer).unwrap();
        if parts.resize_edge == edge {
            assert(self.parts() =~= self.parts().insert(pointer, parts));
            return CursorAction::Nothing;
        }
        let action = match edge {
            Some(edge) => set_shape(&parts, cursor_shape_for_edge(edge)),
            None => self.restore_forwarded_pointer_cursor(&parts),
        };
        world::set(&mut self.world, pointer, Parts { resize_edge: edge, ..parts });
        action
    }

    /// Shows the cursor of the part of the decorations that a pointer is on. Off the borders it is
    /// the default one, set once per enter.
    pub fn update_decoration_pointer_cursor(&mut self, pointer: u64, edge: Option<ResizeEdge>) -> (action:
        CursorAction)
        requires
            old(self).parts().contains_key(pointer),
            edge != Some(ResizeEdge::NoEdge),
        ensures
            ({
                let p = old(self).parts()[pointer];
                let already_default = p.resize_edge is None && p.enter_serial is Some
                    && p.decoration_cursor_serial == p.enter_serial;
                match edge {
                    Some(shown) if p.resize_edge == edge => action == CursorAction::Nothing
                        && final(self).parts() == old(self).parts(),
                    Some(shown) => {
                        &&& action == shape_action(p, resize::shape_of(shown))
                        &&& final(self).parts() == old(self).parts().insert(
                            pointer,
                            Parts { resize_edge: edge, decoration_cursor_serial: None, ..p },
                        )
                    },
                    None if already_default => action == CursorAction::Nothing
                        && final(self).parts() == old(self).parts(),
                    None => {
                        &&& action == shape_action(p, CursorShape::Default)
                        &&& final(self).parts() == old(self).parts().insert(
                            pointer,
                            Parts {
                                resize_edge: None,
                                decoration_cursor_serial: if p.enter_serial is Some {
                                    p.enter_serial
                                } else {
                                    p.decoration_cursor_serial
                                },
                                ..p
                            },
                        )
                    },
                }
            }),
            old(self).only_parts_changed(*final(self)),
            old(self).wf() ==> final(self).wf(),
            old(self).one_entity_each() ==> final(self).one_entity_each(),
    {
        let parts = world::get(&self.world, pointer).unwrap();
        match edge {
            Some(shown) => {
                if parts.resize_edge == edge {
                    return CursorAction::Nothing;
                }
                world::set(
                    &mut self.world,
                    pointer,
                    Parts { resize_edge: edge, decoration_cursor_serial: None, ..parts },
                );
                set_shape(&parts, cursor_shape_for_edge(shown))
            },
            None => {
                if parts.resize_edge.is_none() && parts.enter_serial.is_some()
                    && parts.decoration_cursor_serial == parts.enter_serial {
                    return CursorAction::Nothing;
                }
                let decoration_cursor_serial = match parts.enter_serial {
                    Some(serial) => Some(serial),
                    None => parts.decoration_cursor_serial,
                };
                world::set(
                    &mut self.world,
                    pointer,
                    Parts { resize_edge: None, decoration_cursor_serial, ..parts },
                );
                set_shape(&parts, CursorShape::Default)
            },
        }
    }
}

/// The decorations of an entity are those of its toplevel, and replacing them replaces nothing else.
pub proof fn law_decorations_belong_to_the_toplevel(
    state: InnerServerState,
    entity: u64,
    satellite: DecorationsDataSatellite,
    e: u64,
)
    requires
        state.parts().contains_key(entity),
        state.parts().contains_key(e),
    ensures
        ({
            let top = state.parts()[entity].role matches Some(
                crate::role::SurfaceRole::Toplevel(Some(_)),
            );
            let drawn = state.parts()[entity].role->0->Toplevel_0->0.decoration.satellite;
            let after = state.parts_with_satellite(entity, satellite);
            &&& state.decorations(entity) is Some ==> top && state.decorations(entity) == drawn
            &&& top ==> state.decorations(entity) == drawn
            &&& top ==> satellite_of(after[entity]) == Some(satellite)
            &&& after.dom() =~= state.parts().dom()
            &&& e != entity ==> after[e] == state.parts()[e]
            &&& after[entity].data == state.parts()[entity].data && after[entity].window
                == state.parts()[entity].window && after[entity].scale
                == state.parts()[entity].scale
            &&& !state.parts().contains_key(entity) ==> state.decorations(entity) is None
        }),
{
}

/// Whether the border can be grabbed is looked up anew for every motion, and nothing else is.
pub proof fn law_refreshed_decorations(state: InnerServerState, entity: u64)
    requires
        state.decorations(entity) is Some,
    ensures
        ({
            let d = state.decorations(entity)->0;
            let r = state.decorations_refreshed(entity);
            let (border, input) = decoration::resize_state(state.parts()[entity]);
            &&& r.resizable == border
            &&& r.resize_input_enabled == input
            &&& DecorationsDataSatellite {
                resizable: d.resizable,
                resize_input_enabled: d.resize_input_enabled,
                ..r
            } == d
        }),
{
}

/// A cursor is set with the serial of the enter, by the pointer that has a device for it.
pub proof fn law_cursor_is_set_with_the_enter_serial(p: Parts, shape: CursorShape)
    ensures
        shape_action(p, shape) is SetShape <==> p.shape_device && p.enter_serial is Some,
        shape_action(p, shape) matches CursorAction::SetShape { serial, shape: shown } ==> Some(
            serial,
        ) == p.enter_serial && shown == shape,
        !(shape_action(p, shape) is SetShape) ==> shape_action(p, shape) == CursorAction::Nothing,
{
}

/// The cursor that is put back is the one that the X server asked for last, where its surface is
/// still there.
pub proof fn law_forwarded_cursor_comes_back(state: InnerServerState, p: Parts)
    ensures
        ({
            let action = state.restored_cursor(p);
            &&& action is Restore <==> p.enter_serial is Some && p.pointer is Some
            &&& !(action is Restore) ==> action == CursorAction::Nothing
            &&& action matches CursorAction::Restore { serial, surface, hotspot_x, hotspot_y } ==> {
                &&& Some(serial) == p.enter_serial
                &&& p.forwarded_cursor is None ==> surface is None && hotspot_x == 0 && hotspot_y
                    == 0
                &&& p.forwarded_cursor matches Some(cursor) ==> {
                    &&& hotspot_x == cursor.hotspot_x && hotspot_y == cursor.hotspot_y
                    &&& surface is Some ==> surface == cursor.surface
                    &&& surface is Some <==> cursor.surface is Some && state.parts().contains_key(
                        cursor.surface->0,
                    ) && state.parts()[cursor.surface->0].surface
                }
            }
        }),
{
}

/// Decorations are drawn anew for exactly the entities that show some.
pub proof fn law_which_decorations_show(state: InnerServerState, entity: u64)
    ensures
        state.redraws(entity) <==> state.decorations(entity) is Some && state.decorations(
            entity,
        )->0.should_draw && state.decorations(entity)->0.width > 0,
{
}

/// An interaction is noted for the window that it is of, and for no other.
pub proof fn law_interaction_is_noted_once(
    state: InnerServerState,
    window: u32,
    interaction: ConfigureInteraction,
    e: u64,
)
    requires
        state.parts().contains_key(e),
    ensures
        ({
            let after = state.parts_interacting(window, interaction);
            let entity = state.windows@[window];
            &&& state.known(window) is Some ==> after[entity].data is Some
                && after[entity].data->0.configure_interaction == Some(interaction)
                && after[entity].data->0.attrs == state.parts()[entity].data->0.attrs
            &&& e != entity || state.known(window) is None ==> after[e] == state.parts()[e]
        }),
{
}

/// Replacing the decorations of an entity is all that it says.
pub proof fn law_decorations_are_replaced_alone(
    before: InnerServerState,
    after: InnerServerState,
    parent: u64,
    satellite: DecorationsDataSatellite,
    e: u64,
)
    requires
        before.decorations_replaced(after, parent, satellite),
        before.parts().contains_key(parent),
        before.parts().contains_key(e),
        before.decorations(parent) is Some,
    ensures
        after.decorations(parent) == Some(satellite),
        e != parent ==> after.parts()[e] == before.parts()[e],
        after.parts()[parent].data == before.parts()[parent].data,
        after.parts()[parent].window == before.parts()[parent].window,
        after.names() == before.names() && after.windows == before.windows,
        after.last_focused_toplevel == before.last_focused_toplevel && after.last_hovered
            == before.last_hovered,
{
}

} // verus!
