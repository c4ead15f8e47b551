//! Keyboard focus, touch and window activation.

use vstd::prelude::*;
use crate::decoration;
use crate::output::SurfaceScaleFactor;
use crate::pointer::SurfaceRef;
use crate::state::{FocusData, InnerServerState, KeyboardSerial, PendingActivation};
use crate::surface_events;
use crate::surface_events::replace_satellite;
use crate::geometry::PendingSurfaceState;
use crate::windows;
use crate::world;
use crate::world::Parts;

verus! {

/// What the X server is asked to focus.
#[derive(Clone, Copy, Debug, PartialEq, Eq, Structural)]
pub enum FocusRequest {
    Nothing,
    Window(FocusData),
    NoWindow,
}

/// What a touch leads to. A position is multiplied by the scale before it is sent.
#[derive(Clone, Copy, Debug, PartialEq, Eq, Structural)]
pub enum TouchDown {
    Ignored,
    Window { surface: u64, window: u32, scale: SurfaceScaleFactor },
    /// A decoration is touched: the pointer is taken to move there and press.
    Decoration { parent: u64, seat: u64 },
}

/// A configuration that is to be sent to the X server.
#[derive(Clone, Copy, Debug, PartialEq, Eq, Structural)]
pub struct PendingConfigure {
    pub entity: u64,
    pub window: u32,
    pub dims: PendingSurfaceState,
}

/// The window whose surface an event names, if the X server still knows the surface.
pub open spec fn window_of_surface(parts: Map<u64, Parts>, surface: SurfaceRef) -> Option<u32> {
    match surface {
        SurfaceRef::Entity(entity) if parts.contains_key(entity) && parts[entity].surface =>
            parts[entity].window,
        _ => None,
    }
}

/// An entity whose decorations show whether its window is focused.
pub open spec fn decoration_focused(p: Parts, focused: bool) -> Parts {
    match windows::toplevel_of(p) {
        Some(toplevel) => match toplevel.decoration.satellite {
            Some(satellite) => surface_events::with_satellite(
                p,
                Some(decoration::focus_set(satellite, focused)),
            ),
            None => p,
        },
        None => p,
    }
}

/// Whether an entity's decorations are drawn anew to show whether its window is focused.
pub open spec fn decoration_redrawn(p: Parts, focused: bool) -> bool {
    &&& windows::toplevel_of(p) matches Some(toplevel)
    &&& toplevel.decoration.satellite matches Some(satellite)
    &&& decoration::focus_redrawn(satellite, focused)
}

impl InnerServerState {
    /// The window whose surface an event names.
    fn surface_window(&self, surface: SurfaceRef) -> (found: Option<(u64, u32, Parts)>)
        ensures
            match found {
                Some((entity, window, parts)) => window_of_surface(self.parts(), surface) == Some(
                    window,
                ) && surface == SurfaceRef::Entity(entity) && self.parts().contains_key(entity)
                    && self.parts()[entity] == parts,
                None => window_of_surface(self.parts(), surface) is None,
            },
    {
        if let SurfaceRef::Entity(entity) = surface {
            if let Some(parts) = world::get(&self.world, entity) {
                if let (true, Some(window)) = (parts.surface, parts.window) {
                    return Some((entity, window, parts));
                }
            }
        }
        None
    }

    /// Handles `wl_keyboard.enter` on a seat. Returns whether the X server is told.
    pub fn keyboard_enter(&mut self, seat: u64, serial: u32, surface: SurfaceRef) -> (forward: bool)
        requires
            world::at(old(self).parts(), seat) matches Some(p) && p.seat is Some,
        ensures
            match window_of_surface(old(self).parts(), surface) {
                Some(window) => forward && *final(self) == (InnerServerState {
                    last_kb_serial: Some(
                        KeyboardSerial { seat: old(self).parts()[seat].seat->0.id, serial },
                    ),
                    to_focus: Some(
                        FocusData {
                            window,
                            output: old(self).parts()[surface->Entity_0].on_output,
                        },
                    ),
                    ..*old(self)
                }),
                None => !forward && *final(self) == *old(self),
            },
            old(self).wf() ==> final(self).wf(),
            old(self).one_entity_each() ==> final(self).one_entity_each(),
    {
        let (_, window, parts) = match self.surface_window(surface) {
            Some(found) => found,
            None => return false,
        };
        let wl_seat = world::get(&self.world, seat).unwrap().seat.unwrap();
        self.last_kb_serial = Some(KeyboardSerial { seat: wl_seat.id, serial });
        self.to_focus = Some(FocusData { window, output: parts.on_output });
        true
    }

    /// Handles `wl_keyboard.leave`. Returns whether the X server is told.
    pub fn keyboard_leave(&mut self, surface: SurfaceRef, alive: bool) -> (forward: bool)
        ensures
            match window_of_surface(old(self).parts(), surface) {
                Some(window) if alive => {
                    let entering = old(self).to_focus matches Some(d) && d.window == window;
                    &&& forward
                    &&& *final(self) == (InnerServerState {
                        to_focus: if entering {
                            None
                        } else {
                            old(self).to_focus
                        },
                        unfocus: old(self).unfocus || !entering,
                        ..*old(self)
                    })
                },
                _ => !forward && *final(self) == *old(self),
            },
            old(self).wf() ==> final(self).wf(),
            old(self).one_entity_each() ==> final(self).one_entity_each(),
    {
        if !alive {
            return false;
        }
        let (_, window, _) = match self.surface_window(surface) {
            Some(found) => found,
            None => return false,
        };
        let entering = match self.to_focus {
            Some(d) => d.window == window,
            None => false,
        };
        if entering {
            self.to_focus = None;
        } else {
            self.unfocus = true;
        }
        true
    }

    /// Notes the serial of a key press on a seat.
    pub fn keyboard_key(&mut self, seat: u64, serial: u32)
        requires
            world::at(old(self).parts(), seat) matches Some(p) && p.seat is Some,
        ensures
            *final(self) == (InnerServerState {
                last_kb_serial: Some(
                    KeyboardSerial { seat: old(self).parts()[seat].seat->0.id, serial },
                ),
                ..*old(self)
            }),
            old(self).wf() ==> final(self).wf(),
            old(self).one_entity_each() ==> final(self).one_entity_each(),
    {
        let wl_seat = world::get(&self.world, seat).unwrap().seat.unwrap();
        self.last_kb_serial = Some(KeyboardSerial { seat: wl_seat.id, serial });
    }

    /// Handles `wl_touch.down` on a seat.
    pub fn touch_down(&mut self, target: u64, surface: SurfaceRef) -> (outcome: TouchDown)
        requires
            old(self).parts().contains_key(target),
            surface is Decoration ==> old(self).parts()[target].seat is Some,
        ensures
            match window_of_surface(old(self).parts(), surface) {
                Some(window) if old(self).parts()[surface->Entity_0].scale is Some => {
                    let entity = surface->Entity_0;
                    let scale = old(self).parts()[entity].scale;
                    &&& outcome == TouchDown::Window { surface: entity, window, scale: scale->0 }
                    &&& final(self).parts() == old(self).parts().insert(
                        target,
                        Parts { scale, ..old(self).parts()[target] },
                    )
                },
                _ => {
                    &&& final(self).parts() == old(self).parts()
                    &&& outcome == (match surface {
                        SurfaceRef::Decoration(parent) => TouchDown::Decoration {
                            parent,
                            seat: old(self).parts()[target].seat->0.id,
                        },
                        _ => TouchDown::Ignored,
                    })
                },
            },
            old(self).only_parts_changed(*final(self)),
            old(self).wf() ==> final(self).wf(),
            old(self).one_entity_each() ==> final(self).one_entity_each(),
    {
        let parts = world::get(&self.world, target).unwrap();
        if let Some((entity, window, surface_parts)) = self.surface_window(surface) {
            if let Some(scale) = surface_parts.scale {
                world::set(&mut self.world, target, Parts { scale: Some(scale), ..parts });
                return TouchDown::Window { surface: entity, window, scale };
            }
        }
        match surface {
            SurfaceRef::Decoration(parent) => TouchDown::Decoration {
                parent,
                seat: parts.seat.unwrap().id,
            },
            _ => TouchDown::Ignored,
        }
    }

    /// The scale at which a touch moves, if it is known.
    pub fn touch_scale(&self, target: u64) -> (scale: Option<SurfaceScaleFactor>)
        ensures
            scale == (match world::at(self.parts(), target) {
                Some(p) => p.scale,
                None => None,
            }),
    {
        match world::get(&self.world, target) {
            Some(parts) => parts.scale,
            None => None,
        }
    }

    /// All entities, with the decorations of one window showing whether it is focused.
    pub open spec fn parts_focused(self, window: Option<u32>, focused: bool) -> Map<u64, Parts> {
        match window {
            Some(window) => match self.entity_of(window) {
                Some(entity) => self.parts().insert(
                    entity,
                    decoration_focused(self.parts()[entity], focused),
                ),
                None => self.parts(),
            },
            None => self.parts(),
        }
    }

    /// The entity whose decorations are drawn anew to show whether a window is focused.
    pub open spec fn focus_redraw(self, window: Option<u32>, focused: bool) -> Option<u64> {
        match window {
            Some(window) => match self.entity_of(window) {
                Some(entity) if decoration_redrawn(self.parts()[entity], focused) => Some(entity),
                _ => None,
            },
            None => None,
        }
    }

    /// Makes the decorations of a window show whether it is focused. Returns the entity whose
    /// decorations are to be drawn anew.
    fn set_decoration_focused(&mut self, window: u32, focused: bool) -> (redraw: Option<u64>)
        ensures
            final(self).parts() == old(self).parts_focused(Some(window), focused),
            redraw == old(self).focus_redraw(Some(window), focused),
            old(self).only_parts_changed(*final(self)),
    {
        if let Some((entity, parts)) = self.lookup(window) {
            if let Some(role) = parts.role {
                if let Some(toplevel) = role.toplevel() {
                    if let Some(satellite) = toplevel.decoration.satellite {
                        let mut satellite = satellite;
                        let redraw = satellite.set_focused(focused);
                        let shown = replace_satellite(&parts, Some(satellite));
                        world::set(&mut self.world, entity, shown);
                        return if redraw {
                            Some(entity)
                        } else {
                            None
                        };
                    }
                }
            }
            assert(self.parts() =~= self.parts().insert(entity, parts));
        }
        None
    }

    /// The state once another window, or none, is focused, and the entities whose decorations are
    /// then drawn anew: that of the window that lost the focus, and that of the one that won it.
    pub open spec fn focus_moved(
        self,
        after: InnerServerState,
        redraw: (Option<u64>, Option<u64>),
        next: Option<u32>,
    ) -> bool {
        if self.last_focused_toplevel == next {
            after == self && redraw == (None::<u64>, None::<u64>)
        } else {
            exists|unfocused: InnerServerState|
                {
                    &&& #[trigger] unfocused.parts() == self.parts_focused(
                        self.last_focused_toplevel,
                        false,
                    )
                    &&& self.only_parts_changed(unfocused)
                    &&& redraw.0 == self.focus_redraw(self.last_focused_toplevel, false)
                    &&& redraw.1 == unfocused.focus_redraw(next, true)
                    &&& after.parts() == unfocused.parts_focused(next, true)
                    &&& after.names() == self.names()
                    &&& after == (InnerServerState {
                        world: after.world,
                        last_focused_toplevel: next,
                        ..self
                    })
                }
        }
    }

    /// Notes which window is focused, and makes decorations show it. Returns the entities whose
    /// decorations are to be drawn anew, the one that lost the focus first.
    pub fn update_focused_toplevel(&mut self, next: Option<u32>) -> (redraw: (Option<u64>, Option<u64>))
        ensures
            old(self).focus_moved(*final(self), redraw, next),
            old(self).wf() ==> final(self).wf(),
            old(self).one_entity_each() ==> final(self).one_entity_each(),
    {
        if self.last_focused_toplevel == next {
            return (None, None);
        }
        let mut lost = None;
        let mut won = None;
        if let Some(previous_window) = self.last_focused_toplevel {
            lost = self.set_decoration_focused(previous_window, false);
        }
        let ghost unfocused = *self;
        assert(unfocused.parts() == old(self).parts_focused(
            old(self).last_focused_toplevel,
            false,
        ));
        if let Some(window) = next {
            won = self.set_decoration_focused(window, true);
        }
        self.last_focused_toplevel = next;
        (lost, won)
    }

    /// Whether what was to be focused is, and nothing is to be focused any more.
    pub open spec fn focus_applied(
        self,
        after: InnerServerState,
        request: FocusRequest,
        redraw: (Option<u64>, Option<u64>),
    ) -> bool {
        match self.to_focus {
            Some(focus) => {
                &&& request == FocusRequest::Window(focus)
                &&& (InnerServerState { to_focus: None, unfocus: false, ..self }).focus_moved(
                    after,
                    redraw,
                    Some(focus.window),
                )
            },
            None if self.unfocus => {
                &&& request == FocusRequest::NoWindow
                &&& (InnerServerState { unfocus: false, ..self }).focus_moved(after, redraw, None)
            },
            None => {
                &&& request == FocusRequest::Nothing
                &&& redraw == (None::<u64>, None::<u64>)
                &&& after == self
            },
        }
    }

    /// Settles what is focused after a batch of events. A window that is entered wins over one
    /// that is left. Returns what the X server is asked, and the entities whose decorations are to
    /// be drawn anew, the one that lost the focus first.
    pub fn apply_focus(&mut self) -> (outcome: (FocusRequest, (Option<u64>, Option<u64>)))
        ensures
            old(self).focus_applied(*final(self), outcome.0, outcome.1),
            old(self).wf() ==> final(self).wf(),
            old(self).one_entity_each() ==> final(self).one_entity_each(),
    {
        let unfocus = self.unfocus;
        self.unfocus = false;
        if let Some(focus) = self.to_focus {
            self.to_focus = None;
            let redraw = self.update_focused_toplevel(Some(focus.window));
            return (FocusRequest::Window(focus), redraw);
        }
        if unfocus {
            let redraw = self.update_focused_toplevel(None);
            return (FocusRequest::NoWindow, redraw);
        }
        (FocusRequest::Nothing, (None, None))
    }

    /// Whether the window of a pending activation has a surface to activate.
    pub open spec fn can_activate(self, pending: PendingActivation) -> bool {
        self.entity_of(pending.window) matches Some(entity) && self.parts()[entity].surface
    }

    /// Whether exactly the tokens whose windows can be activated are taken out, with the entities
    /// of their surfaces, and all tokens stay in the order in which they came.
    pub open spec fn activations_taken(
        self,
        after: InnerServerState,
        ready: Seq<(u64, PendingActivation)>,
    ) -> bool {
        let pending = self.pending_activations@;
        let usable = |p: PendingActivation| self.activation_state && self.can_activate(p);
        &&& ready.map_values(|r: (u64, PendingActivation)| r.1) == pending.filter(usable)
        &&& forall|k: int|
            0 <= k < ready.len() ==> self.entity_of((#[trigger] ready[k]).1.window) == Some(
                ready[k].0,
            )
        &&& after.pending_activations@ == pending.filter(|p: PendingActivation| !usable(p))
        &&& after == (InnerServerState { pending_activations: after.pending_activations, ..self })
    }

    /// Takes out the tokens whose windows can be activated, with the entities of their surfaces.
    /// Tokens stay in the order in which they came.
    pub fn handle_activations(&mut self) -> (ready: Vec<(u64, PendingActivation)>)
        ensures
            old(self).activations_taken(*final(self), ready@),
            old(self).wf() ==> final(self).wf(),
            old(self).one_entity_each() ==> final(self).one_entity_each(),
    {
        let ghost usable = |p: PendingActivation|
            old(self).activation_state && old(self).can_activate(p);
        let ghost waiting = |p: PendingActivation| !usable(p);
        let mut ready: Vec<(u64, PendingActivation)> = Vec::new();
        let mut rest: Vec<PendingActivation> = Vec::new();
        let ghost pending = self.pending_activations@;
        let mut queue: Vec<PendingActivation> = Vec::new();
        std::mem::swap(&mut queue, &mut self.pending_activations);
        let ghost emptied = *self;
        let ghost mut seen = Seq::<PendingActivation>::empty();
        while queue.len() > 0
            invariant
                seen + queue@ == pending,
                *self == emptied,
                self.activation_state == old(self).activation_state,
                self.windows == old(self).windows,
                self.world == old(self).world,
                usable == (|p: PendingActivation|
                    old(self).activation_state && old(self).can_activate(p)),
                waiting == (|p: PendingActivation| !usable(p)),
                ready@.map_values(|r: (u64, PendingActivation)| r.1) == seen.filter(usable),
                forall|k: int|
                    0 <= k < ready@.len() ==> old(self).entity_of((#[trigger] ready@[k]).1.window)
                        == Some(ready@[k].0),
                rest@ == seen.filter(waiting),
            decreases queue.len(),
        {
            let ghost before = queue@;
            let ghost given = ready@;
            let token = queue.remove(0);
            let ghost value = token;
            proof {
                let earlier = seen;
                assert(before =~= seq![token] + queue@);
                seen = seen.push(token);
                assert(seen + queue@ =~= pending);
                assert(seen.drop_last() =~= earlier);
                reveal(Seq::filter);
            }
            let mut surface = None;
            if self.activation_state {
                if let Some((entity, parts)) = self.lookup(token.window) {
                    if parts.surface {
                        surface = Some(entity);
                    }
                }
            }
            assert(surface is Some == usable(token));
            match surface {
                Some(entity) => {
                    ready.push((entity, token));
                    assert(ready@.map_values(|r: (u64, PendingActivation)| r.1)
                        =~= given.map_values(|r: (u64, PendingActivation)| r.1).push(value));
                },
                None => rest.push(token),
            }
        }
        assert(seen =~= pending);
        self.pending_activations = rest;
        ready
    }

    /// Takes out the configurations that the X server has yet to be sent.
    pub fn flush_pending_x11_configures(&mut self) -> (configures: Vec<PendingConfigure>)
        ensures
            final(self).parts() == old(self).parts().map_values(
                |p: Parts|
                    if p.window is Some {
                        Parts { pending_dims: None, ..p }
                    } else {
                        p
                    },
            ),
            configures@.no_duplicates(),
            forall|c: PendingConfigure| #[trigger]
                configures@.contains(c) <==> old(self).parts().contains_key(c.entity) && old(
                    self,
                ).parts()[c.entity].window == Some(c.window) && old(self).parts()[c.entity].pending_dims
                    == Some(c.dims),
            old(self).only_parts_changed(*final(self)),
            old(self).wf() ==> final(self).wf(),
            old(self).one_entity_each() ==> final(self).one_entity_each(),
    {
        let ghost before = self.parts();
        let ghost after = before.map_values(
            |p: Parts|
                if p.window is Some {
                    Parts { pending_dims: None, ..p }
                } else {
                    p
                },
        );
        let mut configures: Vec<PendingConfigure> = Vec::new();
        let entities = world::entities(&self.world);
        let mut i: usize = 0;
        while i < entities.len()
            invariant
                i <= entities.len(),
                entities@.no_duplicates(),
                before == old(self).parts(),
                after == before.map_values(
                    |p: Parts|
                        if p.window is Some {
                            Parts { pending_dims: None, ..p }
                        } else {
                            p
                        },
                ),
                old(self).only_parts_changed(*self),
                self.parts().dom() == before.dom(),
                forall|e: u64| entities@.contains(e) <==> before.contains_key(e),
                forall|k: int|
                    0 <= k < entities@.len() ==> #[trigger] self.parts()[entities@[k]] == (if k < i {
                        after[entities@[k]]
                    } else {
                        before[entities@[k]]
                    }),
                configures@.no_duplicates(),
                forall|c: PendingConfigure| #[trigger]
                    configures@.contains(c) <==> entities@.take(i as int).contains(c.entity)
                        && before[c.entity].window == Some(c.window)
                        && before[c.entity].pending_dims == Some(c.dims),
            decreases entities.len() - i,
        {
            let entity = entities[i];
            let ghost told = configures@;
            let ghost seen = entities@.take(i as int);
            assert(entities@.contains(entities@[i as int]));
            assert(entities@.take(i as int + 1) =~= seen.push(entity));
            assert(!seen.contains(entity));
            let parts = world::get(&self.world, entity).unwrap();
            if let Some(window) = parts.window {
                if let Some(dims) = parts.pending_dims {
                    configures.push(PendingConfigure { entity, window, dims });
                }
                world::set(&mut self.world, entity, Parts { pending_dims: None, ..parts });
            }
            proof {
                let p = before[entity];
                let due = p.window is Some && p.pending_dims is Some;
                let fresh = PendingConfigure {
                    entity,
                    window: p.window->0,
                    dims: p.pending_dims->0,
                };
                assert(configures@ == (if due {
                    told.push(fresh)
                } else {
                    told
                }));
                assert(!told.contains(fresh));
                assert forall|c: PendingConfigure| #[trigger] configures@.contains(c) <==> (
                seen.push(entity).contains(c.entity) && before[c.entity].window == Some(c.window)
                    && before[c.entity].pending_dims == Some(c.dims)) by {
                    vstd::seq_lib::lemma_seq_contains_after_push(told, fresh, c);
                    vstd::seq_lib::lemma_seq_contains_after_push(seen, entity, c.entity);
                }
            }
            i += 1;
        }
        assert(entities@.take(entities@.len() as int) =~= entities@);
        assert(self.parts() =~= after) by {
            assert forall|e: u64| before.contains_key(e) implies self.parts()[e] == after[e] by {
                let k = choose|k: int| 0 <= k < entities@.len() && entities@[k] == e;
                assert(entities@[k] == e);
            }
        }
        configures
    }
}

/// A window that is entered in the same batch in which another is left is focused.
pub proof fn law_entered_window_wins(
    state: InnerServerState,
    after: InnerServerState,
    redraw: (Option<u64>, Option<u64>),
    focus: FocusData,
)
    requires
        state.to_focus == Some(focus),
        (InnerServerState { to_focus: None, unfocus: false, ..state }).focus_moved(
            after,
            redraw,
            Some(focus.window),
        ),
    ensures
        after.last_focused_toplevel == Some(focus.window),
        after.to_focus is None,
        !after.unfocus,
{
}

/// Focus follows what the keyboard enters: the window that was focused no longer is, the one that
/// comes next is, and the decorations of both show it.
pub proof fn law_focus_moves(
    before: InnerServerState,
    after: InnerServerState,
    redraw: (Option<u64>, Option<u64>),
    next: Option<u32>,
)
    requires
        before.focus_moved(after, redraw, next),
    ensures
        after.last_focused_toplevel == next,
        before.last_focused_toplevel == next ==> after == before && redraw.0 is None && redraw.1
            is None,
        before.last_focused_toplevel != next && (next matches Some(window)
            && before.windows@.contains_key(window) && before.parts().contains_key(
            before.windows@[window],
        )) ==> {
            let q = after.parts()[before.windows@[next->0]];
            q.role matches Some(crate::role::SurfaceRole::Toplevel(Some(toplevel))) ==> (
            toplevel.decoration.satellite matches Some(satellite) ==> satellite.focused)
        },
        after.windows == before.windows,
        after.names() == before.names(),
{
    if before.last_focused_toplevel != next && next is Some {
        let unfocused = choose|unfocused: InnerServerState|
            {
                &&& #[trigger] unfocused.parts() == before.parts_focused(
                    before.last_focused_toplevel,
                    false,
                )
                &&& before.only_parts_changed(unfocused)
                &&& redraw.0 == before.focus_redraw(before.last_focused_toplevel, false)
                &&& redraw.1 == unfocused.focus_redraw(next, true)
                &&& after.parts() == unfocused.parts_focused(next, true)
                &&& after.names() == before.names()
                &&& after == (InnerServerState {
                    world: after.world,
                    last_focused_toplevel: next,
                    ..before
                })
            };
        assert(unfocused.windows == before.windows);
        let window = next->0;
        if before.windows@.contains_key(window) && before.parts().contains_key(
            before.windows@[window],
        ) {
            assert(unfocused.parts().contains_key(before.windows@[window]));
        }
    }
}

/// The decorations of an entity are focused exactly as told, and nothing else about it changes.
pub proof fn law_decorations_show_the_focus(p: Parts, focused: bool)
    ensures
        ({
            let q = decoration_focused(p, focused);
            let drawn = p.role matches Some(crate::role::SurfaceRole::Toplevel(Some(toplevel)))
                && toplevel.decoration.satellite is Some;
            &&& !drawn ==> q == p && !decoration_redrawn(p, focused)
            &&& drawn ==> q.role->0->Toplevel_0->0.decoration.satellite->0.focused == focused
            &&& drawn ==> q.role->0->Toplevel_0->0.decoration.satellite is Some
            &&& drawn ==> q.role->0->Toplevel_0->0.fullscreen == p.role->0->Toplevel_0->0.fullscreen
            &&& Parts { role: p.role, ..q } == p
        }),
{
}

/// A surface's window is the one that its entity stands for, and decorations and surfaces that are
/// gone have none.
pub proof fn law_window_of_a_surface(parts: Map<u64, Parts>, entity: u64)
    ensures
        parts.contains_key(entity) && parts[entity].surface ==> window_of_surface(
            parts,
            SurfaceRef::Entity(entity),
        ) == parts[entity].window,
        !parts.contains_key(entity) || !parts[entity].surface ==> window_of_surface(
            parts,
            SurfaceRef::Entity(entity),
        ) is None,
        window_of_surface(parts, SurfaceRef::Decoration(entity)) is None,
        window_of_surface(parts, SurfaceRef::Unknown) is None,
{
}

/// A focus that is to be applied is applied once: the window that waits is focused, or else none if
/// the focus was lost, and afterwards nothing is left to apply.
pub proof fn law_focus_is_applied_once(
    before: InnerServerState,
    after: InnerServerState,
    request: FocusRequest,
    redraw: (Option<u64>, Option<u64>),
)
    requires
        before.focus_applied(after, request, redraw),
    ensures
        before.to_focus matches Some(focus) ==> request == FocusRequest::Window(focus)
            && after.last_focused_toplevel == Some(focus.window),
        before.to_focus is None && before.unfocus ==> request == FocusRequest::NoWindow
            && after.last_focused_toplevel is None,
        before.to_focus is None && !before.unfocus ==> request == FocusRequest::Nothing && after
            == before,
        after.to_focus is None,
        !after.unfocus,
{
    if let Some(focus) = before.to_focus {
        law_focus_moves(
            InnerServerState { to_focus: None, unfocus: false, ..before },
            after,
            redraw,
            Some(focus.window),
        );
    } else if before.unfocus {
        law_focus_moves(InnerServerState { unfocus: false, ..before }, after, redraw, None);
    }
}

/// An activation is carried out as soon as its window has a surface, and waits until then: none is
/// lost and none is carried out twice.
pub proof fn law_activations_wait_for_their_surface(
    before: InnerServerState,
    after: InnerServerState,
    ready: Seq<(u64, PendingActivation)>,
    k: int,
)
    requires
        before.activations_taken(after, ready),
    ensures
        0 <= k < ready.len() ==> before.pending_activations@.contains(ready[k].1)
            && before.activation_state && before.windows@[ready[k].1.window] == ready[k].0
            && before.parts()[ready[k].0].surface,
        0 <= k < after.pending_activations@.len() ==> before.pending_activations@.contains(
            after.pending_activations@[k],
        ),
        !before.activation_state ==> ready.len() == 0,
        ready.len() + after.pending_activations@.len() == before.pending_activations@.len(),
        after.parts() == before.parts() && after.windows == before.windows && after.names()
            == before.names(),
        after.last_focused_toplevel == before.last_focused_toplevel,
{
    let pending = before.pending_activations@;
    let usable = |p: PendingActivation| before.activation_state && before.can_activate(p);
    if 0 <= k < ready.len() {
        let tokens = ready.map_values(|r: (u64, PendingActivation)| r.1);
        assert(tokens[k] == ready[k].1);
        pending.lemma_filter_contains_rev(usable, tokens[k]);
        pending.lemma_filter_pred(usable, k);
    }
    let waiting = |p: PendingActivation| !usable(p);
    lemma_filter_splits(pending, usable, waiting);
    assert(ready.len() == ready.map_values(|r: (u64, PendingActivation)| r.1).len());
    if 0 <= k < after.pending_activations@.len() {
        assert(pending.filter(waiting).contains(after.pending_activations@[k]));
        pending.lemma_filter_contains_rev(waiting, after.pending_activations@[k]);
    }
    if !before.activation_state && ready.len() > 0 {
        let tokens = ready.map_values(|r: (u64, PendingActivation)| r.1);
        assert(tokens[0] == ready[0].1);
        pending.lemma_filter_pred(usable, 0);
    }
}

/// What a filter keeps and what its opposite keeps are all that there is.
proof fn lemma_filter_splits<A>(s: Seq<A>, keep: spec_fn(A) -> bool, drop: spec_fn(A) -> bool)
    requires
        forall|a: A| #[trigger] keep(a) == !drop(a),
    ensures
        s.filter(keep).len() + s.filter(drop).len() == s.len(),
    decreases s.len(),
{
    reveal(Seq::filter);
    if s.len() > 0 {
        lemma_filter_splits(s.drop_last(), keep, drop);
        assert(keep(s.last()) == !drop(s.last()));
    }
}

} // verus!
