//! What the compositor tells surfaces: outputs, scales and configurations.

use vstd::prelude::*;
use crate::decoration;
use crate::decoration::{parent_resize_state, DecorationsDataSatellite, TITLEBAR_HEIGHT};
use crate::geometry;
use crate::geometry::{add_i32, sub_i32, truncate_i16, PendingSurfaceState, WindowDims};
use crate::output;
use crate::output::{OutputScaleFactor, SurfaceScaleFactor, WindowConfigure};
use crate::role::{DecorationsData, SurfaceRole, ToplevelData, XdgSurfaceData};
use crate::state::{FocusData, InnerServerState};
use crate::window;
use crate::window::{wants_serverside_decorations, WindowOutputOffset};
use crate::windows;
use crate::world;
use crate::world::{Parts, SurfaceAttach};

verus! {

/// What a surface's entering an output leads to.
#[derive(Clone, Copy, Debug, PartialEq, Eq, Structural)]
pub struct SurfaceEnter {
    /// The X server is told that the surface entered the output.
    pub forward: bool,
    /// The window moved along with the output's origin.
    pub configure: Option<WindowConfigure>,
    /// The focused window changed outputs, so it is focused anew.
    pub refocus: bool,
    /// The viewport of the surface is to be updated.
    pub viewport: bool,
}

/// Logical lengths of a configuration that are to be multiplied by the surface's scale. A size
/// that is absent leaves the window's as it is.
#[derive(Clone, Copy, Debug, PartialEq, Eq, Structural)]
pub struct ConfigureWork {
    pub x: i32,
    pub y: i32,
    pub width: Option<i32>,
    pub height: Option<i32>,
    /// The height that is left below a title bar.
    pub height_below_titlebar: Option<i32>,
    pub scale: SurfaceScaleFactor,
}

/// The lengths of a [`ConfigureWork`], multiplied by the scale.
#[derive(Clone, Copy, Debug, PartialEq, Eq, Structural)]
pub struct ScaledConfigure {
    pub x: i32,
    pub y: i32,
    pub width: Option<u16>,
    pub height: Option<u16>,
    pub height_below_titlebar: Option<u16>,
}

/// What a surface held back until it was configured.
#[derive(Clone, Copy, Debug, PartialEq, Eq, Structural)]
pub struct HeldBack {
    pub attach: Option<SurfaceAttach>,
    pub callback: Option<u64>,
}

impl InnerServerState {
    /// Whether an entity is an output of the X server.
    pub open spec fn is_output(self, output: u64) -> bool {
        self.parts().contains_key(output) && self.parts()[output].output
    }

    /// A surface's entity after it entered an output.
    pub open spec fn entered_output(self, entity: u64, output: u64) -> Parts {
        let p = self.parts()[entity];
        let o = self.parts()[output];
        if p.window is Some && p.data is Some {
            let origin = output::output_origin(o.output_dims->0, self.global_output_offset);
            Parts {
                data: Some(p.data->0.on_offset(origin)),
                scale: if self.fractional_scale {
                    p.scale
                } else {
                    Some(SurfaceScaleFactor { n120: o.output_scale->0.in_120ths() as i64 })
                },
                on_output: Some(output),
                ..p
            }
        } else {
            Parts { on_output: Some(output), ..p }
        }
    }

    /// Whether a surface's window does not take part when the surface enters an output: nothing
    /// more than that the surface entered is known then.
    pub open spec fn output_unplaced(self, entity: u64, output: u64) -> bool {
        let p = self.parts()[entity];
        p.window is Some && p.data is Some && self.parts()[output].output_dims is None
    }

    /// Whether a surface's window takes its place on an output that the surface enters.
    pub open spec fn takes_place(self, entity: u64, output: u64) -> bool {
        let p = self.parts()[entity];
        self.is_output(output) && p.window is Some && p.data is Some
            && self.parts()[output].output_dims is Some
    }

    /// The fractional scale that an output learns from a surface that enters it.
    pub open spec fn learned_scale(self, entity: u64) -> Option<OutputScaleFactor> {
        let p = self.parts()[entity];
        if self.fractional_scale && p.window is Some && p.data is Some {
            Some(OutputScaleFactor::Fractional(p.scale->0.n120))
        } else {
            None
        }
    }

    /// Handles `wl_surface.enter`.
    pub fn surface_enter(&mut self, entity: u64, output: u64) -> (update: SurfaceEnter)
        requires
            old(self).parts().contains_key(entity),
            entity != output,
            old(self).takes_place(entity, output) ==> old(self).parts()[entity].scale is Some && (
            old(self).parts()[output].output_scale is Some || old(self).fractional_scale),
        ensures
            ({
                let p = old(self).parts()[entity];
                let o = old(self).parts()[output];
                let placed = old(self).is_output(output) && !old(self).output_unplaced(
                    entity,
                    output,
                );
                let windowed = placed && p.window is Some && p.data is Some;
                let origin = output::output_origin(
                    o.output_dims->0,
                    old(self).global_output_offset,
                );
                let learned = old(self).learned_scale(entity);
                let entered = old(self).parts().insert(
                    entity,
                    old(self).entered_output(entity, output),
                );
                &&& update.forward == old(self).is_output(output)
                &&& update.configure == (if windowed && p.data->0.offset_configuration(origin)
                    is Some {
                    Some(
                        WindowConfigure {
                            entity,
                            window: p.window->0,
                            dims: p.data->0.offset_configuration(origin)->0,
                        },
                    )
                } else {
                    None
                })
                &&& update.refocus == (windowed && old(self).last_focused_toplevel == p.window)
                &&& update.viewport == (windowed && !old(self).fractional_scale)
                &&& if !placed {
                    final(self).parts() == old(self).parts()
                } else if learned is Some && o.output_scale is Some {
                    final(self).parts() == entered.insert(
                        output,
                        Parts {
                            output_scale: Some(output::rescaled(o.output_scale->0, learned->0)),
                            ..o
                        },
                    )
                } else {
                    final(self).parts() == entered
                }
                &&& final(self).updated_outputs@ == (if placed && learned is Some && o.output_scale
                    is Some && output::rescaled(o.output_scale->0, learned->0) != o.output_scale->0 {
                    old(self).updated_outputs@.push(output)
                } else {
                    old(self).updated_outputs@
                })
            }),
            ({
                let p = old(self).parts()[entity];
                let o = old(self).parts()[output];
                let q = final(self).parts()[entity];
                let known = old(self).parts().contains_key(output) && o.output;
                let window = p.window is Some && p.data is Some;
                &&& update.forward == known
                &&& !known ==> update.configure is None && !update.refocus && !update.viewport
                &&& known && (!window || o.output_dims is Some) ==> q.on_output == Some(output)
                &&& known && window && o.output_dims is Some ==> {
                    &&& update.refocus <==> old(self).last_focused_toplevel == p.window
                    &&& update.viewport <==> !old(self).fractional_scale
                    &&& old(self).fractional_scale ==> q.scale == p.scale
                    &&& q.data->0.attrs.dims.width == p.data->0.attrs.dims.width
                    &&& q.data->0.attrs.dims.height == p.data->0.attrs.dims.height
                    &&& update.configure matches Some(configure) ==> configure.entity == entity
                        && p.window == Some(configure.window)
                }
            }),
            final(self).names() == old(self).names(),
            *final(self) == (InnerServerState {
                world: final(self).world,
                updated_outputs: final(self).updated_outputs,
                ..*old(self)
            }),
            old(self).wf() ==> final(self).wf(),
            old(self).one_entity_each() ==> final(self).one_entity_each(),
    {
        let mut update = SurfaceEnter {
            forward: false,
            configure: None,
            refocus: false,
            viewport: false,
        };
        let output_parts = match world::get(&self.world, output) {
            Some(parts) => parts,
            None => return update,
        };
        if !output_parts.output {
            return update;
        }
        update.forward = true;
        let mut parts = world::get(&self.world, entity).unwrap();
        let mut learned = None;
        if let (Some(window), Some(data)) = (parts.window, parts.data) {
            let dimensions = match output_parts.output_dims {
                Some(dimensions) => dimensions,
                None => return update,
            };
            let origin = WindowOutputOffset {
                x: sub_i32(dimensions.x, self.global_output_offset.x.value),
                y: sub_i32(dimensions.y, self.global_output_offset.y.value),
            };
            let mut data = data;
            if let Some(dims) = data.update_output_offset(origin) {
                update.configure = Some(WindowConfigure { entity, window, dims });
            }
            parts.data = Some(data);
            update.refocus = self.last_focused_toplevel == Some(window);
            if !self.fractional_scale {
                parts.scale = Some(output_parts.output_scale.unwrap().get());
                update.viewport = true;
            } else {
                learned = Some(OutputScaleFactor::Fractional(parts.scale.unwrap().n120));
            }
        }
        parts.on_output = Some(output);
        world::set(&mut self.world, entity, parts);
        assert(self.parts()[output] == output_parts);
        if let Some(factor) = learned {
            if self.update_output_scale(output, factor) {
                self.updated_outputs.push(output);
            }
        }
        update
    }

    /// Handles `wl_surface.leave`. Returns whether the X server is told.
    pub fn surface_leave(&mut self, entity: u64, output: u64) -> (forward: bool)
        requires
            old(self).parts().contains_key(entity),
        ensures
            forward == old(self).is_output(output),
            final(self).parts() == (if forward && old(self).parts()[entity].on_output == Some(
                output,
            ) {
                old(self).parts().insert(
                    entity,
                    Parts { on_output: None, ..old(self).parts()[entity] },
                )
            } else {
                old(self).parts()
            }),
            old(self).only_parts_changed(*final(self)),
            old(self).wf() ==> final(self).wf(),
            old(self).one_entity_each() ==> final(self).one_entity_each(),
    {
        match world::get(&self.world, output) {
            Some(output_parts) => if !output_parts.output {
                return false;
            },
            None => return false,
        }
        let parts = world::get(&self.world, entity).unwrap();
        if parts.on_output == Some(output) {
            world::set(&mut self.world, entity, Parts { on_output: None, ..parts });
        }
        true
    }

    /// Handles the fractional scale that a surface is told, in 120ths. Returns whether the
    /// viewport of the surface is to be updated, which it is for a window.
    pub fn preferred_scale(&mut self, entity: u64, n120: u32) -> (viewport: bool)
        requires
            old(self).parts().contains_key(entity),
            old(self).parts()[entity].on_output != Some(entity),
        ensures
            ({
                let p = old(self).parts()[entity];
                let scaled = old(self).parts().insert(
                    entity,
                    Parts { scale: Some(SurfaceScaleFactor { n120: n120 as i64 }), ..p },
                );
                let factor = OutputScaleFactor::Fractional(n120 as i64);
                let output = match p.on_output {
                    Some(output) => world::at(old(self).parts(), output),
                    None => None,
                };
                &&& viewport == (p.data is Some)
                &&& if output is Some && output->0.output_scale is Some {
                    &&& final(self).parts() == scaled.insert(
                        p.on_output->0,
                        Parts { output_scale: Some(factor), ..output->0 },
                    )
                    &&& final(self).updated_outputs@ == (if output->0.output_scale != Some(factor) {
                        old(self).updated_outputs@.push(p.on_output->0)
                    } else {
                        old(self).updated_outputs@
                    })
                } else {
                    final(self).parts() == scaled && final(self).updated_outputs@
                        == old(self).updated_outputs@
                }
            }),
            final(self).names() == old(self).names(),
            *final(self) == (InnerServerState {
                world: final(self).world,
                updated_outputs: final(self).updated_outputs,
                ..*old(self)
            }),
            old(self).wf() ==> final(self).wf(),
            old(self).one_entity_each() ==> final(self).one_entity_each(),
    {
        let parts = world::get(&self.world, entity).unwrap();
        let scale = Some(SurfaceScaleFactor { n120: n120 as i64 });
        world::set(&mut self.world, entity, Parts { scale, ..parts });
        if let Some(output) = parts.on_output {
            if self.update_output_scale(output, OutputScaleFactor::Fractional(n120 as i64)) {
                self.updated_outputs.push(output);
            }
        }
        parts.data.is_some()
    }

    /// Notes that the `xdg_surface` of an entity was configured. Returns the lengths that are to
    /// be scaled if a new configuration came with it.
    pub fn begin_configure(&mut self, entity: u64) -> (work: Option<ConfigureWork>)
        requires
            old(self).parts().contains_key(entity),
            old(self).parts()[entity].role matches Some(role) && role.xdg_surface() is Some,
            old(self).parts()[entity].scale is Some,
        ensures
            ({
                let p = old(self).parts()[entity];
                let role = p.role->0;
                &&& final(self).parts() == old(self).parts().insert(
                    entity,
                    Parts {
                        role: Some(
                            role.with_xdg(XdgSurfaceData { configured: true, pending: None }),
                        ),
                        ..p
                    },
                )
                &&& work == (match role.xdg_surface()->0.pending {
                    Some(pending) => Some(configure_work(pending, p.scale->0)),
                    None => None,
                })
            }),
            ({
                let p = old(self).parts()[entity];
                let pending = match p.role->0 {
                    SurfaceRole::Toplevel(toplevel) => toplevel->0.xdg.pending,
                    SurfaceRole::Popup(popup) => popup->0.xdg.pending,
                };
                &&& work is Some <==> pending is Some
                &&& pending matches Some(pending) ==> {
                    let work = work->0;
                    &&& pending.x >= 0 ==> work.x == pending.x
                    &&& pending.x < 0 ==> work.x == 0
                    &&& pending.y >= 0 ==> work.y == pending.y
                    &&& pending.y < 0 ==> work.y == 0
                    &&& pending.width > 0 ==> work.width == Some(pending.width)
                    &&& pending.width <= 0 ==> work.width is None
                    &&& pending.height > 0 ==> work.height == Some(pending.height)
                    &&& pending.height <= 0 ==> work.height is None
                    &&& pending.height >= 2 * TITLEBAR_HEIGHT ==> work.height_below_titlebar
                        == Some((pending.height - TITLEBAR_HEIGHT) as i32)
                    &&& 0 < pending.height < 2 * TITLEBAR_HEIGHT ==> work.height_below_titlebar
                        == Some(TITLEBAR_HEIGHT)
                    &&& pending.height <= 0 ==> work.height_below_titlebar is None
                    &&& work.scale == p.scale->0
                }
            }),
            old(self).only_parts_changed(*final(self)),
            old(self).wf() ==> final(self).wf(),
            old(self).one_entity_each() ==> final(self).one_entity_each(),
    {
        let parts = world::get(&self.world, entity).unwrap();
        let mut role = parts.role.unwrap();
        let pending = role.xdg().unwrap().pending;
        role.set_xdg(XdgSurfaceData { configured: true, pending: None });
        world::set(&mut self.world, entity, Parts { role: Some(role), ..parts });
        match pending {
            Some(pending) => {
                let height = positive(pending.height);
                Some(
                    ConfigureWork {
                        x: if pending.x > 0 {
                            pending.x
                        } else {
                            0
                        },
                        y: if pending.y > 0 {
                            pending.y
                        } else {
                            0
                        },
                        width: positive(pending.width),
                        height,
                        height_below_titlebar: match height {
                            Some(height) => Some(
                                if height - TITLEBAR_HEIGHT > TITLEBAR_HEIGHT {
                                    height - TITLEBAR_HEIGHT
                                } else {
                                    TITLEBAR_HEIGHT
                                },
                            ),
                            None => None,
                        },
                        scale: parts.scale.unwrap(),
                    },
                )
            },
            None => None,
        }
    }

    /// The rectangle that a window takes when it is configured. A title bar is taken off the
    /// height where one is drawn.
    pub open spec fn configured_state(p: Parts, scaled: ScaledConfigure) -> PendingSurfaceState {
        let data = p.data->0;
        let width = match scaled.width {
            Some(width) => width,
            None => data.attrs.dims.width,
        };
        let titled = match windows::toplevel_of(p) {
            Some(toplevel) => toplevel.decoration.satellite matches Some(d) && d.should_draw && width
                > 0,
            None => false,
        };
        let height = match (scaled.height, scaled.height_below_titlebar) {
            (Some(_), Some(below)) if titled => below,
            (Some(height), _) => height,
            (None, _) => data.attrs.dims.height,
        };
        PendingSurfaceState {
            x: geometry::low_i32(scaled.x + data.output_offset.x) as i32,
            y: geometry::low_i32(scaled.y + data.output_offset.y) as i32,
            width: width as i32,
            height: height as i32,
        }
    }

    /// Gives the window of an entity the rectangle that it was configured with, and leaves it to
    /// be sent to the X server.
    pub fn apply_configure(&mut self, entity: u64, scaled: ScaledConfigure)
        requires
            old(self).parts().contains_key(entity),
            old(self).parts()[entity].data is Some,
        ensures
            ({
                let p = old(self).parts()[entity];
                let state = InnerServerState::configured_state(p, scaled);
                final(self).parts() == old(self).parts().insert(
                    entity,
                    Parts {
                        data: Some(
                            p.data->0.with_dims(
                                WindowDims {
                                    x: geometry::low_i16(state.x as int) as i16,
                                    y: geometry::low_i16(state.y as int) as i16,
                                    width: state.width as u16,
                                    height: state.height as u16,
                                },
                            ),
                        ),
                        pending_dims: Some(state),
                        ..p
                    },
                )
            }),
            ({
                let p = old(self).parts()[entity];
                let was = p.data->0;
                let q = final(self).parts()[entity];
                let dims = q.data->0.attrs.dims;
                let pending = q.pending_dims->0;
                let x = scaled.x + was.output_offset.x;
                let y = scaled.y + was.output_offset.y;
                let titled = p.role matches Some(SurfaceRole::Toplevel(Some(toplevel)))
                    && toplevel.decoration.satellite matches Some(d) && d.should_draw;
                &&& q.data is Some
                &&& q.pending_dims is Some
                &&& scaled.width matches Some(width) ==> dims.width == width && pending.width
                    == width
                &&& scaled.width is None ==> dims.width == was.attrs.dims.width && pending.width
                    == was.attrs.dims.width
                &&& scaled.height is Some && !titled ==> dims.height == scaled.height->0
                    && pending.height == scaled.height->0
                &&& (scaled.height is Some && titled && dims.width > 0
                    && scaled.height_below_titlebar is Some) ==> dims.height
                    == scaled.height_below_titlebar->0 && pending.height
                    == scaled.height_below_titlebar->0
                &&& (scaled.height is Some && (dims.width == 0 || scaled.height_below_titlebar
                    is None)) ==> dims.height == scaled.height->0 && pending.height
                    == scaled.height->0
                &&& scaled.height is None ==> dims.height == was.attrs.dims.height
                    && pending.height == was.attrs.dims.height
                &&& i32::MIN <= x <= i32::MAX ==> pending.x == x
                &&& i32::MIN <= y <= i32::MAX ==> pending.y == y
                &&& i16::MIN <= pending.x <= i16::MAX ==> dims.x == pending.x
                &&& i16::MIN <= pending.y <= i16::MAX ==> dims.y == pending.y
            }),
            old(self).only_parts_changed(*final(self)),
            old(self).wf() ==> final(self).wf(),
            old(self).one_entity_each() ==> final(self).one_entity_each(),
    {
        let parts = world::get(&self.world, entity).unwrap();
        let mut data = parts.data.unwrap();
        let x: i32 = add_i32(scaled.x, data.output_offset.x);
        let y: i32 = add_i32(scaled.y, data.output_offset.y);
        let width: u16 = match scaled.width {
            Some(width) => width,
            None => data.attrs.dims.width,
        };
        let mut titled = false;
        if let Some(role) = parts.role {
            if let Some(toplevel) = role.toplevel() {
                if let Some(d) = toplevel.decoration.satellite {
                    titled = d.should_draw && width > 0;
                }
            }
        }
        let height: u16 = match scaled.height {
            Some(height) => match scaled.height_below_titlebar {
                Some(below) => if titled {
                    below
                } else {
                    height
                },
                None => height,
            },
            None => data.attrs.dims.height,
        };
        data.attrs.dims = WindowDims { x: truncate_i16(x), y: truncate_i16(y), width, height };
        let pending_dims = Some(
            PendingSurfaceState { x, y, width: width as i32, height: height as i32 },
        );
        world::set(&mut self.world, entity, Parts { data: Some(data), pending_dims, ..parts });
    }

    /// Hands out what a surface held back until it was configured.
    pub fn finish_configure(&mut self, entity: u64) -> (held: HeldBack)
        requires
            old(self).parts().contains_key(entity),
        ensures
            held.attach == old(self).parts()[entity].attach,
            held.callback == old(self).parts()[entity].callback,
            final(self).parts() == old(self).parts().insert(
                entity,
                Parts { attach: None, ..old(self).parts()[entity] },
            ),
            old(self).only_parts_changed(*final(self)),
            old(self).wf() ==> final(self).wf(),
            old(self).one_entity_each() ==> final(self).one_entity_each(),
    {
        let parts = world::get(&self.world, entity).unwrap();
        world::set(&mut self.world, entity, Parts { attach: None, ..parts });
        HeldBack { attach: parts.attach, callback: parts.callback }
    }

    /// Handles `xdg_toplevel.configure`. Returns whether the window is full screen now, if that
    /// changed.
    pub fn toplevel_configure(&mut self, entity: u64, width: i32, height: i32, fullscreen: bool) -> (changed:
        Option<bool>)
        requires
            old(self).parts().contains_key(entity),
            old(self).parts()[entity].role matches Some(role) && role.xdg_surface() is Some,
        ensures
            ({
                let p = old(self).parts()[entity];
                let xdg = XdgSurfaceData {
                    configured: p.role->0.xdg_surface()->0.configured,
                    pending: Some(PendingSurfaceState { x: 0, y: 0, width, height }),
                };
                let role = match p.role->0 {
                    SurfaceRole::Toplevel(Some(toplevel)) => SurfaceRole::Toplevel(
                        Some(fullscreened(toplevel, fullscreen)),
                    ),
                    role => role,
                };
                &&& changed == (match windows::toplevel_of(p) {
                    Some(toplevel) if toplevel.fullscreen != fullscreen => Some(fullscreen),
                    _ => None,
                })
                &&& final(self).parts() == old(self).parts().insert(
                    entity,
                    Parts { role: Some(role.with_xdg(xdg)), ..p },
                )
            }),
            ({
                let role = old(self).parts()[entity].role->0;
                let told = final(self).parts()[entity].role->0;
                let pending = Some(PendingSurfaceState { x: 0, y: 0, width, height });
                &&& final(self).parts()[entity].role is Some
                &&& role matches SurfaceRole::Toplevel(Some(toplevel)) ==> {
                    &&& told matches SurfaceRole::Toplevel(Some(after))
                    &&& after.fullscreen == fullscreen
                    &&& after.xdg.pending == pending
                    &&& after.xdg.configured == toplevel.xdg.configured
                    &&& changed is Some <==> toplevel.fullscreen != fullscreen
                    &&& changed is Some ==> changed == Some(fullscreen)
                }
                &&& role matches SurfaceRole::Popup(Some(popup)) ==> {
                    &&& told matches SurfaceRole::Popup(Some(after))
                    &&& after.xdg.pending == pending
                    &&& after.xdg.configured == popup.xdg.configured
                    &&& changed is None
                }
            }),
            old(self).only_parts_changed(*final(self)),
            old(self).wf() ==> final(self).wf(),
            old(self).one_entity_each() ==> final(self).one_entity_each(),
    {
        let parts = world::get(&self.world, entity).unwrap();
        let mut role = parts.role.unwrap();
        let configured = role.xdg().unwrap().configured;
        let mut changed = None;
        if let Some(toplevel) = role.toplevel() {
            if toplevel.fullscreen != fullscreen {
                changed = Some(fullscreen);
                let mut toplevel = toplevel;
                toplevel.fullscreen = fullscreen;
                if let Some(satellite) = toplevel.decoration.satellite {
                    let mut satellite = satellite;
                    satellite.handle_fullscreen(fullscreen);
                    toplevel.decoration.satellite = Some(satellite);
                }
                role = SurfaceRole::Toplevel(Some(toplevel));
            }
        }
        role.set_xdg(
            XdgSurfaceData {
                configured,
                pending: Some(PendingSurfaceState { x: 0, y: 0, width, height }),
            },
        );
        world::set(&mut self.world, entity, Parts { role: Some(role), ..parts });
        changed
    }

    /// Handles `xdg_popup.configure`. A popup that the window manager has to focus is focused with
    /// its first configuration; `needs_focus` tells whether it is such a popup.
    pub fn popup_configure(&mut self, entity: u64, pending: PendingSurfaceState, needs_focus: bool)
        requires
            old(self).parts().contains_key(entity),
            old(self).parts()[entity].role matches Some(role) && role.xdg_surface() is Some,
            needs_focus && !old(self).parts()[entity].role->0.xdg_surface()->0.configured ==> old(
                self,
            ).parts()[entity].window is Some,
        ensures
            ({
                let p = old(self).parts()[entity];
                let configured = p.role->0.xdg_surface()->0.configured;
                let xdg = XdgSurfaceData { configured, pending: Some(pending) };
                &&& final(self).parts() == old(self).parts().insert(
                    entity,
                    Parts { role: Some(p.role->0.with_xdg(xdg)), ..p },
                )
                &&& final(self).to_focus == (if needs_focus && !configured {
                    Some(FocusData { window: p.window->0, output: None })
                } else {
                    old(self).to_focus
                })
            }),
            final(self).parts()[entity].role matches Some(SurfaceRole::Popup(Some(popup)))
                ==> popup.xdg.pending == Some(pending),
            final(self).parts()[entity].role matches Some(SurfaceRole::Toplevel(Some(toplevel)))
                ==> toplevel.xdg.pending == Some(pending),
            final(self).names() == old(self).names(),
            *final(self) == (InnerServerState {
                world: final(self).world,
                to_focus: final(self).to_focus,
                ..*old(self)
            }),
            old(self).wf() ==> final(self).wf(),
            old(self).one_entity_each() ==> final(self).one_entity_each(),
    {
        let parts = world::get(&self.world, entity).unwrap();
        let mut role = parts.role.unwrap();
        let configured = role.xdg().unwrap().configured;
        role.set_xdg(XdgSurfaceData { configured, pending: Some(pending) });
        world::set(&mut self.world, entity, Parts { role: Some(role), ..parts });
        if needs_focus && !configured {
            self.to_focus = Some(FocusData { window: parts.window.unwrap(), output: None });
        }
    }

    /// Handles the decoration mode that the compositor settled on: where it leaves decorations to
    /// the client but the window wants them, they are drawn here. `pool` tells whether buffers for
    /// them can be had. Returns whether decorations were created.
    pub fn decoration_configure(&mut self, entity: u64, server_side: bool, pool: bool) -> (created:
        bool)
        requires
            old(self).parts().contains_key(entity),
        ensures
            ({
                let p = old(self).parts()[entity];
                match settled_satellite(p, server_side, pool) {
                    Some(satellite) => {
                        &&& created == (satellite is Some)
                        &&& final(self).parts() == old(self).parts().insert(
                            entity,
                            with_satellite(p, satellite),
                        )
                    },
                    None => !created && final(self).parts() == old(self).parts(),
                }
            }),
            old(self).only_parts_changed(*final(self)),
            old(self).wf() ==> final(self).wf(),
            old(self).one_entity_each() ==> final(self).one_entity_each(),
    {
        let parts = world::get(&self.world, entity).unwrap();
        match settle_satellite(&parts, server_side, pool) {
            Some(satellite) => {
                world::set(&mut self.world, entity, replace_satellite(&parts, satellite));
                satellite.is_some()
            },
            None => false,
        }
    }
}

/// Whether the compositor is left to decorate the window of an entity.
pub open spec fn drawn_by_compositor(p: Parts, server_side: bool) -> bool {
    server_side || !window::wants_serverside(p.data->0.attrs.decorations)
}

/// The decorations that an entity's toplevel has once the compositor settled on a mode; `None`
/// if nothing changes, because there is no toplevel or decorations cannot be drawn.
pub open spec fn settled_satellite(p: Parts, server_side: bool, pool: bool) -> Option<
    Option<DecorationsDataSatellite>,
> {
    if p.data is None || windows::toplevel_of(p) is None {
        None
    } else if drawn_by_compositor(p, server_side) {
        Some(None)
    } else if pool {
        Some(
            Some(
                DecorationsDataSatellite::fresh(
                    true,
                    decoration::resize_state(p).0,
                    decoration::resize_state(p).1,
                ),
            ),
        )
    } else {
        None
    }
}

/// An entity with other decorations on its toplevel.
pub open spec fn with_satellite(p: Parts, satellite: Option<DecorationsDataSatellite>) -> Parts {
    match windows::toplevel_of(p) {
        Some(toplevel) => Parts {
            role: Some(
                SurfaceRole::Toplevel(
                    Some(
                        ToplevelData {
                            decoration: DecorationsData { wl: toplevel.decoration.wl, satellite },
                            ..toplevel
                        },
                    ),
                ),
            ),
            ..p
        },
        None => p,
    }
}

fn settle_satellite(parts: &Parts, server_side: bool, pool: bool) -> (settled: Option<
    Option<DecorationsDataSatellite>,
>)
    ensures
        settled == settled_satellite(*parts, server_side, pool),
{
    let data = match parts.data {
        Some(data) => data,
        None => return None,
    };
    match parts.role {
        Some(role) => if role.toplevel().is_none() {
            return None;
        },
        None => return None,
    }
    if server_side || !wants_serverside_decorations(data.attrs.decorations) {
        return Some(None);
    }
    if !pool {
        return None;
    }
    let (resizable, resize_input_enabled) = parent_resize_state(parts);
    Some(Some(DecorationsDataSatellite::new(true, resizable, resize_input_enabled)))
}

/// Puts other decorations on an entity's toplevel.
pub fn replace_satellite(parts: &Parts, satellite: Option<DecorationsDataSatellite>) -> (replaced:
    Parts)
    ensures
        replaced == with_satellite(*parts, satellite),
{
    match parts.role {
        Some(role) => match role.toplevel() {
            Some(toplevel) => {
                let decoration = DecorationsData { wl: toplevel.decoration.wl, satellite };
                Parts {
                    role: Some(SurfaceRole::Toplevel(Some(ToplevelData { decoration, ..toplevel }))),
                    ..*parts
                }
            },
            None => *parts,
        },
        None => *parts,
    }
}

/// A length that is given, if it is.
pub open spec fn given(length: i32) -> Option<i32> {
    if length > 0 {
        Some(length)
    } else {
        None
    }
}

/// A length that is given, if it is.
fn positive(length: i32) -> (r: Option<i32>)
    ensures
        r == given(length),
{
    if length > 0 {
        Some(length)
    } else {
        None
    }
}

/// What a window of the given height leaves below a title bar: as much as there is, but never
/// less than the title bar's own height.
pub open spec fn below_titlebar(height: int) -> int {
    if height - TITLEBAR_HEIGHT > TITLEBAR_HEIGHT {
        height - TITLEBAR_HEIGHT
    } else {
        TITLEBAR_HEIGHT as int
    }
}

/// The lengths of a configuration that are to be scaled. Positions are not negative.
pub open spec fn configure_work(
    pending: PendingSurfaceState,
    scale: SurfaceScaleFactor,
) -> ConfigureWork {
    ConfigureWork {
        x: if pending.x > 0 {
            pending.x
        } else {
            0
        },
        y: if pending.y > 0 {
            pending.y
        } else {
            0
        },
        width: given(pending.width),
        height: given(pending.height),
        height_below_titlebar: if pending.height > 0 {
            Some(below_titlebar(pending.height as int) as i32)
        } else {
            None
        },
        scale,
    }
}

/// A toplevel after it was told whether it is full screen: its decorations go away with it.
pub open spec fn fullscreened(toplevel: ToplevelData, fullscreen: bool) -> ToplevelData {
    if toplevel.fullscreen == fullscreen {
        toplevel
    } else {
        ToplevelData {
            fullscreen,
            decoration: DecorationsData {
                satellite: match toplevel.decoration.satellite {
                    Some(satellite) => Some(decoration::fullscreen_handled(satellite, fullscreen)),
                    None => None,
                },
                ..toplevel.decoration
            },
            ..toplevel
        }
    }
}

/// A window that its compositor gave a size keeps at least its own height below the title bar.
pub proof fn law_title_bar_leaves_room(height: int)
    requires
        height > 0,
    ensures
        below_titlebar(height) >= TITLEBAR_HEIGHT,
        height >= 2 * TITLEBAR_HEIGHT ==> below_titlebar(height) + TITLEBAR_HEIGHT == height,
{
}

/// The rectangle that a window takes is the one that it was given: each length that came is taken,
/// each that did not come stays, and the place counts from the output's. Only where a title bar is
/// drawn here does the height lose by it.
pub proof fn law_configured_rectangle(p: Parts, scaled: ScaledConfigure)
    requires
        p.data is Some,
    ensures
        ({
            let was = p.data->0;
            let state = InnerServerState::configured_state(p, scaled);
            let titled = p.role matches Some(SurfaceRole::Toplevel(Some(toplevel)))
                && toplevel.decoration.satellite matches Some(d) && d.should_draw;
            let x = scaled.x + was.output_offset.x;
            let y = scaled.y + was.output_offset.y;
            &&& scaled.width matches Some(width) ==> state.width == width
            &&& scaled.width is None ==> state.width == was.attrs.dims.width
            &&& scaled.height is Some && !titled ==> state.height == scaled.height->0
            &&& scaled.height is None ==> state.height == was.attrs.dims.height
            &&& scaled.height is Some && titled && state.width > 0
                && scaled.height_below_titlebar is Some ==> state.height
                == scaled.height_below_titlebar->0
            &&& i32::MIN <= x <= i32::MAX ==> state.x == x
            &&& i32::MIN <= y <= i32::MAX ==> state.y == y
        }),
{
}

/// A length that the compositor gives is handed on as it is, and one that it leaves open is not
/// made up. A place is never negative.
pub proof fn law_given_lengths_are_kept(pending: PendingSurfaceState, scale: SurfaceScaleFactor)
    ensures
        ({
            let work = configure_work(pending, scale);
            &&& work.width is Some <==> pending.width > 0
            &&& work.width matches Some(width) ==> width == pending.width
            &&& work.height is Some <==> pending.height > 0
            &&& work.height matches Some(height) ==> height == pending.height
            &&& work.height_below_titlebar is Some <==> pending.height > 0
            &&& work.x >= 0 && work.x >= pending.x && (work.x == 0 || work.x == pending.x)
            &&& work.y >= 0 && work.y >= pending.y && (work.y == 0 || work.y == pending.y)
            &&& work.scale == scale
        }),
{
}

/// A compositor that draws the decorations, or a window that draws its own, leaves none to be
/// drawn here; a window that wants them from a compositor that does not draw them gets them here
/// where they can be drawn.
pub proof fn law_somebody_decorates(p: Parts, server_side: bool, pool: bool)
    requires
        p.data is Some,
        p.role matches Some(SurfaceRole::Toplevel(Some(_))),
    ensures
        ({
            let settled = settled_satellite(p, server_side, pool);
            let decorations = p.data->0.attrs.decorations;
            let own = decorations matches Some(d) && !d.serverside;
            &&& server_side || own ==> settled == Some(None::<DecorationsDataSatellite>)
            &&& !server_side && !own && pool ==> (settled matches Some(Some(satellite))
                && satellite.should_draw)
            &&& !server_side && !own && !pool ==> settled is None
        }),
{
}

/// Other decorations on a toplevel change nothing else about it.
pub proof fn law_replaced_decorations(p: Parts, satellite: Option<DecorationsDataSatellite>)
    ensures
        ({
            let q = with_satellite(p, satellite);
            &&& p.role matches Some(SurfaceRole::Toplevel(Some(toplevel))) ==> {
                &&& q.role matches Some(SurfaceRole::Toplevel(Some(after)))
                &&& after.decoration.satellite == satellite
                &&& after.decoration.wl == toplevel.decoration.wl
                &&& after.xdg == toplevel.xdg
                &&& after.fullscreen == toplevel.fullscreen
                &&& after.maximized == toplevel.maximized
                &&& after.tiled == toplevel.tiled
                &&& after.minimized == toplevel.minimized
            }
            &&& !(p.role matches Some(SurfaceRole::Toplevel(Some(_)))) ==> q == p
            &&& Parts { role: p.role, ..q } == p
        }),
{
}

/// A toplevel is full screen exactly if it was last told so, and being told so again changes
/// nothing.
pub proof fn law_full_screen_is_as_told(toplevel: ToplevelData, fullscreen: bool)
    ensures
        fullscreened(toplevel, fullscreen).fullscreen == fullscreen,
        fullscreened(fullscreened(toplevel, fullscreen), fullscreen) == fullscreened(
            toplevel,
            fullscreen,
        ),
        fullscreened(toplevel, fullscreen).xdg == toplevel.xdg,
        fullscreened(toplevel, fullscreen).maximized == toplevel.maximized,
        fullscreened(toplevel, fullscreen).decoration.wl == toplevel.decoration.wl,
        fullscreened(toplevel, fullscreen).decoration.satellite is Some
            == toplevel.decoration.satellite is Some,
{
}

/// A surface that enters an output is on it. Its window takes the output's origin, and its scale
/// where no fractional scale is told; otherwise the output learns the surface's scale.
pub proof fn law_entering_an_output(state: InnerServerState, entity: u64, output: u64)
    requires
        state.parts().contains_key(entity),
        state.parts().contains_key(output),
    ensures
        ({
            let p = state.parts()[entity];
            let o = state.parts()[output];
            let q = state.entered_output(entity, output);
            let window = p.window is Some && p.data is Some;
            let corner = state.global_output_offset;
            &&& state.is_output(output) <==> o.output
            &&& q.on_output == Some(output)
            &&& !window ==> q.data == p.data && q.scale == p.scale
            &&& window && state.fractional_scale ==> q.scale == p.scale
            &&& (window && !state.fractional_scale && o.output_scale matches Some(
                OutputScaleFactor::Output(whole),
            )) ==> (q.scale matches Some(scale) && scale.n120 == 120
                * o.output_scale->0->Output_0)
            &&& window ==> q.data is Some && q.data->0.output_offset_initialized
            &&& window && i32::MIN <= o.output_dims->0.x - corner.x.value <= i32::MAX
                ==> q.data->0.output_offset.x == o.output_dims->0.x - corner.x.value
            &&& window && i32::MIN <= o.output_dims->0.y - corner.y.value <= i32::MAX
                ==> q.data->0.output_offset.y == o.output_dims->0.y - corner.y.value
            &&& q.window == p.window && q.role == p.role && q.surface == p.surface
            &&& state.learned_scale(entity) is Some <==> state.fractional_scale && window
            &&& state.learned_scale(entity) is Some ==> state.learned_scale(entity) == Some(
                OutputScaleFactor::Fractional(p.scale->0.n120),
            )
            &&& state.takes_place(entity, output) <==> o.output && window && o.output_dims is Some
            &&& state.output_unplaced(entity, output) <==> window && o.output_dims is None
        }),
{
}

} // verus!
