//! The title bar: its buttons, what the pointer does to them, and when things are drawn.

use vstd::prelude::*;
use crate::decoration::{
    DecorationAction, DecorationButtonKind, DecorationPart, DecorationsBox, DecorationsButtons,
    DecorationsDataSatellite, FIXED_UNIT,
};
use crate::frame;
use crate::frame::resize_edge_for_frame_rect;
use crate::resize::ResizeEdge;
use crate::role::ToplevelCapabilities;

verus! {

/// The diameter of a button.
pub const BUTTON_SIZE: i32 = 24;

/// The space between two buttons.
pub const CONTROLS_SPACING: i32 = 16;

/// The space between the last button and the edge of the title bar.
pub const CONTROLS_EDGE_PADDING: i32 = 11;

/// What is to be drawn.
#[derive(Clone, Copy, Debug, PartialEq, Eq, Structural)]
pub enum DrawDecision {
    Nothing,
    /// Both surfaces lose their buffers.
    RemoveBuffers,
    /// Everything is drawn; where a generation is given, a frame callback for it is asked for
    /// first.
    Redraw { callback: Option<u64> },
}

/// What a frame callback leads to.
#[derive(Clone, Copy, Debug, PartialEq, Eq, Structural)]
pub struct FrameOutcome {
    pub draw: DrawDecision,
    /// Animations go one step on.
    pub tick: bool,
}

/// How a title bar is drawn.
#[derive(Clone, Copy, Debug, PartialEq, Eq, Structural)]
pub struct TitlebarPlan {
    /// Where the surface is put, above the window.
    pub y: i32,
    pub width: i32,
    pub height: i32,
    /// The pixels kept clear on either side of the title.
    pub title_side_reservation: i32,
    /// The pixels that the title may take.
    pub title_width: i32,
}

/// What the pointer's moving over decorations changed.
#[derive(Clone, Copy, Debug, PartialEq, Eq, Structural)]
pub struct MotionOutcome {
    pub edge: Option<ResizeEdge>,
    /// A button looks different now.
    pub buttons_changed: bool,
}

/// The number of buttons that are shown.
pub open spec fn shown_buttons(capabilities: ToplevelCapabilities) -> int {
    1 + (if capabilities.maximize {
        1int
    } else {
        0
    }) + (if capabilities.minimize {
        1int
    } else {
        0
    })
}

/// The room that a number of buttons takes.
pub open spec fn buttons_room(count: int) -> int {
    if count == 0 {
        0
    } else {
        CONTROLS_EDGE_PADDING + BUTTON_SIZE * count + CONTROLS_SPACING * (count - 1)
    }
}

/// Where the `index`th button that is shown starts.
pub open spec fn button_left(width: int, capabilities: ToplevelCapabilities, index: int) -> int {
    let room = buttons_room(shown_buttons(capabilities));
    (if width > room {
        width - room
    } else {
        0
    }) + index * (BUTTON_SIZE + CONTROLS_SPACING)
}

/// A button at a place, with the rest of it unchanged. Places are in fixed point.
pub open spec fn placed(button: DecorationsBox, left: int, bar_height: int) -> DecorationsBox {
    let top = if bar_height > BUTTON_SIZE {
        (bar_height - BUTTON_SIZE) * FIXED_UNIT / 2
    } else {
        0
    };
    DecorationsBox {
        left: (left * FIXED_UNIT) as i64,
        top: top as i64,
        right: ((left + BUTTON_SIZE) * FIXED_UNIT) as i64,
        bottom: (top + BUTTON_SIZE * FIXED_UNIT) as i64,
        ..button
    }
}

/// A button that is not shown.
pub open spec fn hidden(button: DecorationsBox) -> DecorationsBox {
    DecorationsBox { left: 0, top: 0, right: 0, bottom: 0, ..button }
}

/// The buttons of a title bar, laid out from right to left with the closing one last.
pub open spec fn laid_out(
    buttons: DecorationsButtons,
    width: int,
    bar_height: int,
    capabilities: ToplevelCapabilities,
) -> DecorationsButtons {
    let before_maximize = if capabilities.minimize {
        1int
    } else {
        0
    };
    let before_close = shown_buttons(capabilities) - 1;
    DecorationsButtons {
        minimize: if capabilities.minimize {
            placed(buttons.minimize, button_left(width, capabilities, 0), bar_height)
        } else {
            hidden(buttons.minimize)
        },
        maximize: if capabilities.maximize {
            placed(
                buttons.maximize,
                button_left(width, capabilities, before_maximize),
                bar_height,
            )
        } else {
            hidden(buttons.maximize)
        },
        close: placed(buttons.close, button_left(width, capabilities, before_close), bar_height),
    }
}

impl DecorationsBox {
    /// Whether a position is on the button.
    pub open spec fn covers(self, x: int, y: int) -> bool {
        self.left <= x <= self.right && self.top <= y <= self.bottom
    }

    /// Whether a position is on the button.
    pub fn contains(&self, x: i64, y: i64) -> (r: bool)
        ensures
            r == self.covers(x as int, y as int),
    {
        self.left <= x && x <= self.right && self.top <= y && y <= self.bottom
    }

    fn set_hovered(&mut self, hovered: bool) -> (changed: bool)
        ensures
            *final(self) == (DecorationsBox { hovered, ..*old(self) }),
            changed == (old(self).hovered != hovered),
    {
        let changed = self.hovered != hovered;
        self.hovered = hovered;
        changed
    }

    fn set_active(&mut self, active: bool) -> (changed: bool)
        ensures
            *final(self) == (DecorationsBox { active, ..*old(self) }),
            changed == (old(self).active != active),
    {
        let changed = self.active != active;
        self.active = active;
        changed
    }
}

/// The button that a position is on. Buttons that are not shown cannot be hit.
pub open spec fn button_at(
    buttons: DecorationsButtons,
    capabilities: ToplevelCapabilities,
    x: int,
    y: int,
) -> Option<DecorationButtonKind> {
    if buttons.close.covers(x, y) {
        Some(DecorationButtonKind::Close)
    } else if capabilities.maximize && buttons.maximize.covers(x, y) {
        Some(DecorationButtonKind::Maximize)
    } else if capabilities.minimize && buttons.minimize.covers(x, y) {
        Some(DecorationButtonKind::Minimize)
    } else {
        None
    }
}

/// The buttons with the pointer on one of them, or on none.
pub open spec fn hovering(
    buttons: DecorationsButtons,
    kind: Option<DecorationButtonKind>,
) -> DecorationsButtons {
    DecorationsButtons {
        minimize: DecorationsBox {
            hovered: kind == Some(DecorationButtonKind::Minimize),
            ..buttons.minimize
        },
        maximize: DecorationsBox {
            hovered: kind == Some(DecorationButtonKind::Maximize),
            ..buttons.maximize
        },
        close: DecorationsBox {
            hovered: kind == Some(DecorationButtonKind::Close),
            ..buttons.close
        },
    }
}

/// The buttons with one of them pressed, or none.
pub open spec fn pressing(
    buttons: DecorationsButtons,
    kind: Option<DecorationButtonKind>,
) -> DecorationsButtons {
    DecorationsButtons {
        minimize: DecorationsBox {
            active: kind == Some(DecorationButtonKind::Minimize),
            ..buttons.minimize
        },
        maximize: DecorationsBox {
            active: kind == Some(DecorationButtonKind::Maximize),
            ..buttons.maximize
        },
        close: DecorationsBox {
            active: kind == Some(DecorationButtonKind::Close),
            ..buttons.close
        },
    }
}

/// The button that the pointer is on.
pub open spec fn hovered_button(
    buttons: DecorationsButtons,
    capabilities: ToplevelCapabilities,
) -> Option<DecorationButtonKind> {
    if buttons.close.hovered {
        Some(DecorationButtonKind::Close)
    } else if capabilities.maximize && buttons.maximize.hovered {
        Some(DecorationButtonKind::Maximize)
    } else if capabilities.minimize && buttons.minimize.hovered {
        Some(DecorationButtonKind::Minimize)
    } else {
        None
    }
}

/// What a button does.
pub open spec fn action_of(kind: DecorationButtonKind) -> DecorationAction {
    match kind {
        DecorationButtonKind::Close => DecorationAction::Close,
        DecorationButtonKind::Maximize => DecorationAction::ToggleMaximized,
        DecorationButtonKind::Minimize => DecorationAction::Minimize,
    }
}

/// What a button does.
pub fn button_action(kind: DecorationButtonKind) -> (action: DecorationAction)
    ensures
        action == action_of(kind),
{
    match kind {
        DecorationButtonKind::Close => DecorationAction::Close,
        DecorationButtonKind::Maximize => DecorationAction::ToggleMaximized,
        DecorationButtonKind::Minimize => DecorationAction::Minimize,
    }
}

/// The room that a number of buttons takes.
pub fn button_total_width(count: i32) -> (width: i32)
    requires
        0 <= count <= 3,
    ensures
        width == buttons_room(count as int),
{
    if count == 0 {
        return 0;
    }
    CONTROLS_EDGE_PADDING + BUTTON_SIZE * count + CONTROLS_SPACING * (count - 1)
}

impl DecorationsButtons {
    /// The number of buttons that are shown.
    pub fn visible_button_count(&self, capabilities: ToplevelCapabilities) -> (count: i32)
        ensures
            count == shown_buttons(capabilities),
    {
        let mut count: i32 = 1;
        if capabilities.maximize {
            count += 1;
        }
        if capabilities.minimize {
            count += 1;
        }
        count
    }

    /// Lays the buttons out on a title bar of the given size.
    pub fn layout(&mut self, width: i32, bar_height: i32, capabilities: ToplevelCapabilities)
        ensures
            *final(self) == laid_out(*old(self), width as int, bar_height as int, capabilities),
    {
        let room: i32 = button_total_width(self.visible_button_count(capabilities));
        let mut x: i64 = if width > room {
            width as i64 - room as i64
        } else {
            0
        };
        let top: i64 = if bar_height > BUTTON_SIZE {
            (bar_height as i64 - BUTTON_SIZE as i64) * FIXED_UNIT / 2
        } else {
            0
        };
        let bottom: i64 = top + BUTTON_SIZE as i64 * FIXED_UNIT;
        let size: i64 = BUTTON_SIZE as i64;
        let step: i64 = BUTTON_SIZE as i64 + CONTROLS_SPACING as i64;
        if capabilities.minimize {
            self.minimize = DecorationsBox {
                left: x * FIXED_UNIT,
                top,
                right: (x + size) * FIXED_UNIT,
                bottom,
                ..self.minimize
            };
            x = x + step;
        } else {
            self.minimize = DecorationsBox {
                left: 0,
                top: 0,
                right: 0,
                bottom: 0,
                ..self.minimize
            };
        }
        if capabilities.maximize {
            self.maximize = DecorationsBox {
                left: x * FIXED_UNIT,
                top,
                right: (x + size) * FIXED_UNIT,
                bottom,
                ..self.maximize
            };
            x = x + step;
        } else {
            self.maximize = DecorationsBox {
                left: 0,
                top: 0,
                right: 0,
                bottom: 0,
                ..self.maximize
            };
        }
        self.close = DecorationsBox {
            left: x * FIXED_UNIT,
            top,
            right: (x + size) * FIXED_UNIT,
            bottom,
            ..self.close
        };
    }

    fn hover(&mut self, kind: Option<DecorationButtonKind>) -> (changed: bool)
        ensures
            *final(self) == hovering(*old(self), kind),
            changed == (*final(self) != *old(self)),
    {
        let minimize = self.minimize.set_hovered(kind == Some(DecorationButtonKind::Minimize));
        let maximize = self.maximize.set_hovered(kind == Some(DecorationButtonKind::Maximize));
        let close = self.close.set_hovered(kind == Some(DecorationButtonKind::Close));
        minimize || maximize || close
    }

    /// Moves the pointer to a position on the title bar. Returns whether a button changed.
    pub fn check_hovered(&mut self, x: i64, y: i64, capabilities: ToplevelCapabilities) -> (changed:
        bool)
        ensures
            *final(self) == hovering(
                *old(self),
                button_at(*old(self), capabilities, x as int, y as int),
            ),
            changed == (*final(self) != *old(self)),
    {
        let kind = if self.close.contains(x, y) {
            Some(DecorationButtonKind::Close)
        } else if capabilities.maximize && self.maximize.contains(x, y) {
            Some(DecorationButtonKind::Maximize)
        } else if capabilities.minimize && self.minimize.contains(x, y) {
            Some(DecorationButtonKind::Minimize)
        } else {
            None
        };
        self.hover(kind)
    }

    /// Moves the pointer off the buttons. Returns whether a button changed.
    pub fn clear_hovered(&mut self) -> (changed: bool)
        ensures
            *final(self) == hovering(*old(self), None),
            changed == (*final(self) != *old(self)),
    {
        self.hover(None)
    }

    /// Shows one button pressed, or none. Returns whether a button changed.
    pub fn set_active(&mut self, kind: Option<DecorationButtonKind>) -> (changed: bool)
        ensures
            *final(self) == pressing(*old(self), kind),
            changed == (*final(self) != *old(self)),
    {
        let minimize = self.minimize.set_active(kind == Some(DecorationButtonKind::Minimize));
        let maximize = self.maximize.set_active(kind == Some(DecorationButtonKind::Maximize));
        let close = self.close.set_active(kind == Some(DecorationButtonKind::Close));
        minimize || maximize || close
    }

    /// The button that the pointer is on.
    pub fn hovered_kind(&self, capabilities: ToplevelCapabilities) -> (kind: Option<
        DecorationButtonKind,
    >)
        ensures
            kind == hovered_button(*self, capabilities),
    {
        if self.close.hovered {
            Some(DecorationButtonKind::Close)
        } else if capabilities.maximize && self.maximize.hovered {
            Some(DecorationButtonKind::Maximize)
        } else if capabilities.minimize && self.minimize.hovered {
            Some(DecorationButtonKind::Minimize)
        } else {
            None
        }
    }

    /// Moves the pointer to a position on the title bar, or off it. The button that was pressed
    /// looks pressed while the pointer is on it. Returns the button that the pointer is on, and
    /// whether a button changed.
    fn point(
        &mut self,
        position: Option<(i64, i64)>,
        capabilities: ToplevelCapabilities,
        pressed: Option<DecorationButtonKind>,
    ) -> (outcome: (Option<DecorationButtonKind>, bool))
        ensures
            outcome.0 == (match position {
                Some((x, y)) => button_at(*old(self), capabilities, x as int, y as int),
                None => None,
            }),
            *final(self) == pressing(
                hovering(*old(self), outcome.0),
                if outcome.0 is Some && pressed == outcome.0 {
                    outcome.0
                } else {
                    None
                },
            ),
            outcome.1 == (*final(self) != *old(self)),
    {
        let hover_changed = match position {
            Some((x, y)) => self.check_hovered(x, y, capabilities),
            None => self.clear_hovered(),
        };
        let hovered_kind = self.hovered_kind(capabilities);
        let active_kind = match (pressed, hovered_kind) {
            (Some(pressed), Some(hovered)) => if pressed == hovered {
                Some(pressed)
            } else {
                None
            },
            _ => None,
        };
        let active_changed = self.set_active(active_kind);
        (hovered_kind, hover_changed || active_changed)
    }

    /// What the button that the pointer is on does.
    pub fn hovered_action(&self, capabilities: ToplevelCapabilities) -> (action: Option<
        DecorationAction,
    >)
        ensures
            action == (match hovered_button(*self, capabilities) {
                Some(kind) => Some(action_of(kind)),
                None => None,
            }),
    {
        match self.hovered_kind(capabilities) {
            Some(kind) => Some(button_action(kind)),
            None => None,
        }
    }
}

impl DecorationsDataSatellite {
    /// Whether decorations are drawn around a window of the given width.
    pub open spec fn draws(self, width: int) -> bool {
        width > 0 && self.should_draw
    }

    /// Whether decorations are drawn around a window of the given width.
    #[must_use]
    pub fn will_draw_decorations(&self, width: i32) -> (r: bool)
        ensures
            r == self.draws(width as int),
    {
        width > 0 && self.should_draw
    }

    /// Asks for a frame callback to go on animating with, unless one is under way. `animating`
    /// tells whether anything is being animated. Returns the generation of the callback.
    pub fn request_animation_frame(&mut self, animating: bool) -> (callback: Option<u64>)
        ensures
            if old(self).pending_animation_frame is Some || !animating || !old(self).draw_titlebar
                || !old(self).draws(old(self).width as int) {
                callback is None && *final(self) == *old(self)
            } else {
                let generation = next_generation(old(self).animation_frame_generation);
                &&& callback == Some(generation)
                &&& *final(self) == (DecorationsDataSatellite {
                    animation_frame_generation: generation,
                    pending_animation_frame: Some(generation),
                    ..*old(self)
                })
            },
    {
        if self.pending_animation_frame.is_some() || !animating || !self.draw_titlebar
            || !self.should_draw || self.width <= 0 {
            return None;
        }
        let generation: u64 = self.animation_frame_generation.wrapping_add(1);
        self.animation_frame_generation = generation;
        self.pending_animation_frame = Some(generation);
        Some(generation)
    }

    /// Decorations that asked for a frame callback to go on resizing with, unless one is under
    /// way.
    pub open spec fn resize_frame_requested(self) -> DecorationsDataSatellite {
        if self.pending_resize_frame is Some || !self.resize_interaction_active || !self.draws(
            self.width as int,
        ) {
            self
        } else {
            let generation = next_generation(self.animation_frame_generation);
            DecorationsDataSatellite {
                animation_frame_generation: generation,
                pending_resize_frame: Some(generation),
                ..self
            }
        }
    }

    /// Asks for a frame callback to go on resizing with, unless one is under way. Returns the
    /// generation of the callback.
    pub fn request_resize_frame(&mut self) -> (callback: Option<u64>)
        ensures
            *final(self) == old(self).resize_frame_requested(),
            callback == (if *final(self) == *old(self) {
                None
            } else {
                final(self).pending_resize_frame
            }),
    {
        if self.pending_resize_frame.is_some() || !self.resize_interaction_active
            || !self.should_draw || self.width <= 0 {
            return None;
        }
        let generation: u64 = self.animation_frame_generation.wrapping_add(1);
        self.animation_frame_generation = generation;
        self.pending_resize_frame = Some(generation);
        Some(generation)
    }

    /// Decorations of a window of the given size.
    pub open spec fn sized(self, width: i32, height: i32) -> DecorationsDataSatellite {
        DecorationsDataSatellite { width, height, ..self }
    }

    /// What is drawn around a window of the given size. While the window is being resized, at most
    /// one drawing is under way at a time.
    pub open spec fn draw_decision(self, width: i32) -> DrawDecision {
        if !self.draws(width as int) {
            if self.remove_buffer {
                DrawDecision::RemoveBuffers
            } else {
                DrawDecision::Nothing
            }
        } else if !self.resize_interaction_active {
            DrawDecision::Redraw { callback: None }
        } else if self.pending_resize_frame is Some {
            DrawDecision::Nothing
        } else {
            DrawDecision::Redraw {
                callback: Some(next_generation(self.animation_frame_generation)),
            }
        }
    }

    /// The decorations once it is decided what is drawn around a window of the given size.
    pub open spec fn drawn(self, width: i32, height: i32) -> DecorationsDataSatellite {
        if !self.draws(width as int) {
            if self.remove_buffer {
                DecorationsDataSatellite {
                    pending_animation_frame: None,
                    pending_resize_frame: None,
                    resize_redraw_pending: false,
                    remove_buffer: false,
                    ..self
                }
            } else {
                self
            }
        } else if !self.resize_interaction_active {
            DecorationsDataSatellite {
                pending_resize_frame: None,
                resize_redraw_pending: false,
                ..self.sized(width, height)
            }
        } else if self.pending_resize_frame is Some {
            DecorationsDataSatellite { resize_redraw_pending: true, ..self.sized(width, height) }
        } else {
            DecorationsDataSatellite {
                resize_redraw_pending: false,
                ..self.sized(width, height).resize_frame_requested()
            }
        }
    }

    /// Decides what is drawn around a window of the given size.
    pub fn draw_decorations(&mut self, width: i32, height: i32) -> (decision: DrawDecision)
        ensures
            *final(self) == old(self).drawn(width, height),
            decision == old(self).draw_decision(width),
    {
        if !self.will_draw_decorations(width) {
            if self.remove_buffer {
                self.pending_animation_frame = None;
                self.pending_resize_frame = None;
                self.resize_redraw_pending = false;
                self.remove_buffer = false;
                return DrawDecision::RemoveBuffers;
            }
            return DrawDecision::Nothing;
        }
        self.width = width;
        self.height = height;
        if self.resize_interaction_active {
            self.resize_redraw_pending = true;
            if self.pending_resize_frame.is_some() {
                return DrawDecision::Nothing;
            }
            let callback = self.request_resize_frame();
            self.resize_redraw_pending = false;
            return DrawDecision::Redraw { callback };
        }
        self.pending_resize_frame = None;
        self.resize_redraw_pending = false;
        DrawDecision::Redraw { callback: None }
    }

    /// Handles a frame callback. One that is not waited for any more is ignored. `animating` tells
    /// whether anything is being animated.
    pub fn handle_animation_frame(&mut self, generation: u64, animating: bool) -> (outcome:
        FrameOutcome)
        ensures
            ({
                let animation = old(self).pending_animation_frame == Some(generation);
                let resizing = old(self).pending_resize_frame == Some(generation);
                let arrived = DecorationsDataSatellite {
                    pending_animation_frame: if animation {
                        None
                    } else {
                        old(self).pending_animation_frame
                    },
                    pending_resize_frame: if resizing {
                        None
                    } else {
                        old(self).pending_resize_frame
                    },
                    ..*old(self)
                };
                let redraw = resizing && old(self).resize_interaction_active
                    && old(self).resize_redraw_pending;
                let requested = arrived.resize_frame_requested();
                &&& *final(self) == (if redraw {
                    DecorationsDataSatellite { resize_redraw_pending: false, ..requested }
                } else {
                    arrived
                })
                &&& outcome.draw == (if redraw {
                    DrawDecision::Redraw {
                        callback: if requested == arrived {
                            None
                        } else {
                            requested.pending_resize_frame
                        },
                    }
                } else {
                    DrawDecision::Nothing
                })
                &&& outcome.tick == (animation && animating && old(self).draws(
                    old(self).width as int,
                ))
            }),
    {
        let animation = self.pending_animation_frame == Some(generation);
        let resizing = self.pending_resize_frame == Some(generation);
        if animation {
            self.pending_animation_frame = None;
        }
        if resizing {
            self.pending_resize_frame = None;
        }
        let mut draw = DrawDecision::Nothing;
        if resizing && self.resize_interaction_active && self.resize_redraw_pending {
            let callback = self.request_resize_frame();
            self.resize_redraw_pending = false;
            draw = DrawDecision::Redraw { callback };
        }
        let tick = animation && animating && self.will_draw_decorations(self.width);
        FrameOutcome { draw, tick }
    }

    /// Notes whether the window is maximized. Returns whether everything is drawn anew.
    pub fn set_maximized(&mut self, maximized: bool) -> (redraw: bool)
        ensures
            *final(self) == (DecorationsDataSatellite { maximized, ..*old(self) }),
            redraw == (old(self).maximized != maximized && old(self).draws(old(self).width as int)),
    {
        if self.maximized == maximized {
            return false;
        }
        self.maximized = maximized;
        self.will_draw_decorations(self.width)
    }

    /// Notes whether the window is tiled.
    pub fn set_tiled(&mut self, tiled: bool)
        ensures
            *final(self) == (DecorationsDataSatellite { tiled, ..*old(self) }),
    {
        self.tiled = tiled;
    }

    /// Notes what the compositor can do with the window. Returns whether everything is drawn anew.
    pub fn set_capabilities(&mut self, capabilities: ToplevelCapabilities) -> (redraw: bool)
        ensures
            *final(self) == (DecorationsDataSatellite { capabilities, ..*old(self) }),
            redraw == (old(self).capabilities != capabilities && old(self).draws(
                old(self).width as int,
            )),
    {
        if self.capabilities == capabilities {
            return false;
        }
        self.capabilities = capabilities;
        self.will_draw_decorations(self.width)
    }

    /// Notes whether the borders can be dragged right now. Returns whether the input regions
    /// change.
    pub fn set_resize_input_enabled(&mut self, enabled: bool) -> (changed: bool)
        ensures
            *final(self) == (DecorationsDataSatellite {
                resize_input_enabled: enabled,
                ..*old(self)
            }),
            changed == (old(self).resize_input_enabled != enabled),
    {
        let changed = self.resize_input_enabled != enabled;
        self.resize_input_enabled = enabled;
        changed
    }

    /// Notes whether the window is being resized.
    pub fn set_resize_interaction_active(&mut self, active: bool)
        ensures
            *final(self) == (DecorationsDataSatellite {
                resize_interaction_active: active,
                ..*old(self)
            }),
    {
        self.resize_interaction_active = active;
    }

    /// Whether a position within the frame, in fixed point, is on the title bar.
    pub open spec fn on_titlebar(self, x: int, y: int) -> bool {
        self.draw_titlebar && frame::within(x, self.border(), self.border() + self.width)
            && frame::within(y, self.border(), self.border() + frame::titlebar(true))
    }

    /// The button at a position within the frame, in fixed point.
    pub open spec fn button_under(self, x: int, y: int) -> Option<DecorationButtonKind> {
        if self.on_titlebar(x, y) {
            button_at(
                self.buttons,
                self.capabilities,
                x - self.border() * FIXED_UNIT,
                y - self.border() * FIXED_UNIT,
            )
        } else {
            None
        }
    }

    /// The border at a position within the frame, in fixed point.
    pub open spec fn border_under(self, x: int, y: int) -> Option<ResizeEdge> {
        frame::edge_at(
            self.full_width(),
            self.full_height(),
            self.border(),
            self.grip(),
            x,
            y,
            true,
            true,
        )
    }

    /// The decorations once the pointer is at a position within the frame, in fixed point.
    pub open spec fn pointed_at(self, x: int, y: int, resizable: bool) -> DecorationsDataSatellite {
        let hovered = self.button_under(x, y);
        let active = if hovered is Some && self.pressed_button == hovered {
            hovered
        } else {
            None
        };
        DecorationsDataSatellite {
            buttons: pressing(hovering(self.buttons, hovered), active),
            hovered_resize_edge: if hovered is None && resizable {
                self.border_under(x, y)
            } else {
                None
            },
            ..self
        }
    }

    /// The position on the title bar that a position within the frame is on.
    fn titlebar_position(&self, x: i64, y: i64) -> (position: Option<(i64, i64)>)
        requires
            i64::MIN + 0x10000 <= x,
            i64::MIN + 0x10000 <= y,
        ensures
            position is Some <==> self.on_titlebar(x as int, y as int),
            position matches Some((titlebar_x, titlebar_y)) ==> titlebar_x == x - self.border()
                * FIXED_UNIT && titlebar_y == y - self.border() * FIXED_UNIT,
    {
        let border: i64 = self.frame_border() as i64 * FIXED_UNIT;
        let width: i64 = self.width as i64 * FIXED_UNIT;
        let height: i64 = self.titlebar_height() as i64 * FIXED_UNIT;
        let titlebar_x: i64 = x - border;
        let titlebar_y: i64 = y - border;
        if self.draw_titlebar && titlebar_x >= 0 && titlebar_x <= width && titlebar_y >= 0
            && titlebar_y <= height {
            Some((titlebar_x, titlebar_y))
        } else {
            None
        }
    }

    fn edge_under(&self, x: i64, y: i64) -> (edge: Option<ResizeEdge>)
        requires
            self.fits(),
        ensures
            edge == self.border_under(x as int, y as int),
    {
        resize_edge_for_frame_rect(
            self.frame_width(),
            self.frame_height(),
            self.frame_border(),
            self.resize_border(),
            x,
            y,
            true,
            true,
        )
    }

    /// Moves the pointer to a position within the frame, in fixed point.
    pub fn handle_motion(&mut self, x: i64, y: i64, resizable: bool) -> (outcome: MotionOutcome)
        requires
            old(self).fits(),
            i64::MIN + 0x10000 <= x,
            i64::MIN + 0x10000 <= y,
        ensures
            *final(self) == old(self).pointed_at(x as int, y as int, resizable),
            outcome.edge == final(self).hovered_resize_edge,
            outcome.buttons_changed == (final(self).buttons != old(self).buttons),
    {
        let position = self.titlebar_position(x, y);
        let edge = self.edge_under(x, y);
        let (hovered_kind, buttons_changed) = self.buttons.point(
            position,
            self.capabilities,
            self.pressed_button,
        );
        self.hovered_resize_edge = if hovered_kind.is_none() && resizable {
            edge
        } else {
            None
        };
        MotionOutcome { edge: self.hovered_resize_edge, buttons_changed }
    }

    /// Moves the pointer to a position on one of the surfaces, in fixed point, now that it is
    /// known whether the borders can be dragged. Returns what changed, and whether the input
    /// regions did.
    pub fn handle_surface_motion(
        &mut self,
        part: DecorationPart,
        x: i32,
        y: i32,
        resizable: bool,
        enabled: bool,
    ) -> (outcome: (MotionOutcome, bool))
        requires
            (DecorationsDataSatellite {
                resizable,
                resize_input_enabled: enabled,
                ..*old(self)
            }).fits(),
        ensures
            ({
                let d = DecorationsDataSatellite {
                    resizable,
                    resize_input_enabled: enabled,
                    ..*old(self)
                };
                let shift = if part is Titlebar {
                    d.border() * FIXED_UNIT
                } else {
                    0
                };
                &&& *final(self) == d.pointed_at(x + shift, y + shift, enabled)
                &&& outcome.0.edge == final(self).hovered_resize_edge
                &&& outcome.0.buttons_changed == (final(self).buttons != old(self).buttons)
                &&& outcome.1 == (old(self).resize_input_enabled != enabled)
            }),
    {
        self.resizable = resizable;
        let input_changed = self.set_resize_input_enabled(enabled);
        let (frame_x, frame_y) = self.surface_point_to_frame_point(part, x, y);
        let motion = self.handle_motion(frame_x, frame_y, enabled);
        (motion, input_changed)
    }

    /// Moves the pointer off the decorations. Returns whether the title bar is drawn anew.
    pub fn handle_leave(&mut self) -> (redraw: bool)
        ensures
            ({
                let buttons = pressing(hovering(old(self).buttons, None), None);
                &&& *final(self) == (DecorationsDataSatellite {
                    buttons,
                    hovered_resize_edge: None,
                    pressed_button: None,
                    ..*old(self)
                })
                &&& redraw == (buttons != old(self).buttons && old(self).draws(
                    old(self).width as int,
                ))
            }),
    {
        let hover_changed = self.buttons.clear_hovered();
        let active_changed = self.buttons.set_active(None);
        self.hovered_resize_edge = None;
        self.pressed_button = None;
        (hover_changed || active_changed) && self.will_draw_decorations(self.width)
    }

    /// Whether a title bar whose buttons may look different is drawn anew.
    pub open spec fn buttons_redrawn(self, after: DecorationsDataSatellite) -> bool {
        after.buttons != self.buttons && self.draws(self.width as int)
    }

    /// The button that the pointer is on.
    pub open spec fn hovered(self) -> Option<DecorationButtonKind> {
        hovered_button(self.buttons, self.capabilities)
    }

    /// The decorations while a button of the mouse is held where the pointer is.
    pub open spec fn pressed(self) -> DecorationsDataSatellite {
        DecorationsDataSatellite {
            buttons: pressing(self.buttons, self.hovered()),
            pressed_button: self.hovered(),
            ..self
        }
    }

    /// What a press where the pointer is asks for: a resize on a border, nothing yet on a button,
    /// and a move elsewhere.
    pub open spec fn press_action(self) -> Option<DecorationAction> {
        match self.hovered_resize_edge {
            Some(edge) => Some(DecorationAction::Resize(edge)),
            None => if self.hovered() is Some {
                None
            } else {
                Some(DecorationAction::Move)
            },
        }
    }

    /// The decorations once the mouse is let go.
    pub open spec fn released(self) -> DecorationsDataSatellite {
        DecorationsDataSatellite {
            buttons: pressing(self.buttons, None),
            pressed_button: None,
            ..self
        }
    }

    /// What a release where the pointer is asks for: what the button does, if that is the one
    /// that was pressed.
    pub open spec fn release_action(self) -> Option<DecorationAction> {
        if self.pressed_button is Some && self.pressed_button == self.hovered() {
            Some(action_of(self.hovered()->0))
        } else {
            None
        }
    }

    /// Presses where the pointer is. Returns what that asks for, and whether the title bar is drawn
    /// anew.
    pub fn handle_press(&mut self) -> (outcome: (Option<DecorationAction>, bool))
        ensures
            *final(self) == old(self).pressed(),
            outcome.0 == old(self).press_action(),
            outcome.1 == old(self).buttons_redrawn(old(self).pressed()),
    {
        let hovered_kind = self.buttons.hovered_kind(self.capabilities);
        self.pressed_button = hovered_kind;
        let active_changed = self.buttons.set_active(hovered_kind);
        let redraw = active_changed && self.will_draw_decorations(self.width);
        if let Some(edge) = self.hovered_resize_edge {
            return (Some(DecorationAction::Resize(edge)), redraw);
        }
        if hovered_kind.is_some() {
            (None, redraw)
        } else {
            (Some(DecorationAction::Move), redraw)
        }
    }

    /// Releases where the pointer is. Returns what that asks for, and whether the title bar is
    /// drawn anew.
    pub fn handle_release(&mut self) -> (outcome: (Option<DecorationAction>, bool))
        ensures
            *final(self) == old(self).released(),
            outcome.0 == old(self).release_action(),
            outcome.1 == old(self).buttons_redrawn(old(self).released()),
    {
        let hovered_kind = self.buttons.hovered_kind(self.capabilities);
        let pressed_kind = self.pressed_button;
        self.pressed_button = None;
        let active_changed = self.buttons.set_active(None);
        let redraw = active_changed && self.will_draw_decorations(self.width);
        match (pressed_kind, hovered_kind) {
            (Some(pressed), Some(hovered)) => if pressed == hovered {
                (Some(button_action(pressed)), redraw)
            } else {
                (None, redraw)
            },
            _ => (None, redraw),
        }
    }

    /// Prepares the title bar for drawing. `drawn_width` and `drawn_height` are its size in pixels,
    /// and `title_padding` is what a title keeps clear of the edges, in pixels. Without a plan the
    /// surface loses its buffer.
    pub fn plan_titlebar(&mut self, drawn_width: i32, drawn_height: i32, title_padding: i32) -> (plan:
        Option<TitlebarPlan>)
        requires
            title_padding <= 0x1fff_ffff,
        ensures
            if !old(self).draw_titlebar {
                &&& plan is None
                &&& *final(self) == (DecorationsDataSatellite {
                    buttons: hovering(old(self).buttons, None),
                    pending_animation_frame: None,
                    ..*old(self)
                })
            } else if old(self).width <= 0 || drawn_width <= 0 || drawn_height <= 0 {
                &&& plan is None
                &&& *final(self) == (DecorationsDataSatellite {
                    pending_animation_frame: None,
                    ..*old(self)
                })
            } else {
                let room = buttons_room(shown_buttons(old(self).capabilities));
                let reserved = if title_padding > room {
                    title_padding as int
                } else {
                    room
                };
                &&& plan == Some(
                    TitlebarPlan {
                        y: (-frame::titlebar(true)) as i32,
                        width: old(self).width,
                        height: frame::titlebar(true) as i32,
                        title_side_reservation: reserved as i32,
                        title_width: (if drawn_width > 2 * reserved {
                            drawn_width - 2 * reserved
                        } else {
                            0
                        }) as i32,
                    },
                )
                &&& *final(self) == (DecorationsDataSatellite {
                    buttons: laid_out(
                        old(self).buttons,
                        old(self).width as int,
                        frame::titlebar(true),
                        old(self).capabilities,
                    ),
                    ..*old(self)
                })
            },
    {
        let titlebar_height: i32 = self.titlebar_height();
        if !self.draw_titlebar || titlebar_height <= 0 {
            self.buttons.clear_hovered();
            self.pending_animation_frame = None;
            return None;
        }
        if self.width <= 0 || drawn_width <= 0 || drawn_height <= 0 {
            self.pending_animation_frame = None;
            return None;
        }
        let buttons_width: i32 = button_total_width(
            self.buttons.visible_button_count(self.capabilities),
        );
        let reserved: i32 = if title_padding > buttons_width {
            title_padding
        } else {
            buttons_width
        };
        let title_width: i32 = if drawn_width > reserved * 2 {
            drawn_width - reserved * 2
        } else {
            0
        };
        self.buttons.layout(self.width, titlebar_height, self.capabilities);
        Some(
            TitlebarPlan {
                y: -titlebar_height,
                width: self.width,
                height: titlebar_height,
                title_side_reservation: reserved,
                title_width,
            },
        )
    }
}

impl TitlebarPlan {
    /// Where a title of the given width starts, in pixels: in the middle of what it may take.
    pub fn title_x(&self, drawn_width: i32, title: i32) -> (x: i32)
        requires
            0 <= self.title_side_reservation <= 0x1fff_ffff,
            0 <= drawn_width,
            0 <= title,
        ensures
            ({
                let area = drawn_width - 2 * self.title_side_reservation;
                x == self.title_side_reservation + (if area > title {
                    (area - title) / 2
                } else {
                    0
                })
            }),
    {
        let area: i32 = drawn_width - self.title_side_reservation * 2;
        if area > title {
            self.title_side_reservation + (area - title) / 2
        } else {
            self.title_side_reservation
        }
    }
}

/// The generation after another; they start over after the last.
pub open spec fn next_generation(generation: u64) -> u64 {
    if generation == u64::MAX {
        0
    } else {
        (generation + 1) as u64
    }
}

/// A press on a button by itself asks for nothing; its release there asks for what the button
/// does.
pub proof fn law_buttons_act_on_release(
    decorations: DecorationsDataSatellite,
    kind: DecorationButtonKind,
)
    requires
        decorations.hovered() == Some(kind),
        decorations.hovered_resize_edge is None,
    ensures
        decorations.press_action() is None,
        decorations.pressed().release_action() == Some(action_of(kind)),
{
}

/// A button that the pointer was dragged off does nothing on release.
pub proof fn law_button_left_does_nothing(
    decorations: DecorationsDataSatellite,
    x: int,
    y: int,
    resizable: bool,
)
    requires
        decorations.pressed().pointed_at(x, y, resizable).hovered() != decorations.hovered(),
    ensures
        decorations.pressed().pointed_at(x, y, resizable).release_action() is None,
{
}

/// Buttons never overlap: a position on the title bar is on at most one of those that are shown.
pub proof fn law_buttons_do_not_overlap(
    buttons: DecorationsButtons,
    width: int,
    bar_height: int,
    capabilities: ToplevelCapabilities,
    x: int,
    y: int,
)
    requires
        0 <= width <= i32::MAX,
        0 <= bar_height <= i32::MAX,
    ensures
        ({
            let b = laid_out(buttons, width, bar_height, capabilities);
            &&& capabilities.minimize && b.minimize.covers(x, y) ==> !b.close.covers(x, y)
            &&& capabilities.maximize && b.maximize.covers(x, y) ==> !b.close.covers(x, y)
            &&& capabilities.minimize && capabilities.maximize && b.minimize.covers(x, y)
                ==> !b.maximize.covers(x, y)
        }),
{
}

/// After the pointer moved, at most one button is hovered, and then no border.
pub proof fn law_pointer_is_on_one_thing(
    decorations: DecorationsDataSatellite,
    x: int,
    y: int,
    resizable: bool,
)
    ensures
        ({
            let d = decorations.pointed_at(x, y, resizable);
            &&& !(d.buttons.minimize.hovered && d.buttons.maximize.hovered)
            &&& !(d.buttons.minimize.hovered && d.buttons.close.hovered)
            &&& !(d.buttons.maximize.hovered && d.buttons.close.hovered)
            &&& hovered_button(d.buttons, d.capabilities) is Some ==> d.hovered_resize_edge is None
        }),
{
}

/// Close is always shown, and each of the other buttons exactly if the compositor can do what it is
/// for.
pub proof fn law_shown_buttons(capabilities: ToplevelCapabilities)
    ensures
        1 <= shown_buttons(capabilities) <= 3,
        shown_buttons(capabilities) == 3 <==> capabilities.maximize && capabilities.minimize,
        shown_buttons(capabilities) == 1 <==> !capabilities.maximize && !capabilities.minimize,
{
}

/// The buttons stand at the right end of the bar, close outermost, minimize innermost, all of one
/// size and in the middle of the bar's height; one that is not shown takes no room.
pub proof fn law_buttons_stand_at_the_right(
    buttons: DecorationsButtons,
    width: int,
    bar_height: int,
    capabilities: ToplevelCapabilities,
)
    requires
        146 < width <= i32::MAX,
        24 <= bar_height <= i32::MAX,
    ensures
        ({
            let b = laid_out(buttons, width, bar_height, capabilities);
            let shown = |button: DecorationsBox|
                button.right - button.left == 24 * 256 && button.bottom - button.top == 24 * 256;
            &&& b.close.right == (width - 11) * 256
            &&& shown(b.close)
            &&& capabilities.maximize ==> shown(b.maximize) && b.maximize.right == b.close.left - 16
                * 256
            &&& capabilities.minimize ==> shown(b.minimize) && b.minimize.right == (
            if capabilities.maximize {
                b.maximize.left
            } else {
                b.close.left
            }) - 16 * 256
            &&& !capabilities.maximize ==> b.maximize.left == b.maximize.right && b.maximize.top
                == b.maximize.bottom
            &&& !capabilities.minimize ==> b.minimize.left == b.minimize.right && b.minimize.top
                == b.minimize.bottom
            &&& -1 <= b.close.top + b.close.bottom - bar_height * 256 <= 1
            &&& b.close.hovered == buttons.close.hovered && b.maximize.hovered
                == buttons.maximize.hovered && b.minimize.hovered == buttons.minimize.hovered
            &&& b.close.active == buttons.close.active && b.maximize.active
                == buttons.maximize.active && b.minimize.active == buttons.minimize.active
        }),
{
}

/// A button is under the pointer only where it lies, and one that is not shown never is.
pub proof fn law_button_under_the_pointer(
    buttons: DecorationsButtons,
    capabilities: ToplevelCapabilities,
    x: int,
    y: int,
)
    ensures
        ({
            let inside = |button: DecorationsBox|
                button.left <= x && x <= button.right && button.top <= y && y <= button.bottom;
            let under = button_at(buttons, capabilities, x, y);
            &&& inside(buttons.close) <==> under == Some(DecorationButtonKind::Close)
            &&& under == Some(DecorationButtonKind::Maximize) ==> capabilities.maximize && inside(
                buttons.maximize,
            )
            &&& under == Some(DecorationButtonKind::Minimize) ==> capabilities.minimize && inside(
                buttons.minimize,
            )
            &&& under is None ==> !inside(buttons.close) && !(capabilities.maximize && inside(
                buttons.maximize,
            )) && !(capabilities.minimize && inside(buttons.minimize))
        }),
{
}

/// Exactly the button that is named is marked as hovered or as pressed, and no button moves.
pub proof fn law_one_button_is_marked(
    buttons: DecorationsButtons,
    kind: Option<DecorationButtonKind>,
)
    ensures
        ({
            let h = hovering(buttons, kind);
            let p = pressing(buttons, kind);
            &&& h.close.hovered <==> kind == Some(DecorationButtonKind::Close)
            &&& h.maximize.hovered <==> kind == Some(DecorationButtonKind::Maximize)
            &&& h.minimize.hovered <==> kind == Some(DecorationButtonKind::Minimize)
            &&& p.close.active <==> kind == Some(DecorationButtonKind::Close)
            &&& p.maximize.active <==> kind == Some(DecorationButtonKind::Maximize)
            &&& p.minimize.active <==> kind == Some(DecorationButtonKind::Minimize)
            &&& pressing(h, kind).close.hovered == h.close.hovered
            &&& h.close.active == buttons.close.active && p.close.hovered == buttons.close.hovered
            &&& h.close.left == buttons.close.left && h.close.right == buttons.close.right
                && h.close.top == buttons.close.top && h.close.bottom == buttons.close.bottom
            &&& p.close.left == buttons.close.left && p.close.right == buttons.close.right
                && p.close.top == buttons.close.top && p.close.bottom == buttons.close.bottom
            &&& h.maximize.left == buttons.maximize.left && p.maximize.left == buttons.maximize.left
            &&& h.minimize.left == buttons.minimize.left && p.minimize.left == buttons.minimize.left
        }),
{
}

/// Each button does what it is for.
pub proof fn law_buttons_do_what_they_are_for(kind: DecorationButtonKind)
    ensures
        action_of(kind) == DecorationAction::Close <==> kind == DecorationButtonKind::Close,
        action_of(kind) == DecorationAction::ToggleMaximized <==> kind
            == DecorationButtonKind::Maximize,
        action_of(kind) == DecorationAction::Minimize <==> kind == DecorationButtonKind::Minimize,
{
}

/// A press on the border resizes by the edge that is under the pointer, one on a button waits for
/// its release, and one anywhere else moves the window. What is pressed is what is hovered.
pub proof fn law_what_a_press_does(decorations: DecorationsDataSatellite)
    ensures
        decorations.hovered_resize_edge matches Some(edge) ==> decorations.press_action() == Some(
            DecorationAction::Resize(edge),
        ),
        decorations.hovered_resize_edge is None && decorations.hovered() is None
            ==> decorations.press_action() == Some(DecorationAction::Move),
        decorations.hovered_resize_edge is None && decorations.hovered() is Some
            ==> decorations.press_action() is None,
        decorations.pressed().pressed_button == decorations.hovered(),
        decorations.released().pressed_button is None,
        !decorations.released().buttons.close.active && !decorations.released().buttons.maximize.active
            && !decorations.released().buttons.minimize.active,
        decorations.pressed_button is None ==> decorations.release_action() is None,
        decorations.pressed_button is Some && decorations.hovered() is None
            ==> decorations.release_action() is None,
{
}

/// Decorations are drawn only where there is room for them and they are wanted. Where they are not,
/// buffers that are still there are removed, once. While a resize waits for its frame nothing is
/// drawn, and the last size is not lost.
pub proof fn law_when_decorations_are_drawn(
    decorations: DecorationsDataSatellite,
    width: i32,
    height: i32,
)
    ensures
        ({
            let d = decorations;
            let after = d.drawn(width, height);
            let decision = d.draw_decision(width);
            let shown = width > 0 && d.should_draw;
            &&& decision is Redraw ==> shown
            &&& decision is RemoveBuffers <==> !shown && d.remove_buffer
            &&& decision is RemoveBuffers ==> !after.remove_buffer
            &&& !shown ==> after.width == d.width && after.height == d.height
            &&& shown ==> after.width == width && after.height == height
            &&& shown && !d.resize_interaction_active ==> decision == (DrawDecision::Redraw {
                callback: None,
            })
            &&& shown && d.resize_interaction_active && d.pending_resize_frame is Some ==> decision
                == DrawDecision::Nothing && after.resize_redraw_pending
            &&& shown && d.resize_interaction_active && d.pending_resize_frame is None
                ==> after.pending_resize_frame is Some && decision == (DrawDecision::Redraw {
                callback: after.pending_resize_frame,
            }) && after.pending_resize_frame->0 != d.animation_frame_generation
            &&& after.buttons == d.buttons && after.focused == d.focused && after.maximized
                == d.maximized
        }),
{
}

/// The pointer's place decides what is under it: a button of the title bar, or else an edge that
/// can be dragged, if it can. A pressed button shows as pressed only while the pointer is on it.
pub proof fn law_what_is_under_the_pointer(
    decorations: DecorationsDataSatellite,
    x: int,
    y: int,
    resizable: bool,
)
    ensures
        ({
            let d = decorations.pointed_at(x, y, resizable);
            &&& !resizable ==> d.hovered_resize_edge is None
            &&& d.buttons.close.active ==> decorations.pressed_button == Some(
                DecorationButtonKind::Close,
            ) && d.buttons.close.hovered
            &&& d.buttons.maximize.active ==> decorations.pressed_button == Some(
                DecorationButtonKind::Maximize,
            ) && d.buttons.maximize.hovered
            &&& d.buttons.minimize.active ==> decorations.pressed_button == Some(
                DecorationButtonKind::Minimize,
            ) && d.buttons.minimize.hovered
            &&& d.buttons.close.hovered && decorations.pressed_button == Some(
                DecorationButtonKind::Close,
            ) ==> d.buttons.close.active
            &&& !decorations.draw_titlebar ==> !d.buttons.close.hovered
                && !d.buttons.maximize.hovered && !d.buttons.minimize.hovered
            &&& d.pressed_button == decorations.pressed_button
            &&& d.width == decorations.width && d.height == decorations.height
        }),
{
}

/// The pointer is on the title bar where that is drawn: as wide as the window, from the inner end of
/// the border, twenty-five units high. Nothing there is under it but what the bar shows.
pub proof fn law_where_the_title_bar_is(decorations: DecorationsDataSatellite, x: int, y: int)
    ensures
        ({
            let d = decorations;
            let border = frame::border(d.maximized, d.tiled, d.resizable);
            let on = border * 256 <= x && x <= (border + d.width) * 256 && border * 256 <= y && y
                <= (border + 25) * 256;
            &&& d.on_titlebar(x, y) <==> d.draw_titlebar && on
            &&& !d.on_titlebar(x, y) ==> d.button_under(x, y) is None
            &&& d.on_titlebar(x, y) ==> d.button_under(x, y) == button_at(
                d.buttons,
                d.capabilities,
                x - border * 256,
                y - border * 256,
            )
        }),
{
}

/// All four edges of the frame can be grabbed, where it has a grip.
pub proof fn law_all_edges_can_be_grabbed(decorations: DecorationsDataSatellite, x: int, y: int)
    requires
        decorations.resizable,
        !decorations.maximized,
        decorations.width > 0,
        decorations.height > 0,
    ensures
        ({
            let d = decorations;
            let border = frame::border(d.maximized, d.tiled, d.resizable);
            let bar = if d.draw_titlebar { 25int } else { 0 };
            let left = (border - 12) * 256 <= x <= border * 256;
            let right = (border + d.width) * 256 <= x <= (border + d.width + 12) * 256;
            let top = (border - 12) * 256 <= y <= border * 256;
            let bottom = (border + bar + d.height) * 256 <= y <= (border + bar + d.height + 12)
                * 256;
            &&& d.border_under(x, y) is Some <==> left || right || top || bottom
            &&& d.border_under(x, y) == Some(ResizeEdge::TopLeft) <==> left && top
            &&& d.border_under(x, y) == Some(ResizeEdge::BottomRight) <==> right && bottom
            &&& d.border_under(x, y) == Some(ResizeEdge::Top) <==> top && !left && !right
            &&& d.border_under(x, y) == Some(ResizeEdge::Bottom) <==> bottom && !left && !right
            &&& d.border_under(x, y) == Some(ResizeEdge::Left) <==> left && !top && !bottom
            &&& d.border_under(x, y) == Some(ResizeEdge::Right) <==> right && !top && !bottom
        }),
{
    let d = decorations;
    frame::law_what_the_frame_takes(d.maximized, d.tiled, d.resizable, d.draw_titlebar);
    frame::law_edges_are_grabbed_in_their_strips(
        d.full_width(),
        d.full_height(),
        d.border(),
        d.grip(),
        x,
        y,
    );
}

/// Buttons are drawn anew exactly if one of them looks different and the bar shows.
pub proof fn law_when_buttons_are_redrawn(
    before: DecorationsDataSatellite,
    after: DecorationsDataSatellite,
)
    ensures
        before.buttons_redrawn(after) <==> before.buttons != after.buttons && before.should_draw
            && before.width > 0,
{
}

/// A frame is asked for while a resize goes on, one at a time and with a number of its own.
pub proof fn law_resize_frames_come_one_by_one(decorations: DecorationsDataSatellite)
    ensures
        ({
            let d = decorations;
            let after = d.resize_frame_requested();
            let asks = d.pending_resize_frame is None && d.resize_interaction_active && d.should_draw
                && d.width > 0;
            &&& !asks ==> after == d
            &&& asks ==> after.pending_resize_frame == Some(after.animation_frame_generation)
            &&& asks ==> after.animation_frame_generation != d.animation_frame_generation
            &&& asks && d.animation_frame_generation < u64::MAX ==> after.animation_frame_generation
                == d.animation_frame_generation + 1
            &&& after.resize_frame_requested() == after
        }),
{
}

} // verus!
