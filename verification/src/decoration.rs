//! The frame and title bar that are drawn around a window when the compositor draws none.
//!
//! Positions are in surface-local units. Pointer positions are in 256ths of a unit, the fixed
//! point numbers of the Wayland wire format.

use vstd::prelude::*;
use crate::resize::ResizeEdge;
use crate::role::ToplevelCapabilities;
use crate::window::{ConfigureInteraction, WindowData};
use crate::world::Parts;

verus! {

/// How far outside the visible frame a border can be grabbed.
pub const RESIZE_HANDLE_SIZE: i32 = 12;

/// How far the shadow reaches outside the visible frame.
pub const WINDOW_SHADOW_EXTENT: i32 = 16;

/// The height of a title bar.
pub const TITLEBAR_HEIGHT: i32 = 25;

/// The number of fixed point steps in one surface-local unit.
pub const FIXED_UNIT: i64 = 256;

/// The two surfaces that decorations are drawn on.
#[derive(Clone, Copy, Debug, PartialEq, Eq, Structural)]
pub enum DecorationPart {
    Frame,
    Titlebar,
}

/// The buttons of a title bar.
#[derive(Clone, Copy, Debug, PartialEq, Eq, Structural)]
pub enum DecorationButtonKind {
    Minimize,
    Maximize,
    Close,
}

/// What a click on the decorations asks for.
#[derive(Clone, Copy, Debug, PartialEq, Eq, Structural)]
pub enum DecorationAction {
    Move,
    Resize(ResizeEdge),
    Minimize,
    ToggleMaximized,
    Close,
}

/// A button: where it is, in fixed point, and what the pointer does to it.
#[derive(Clone, Copy, Debug, PartialEq, Eq, Structural)]
pub struct DecorationsBox {
    pub left: i64,
    pub top: i64,
    pub right: i64,
    pub bottom: i64,
    pub hovered: bool,
    pub active: bool,
}

/// The buttons of one title bar.
#[derive(Clone, Copy, Debug, PartialEq, Eq, Structural)]
pub struct DecorationsButtons {
    pub minimize: DecorationsBox,
    pub maximize: DecorationsBox,
    pub close: DecorationsBox,
}

/// The state of the decorations of one toplevel.
#[derive(Clone, Copy, Debug, PartialEq, Eq, Structural)]
pub struct DecorationsDataSatellite {
    pub buttons: DecorationsButtons,
    pub width: i32,
    pub height: i32,
    pub focused: bool,
    pub maximized: bool,
    pub tiled: bool,
    pub resizable: bool,
    pub resize_input_enabled: bool,
    pub resize_interaction_active: bool,
    pub draw_titlebar: bool,
    pub pressed_button: Option<DecorationButtonKind>,
    pub capabilities: ToplevelCapabilities,
    pub hovered_resize_edge: Option<ResizeEdge>,
    pub animation_frame_generation: u64,
    pub pending_animation_frame: Option<u64>,
    pub pending_resize_frame: Option<u64>,
    pub resize_redraw_pending: bool,
    pub should_draw: bool,
    pub remove_buffer: bool,
}

/// What decorations add to the height of a window.
pub open spec fn height_of(satellite: Option<DecorationsDataSatellite>) -> i32 {
    match satellite {
        Some(satellite) if satellite.draw_titlebar => TITLEBAR_HEIGHT,
        _ => 0,
    }
}

/// What decorations add to the height of a window.
pub fn decorations_height(satellite: &Option<DecorationsDataSatellite>) -> (height: i32)
    ensures
        height == height_of(*satellite),
{
    match satellite {
        Some(satellite) => if satellite.draw_titlebar {
            TITLEBAR_HEIGHT
        } else {
            0
        },
        None => 0,
    }
}

impl DecorationsBox {
    /// A button that is nowhere yet.
    pub open spec fn nowhere() -> DecorationsBox {
        DecorationsBox { left: 0, top: 0, right: 0, bottom: 0, hovered: false, active: false }
    }

    /// A button that is nowhere yet.
    pub fn new() -> (button: DecorationsBox)
        ensures
            button == DecorationsBox::nowhere(),
    {
        DecorationsBox { left: 0, top: 0, right: 0, bottom: 0, hovered: false, active: false }
    }
}

impl DecorationsDataSatellite {
    /// Decorations that have not been drawn yet.
    pub open spec fn fresh(
        draw_titlebar: bool,
        resizable: bool,
        resize_input_enabled: bool,
    ) -> DecorationsDataSatellite {
        DecorationsDataSatellite {
            buttons: (DecorationsButtons {
                minimize: DecorationsBox::nowhere(),
                maximize: DecorationsBox::nowhere(),
                close: DecorationsBox::nowhere(),
            }),
            width: 0,
            height: 0,
            focused: false,
            maximized: false,
            tiled: false,
            resizable,
            resize_input_enabled,
            resize_interaction_active: false,
            draw_titlebar,
            pressed_button: None,
            capabilities: (ToplevelCapabilities { maximize: true, minimize: true }),
            hovered_resize_edge: None,
            animation_frame_generation: 0,
            pending_animation_frame: None,
            pending_resize_frame: None,
            resize_redraw_pending: false,
            should_draw: true,
            remove_buffer: false,
        }
    }

    /// Creates decorations that have not been drawn yet.
    pub fn new(draw_titlebar: bool, resizable: bool, resize_input_enabled: bool) -> (decorations:
        DecorationsDataSatellite)
        ensures
            decorations == DecorationsDataSatellite::fresh(
                draw_titlebar,
                resizable,
                resize_input_enabled,
            ),
    {
        DecorationsDataSatellite {
            buttons: DecorationsButtons {
                minimize: DecorationsBox::new(),
                maximize: DecorationsBox::new(),
                close: DecorationsBox::new(),
            },
            width: 0,
            height: 0,
            focused: false,
            maximized: false,
            tiled: false,
            resizable,
            resize_input_enabled,
            resize_interaction_active: false,
            draw_titlebar,
            pressed_button: None,
            capabilities: ToplevelCapabilities::all(),
            hovered_resize_edge: None,
            animation_frame_generation: 0,
            pending_animation_frame: None,
            pending_resize_frame: None,
            resize_redraw_pending: false,
            should_draw: true,
            remove_buffer: false,
        }
    }
}

/// Whether a window's borders can be dragged: it fills nothing, asks for handles if it asks for
/// any decorations, and its size limits leave it room.
pub open spec fn has_resize_border(
    window: WindowData,
    fullscreen: bool,
    maximized: bool,
    tiled: bool,
) -> bool {
    &&& !fullscreen && !maximized && !tiled
    &&& window.attrs.decorations matches Some(decorations) ==> decorations.resize_handles
    &&& !(window.attrs.size_hints matches Some(hints) && hints.min_size is Some && hints.min_size
        == hints.max_size)
}

/// Whether the window is being moved.
pub open spec fn is_moving(window: WindowData) -> bool {
    window.configure_interaction matches Some(ConfigureInteraction::Move { .. })
}

/// Whether an entity's toplevel has borders that can be dragged, and whether they can be dragged
/// right now.
pub open spec fn resize_state(parts: Parts) -> (bool, bool) {
    match (parts.data, parts.role) {
        (Some(window), Some(role)) => match role.live_toplevel() {
            Some(toplevel) => {
                let border = has_resize_border(
                    window,
                    toplevel.fullscreen,
                    toplevel.maximized,
                    toplevel.tiled,
                );
                (border, border && !is_moving(window))
            },
            None => (false, false),
        },
        _ => (false, false),
    }
}

/// Whether a window's borders can be dragged.
pub fn toplevel_has_resize_border(
    window: &WindowData,
    fullscreen: bool,
    maximized: bool,
    tiled: bool,
) -> (r: bool)
    ensures
        r == has_resize_border(*window, fullscreen, maximized, tiled),
{
    if fullscreen || maximized || tiled {
        return false;
    }
    if let Some(decorations) = window.attrs.decorations {
        if !decorations.resize_handles {
            return false;
        }
    }
    match window.attrs.size_hints {
        Some(hints) => match (hints.min_size, hints.max_size) {
            (Some(min_size), Some(max_size)) => min_size != max_size,
            _ => true,
        },
        None => true,
    }
}

/// Whether a window's borders can be dragged right now.
pub fn toplevel_can_resize(window: &WindowData, fullscreen: bool, maximized: bool, tiled: bool) -> (r:
    bool)
    ensures
        r == (has_resize_border(*window, fullscreen, maximized, tiled) && !is_moving(*window)),
{
    toplevel_has_resize_border(window, fullscreen, maximized, tiled) && !matches!(
        window.configure_interaction,
        Some(ConfigureInteraction::Move { .. })
    )
}

/// Whether an entity's toplevel has borders that can be dragged, and whether they can be dragged
/// right now.
pub fn parent_resize_state(parts: &Parts) -> (state: (bool, bool))
    ensures
        state == resize_state(*parts),
{
    match (parts.data, parts.role) {
        (Some(window), Some(role)) => match role.toplevel() {
            Some(toplevel) => (
                toplevel_has_resize_border(
                    &window,
                    toplevel.fullscreen,
                    toplevel.maximized,
                    toplevel.tiled,
                ),
                toplevel_can_resize(
                    &window,
                    toplevel.fullscreen,
                    toplevel.maximized,
                    toplevel.tiled,
                ),
            ),
            None => (false, false),
        },
        _ => (false, false),
    }
}

/// Decorations after their window became full screen or stopped being so. What was drawn goes
/// away with them.
pub open spec fn fullscreen_handled(
    decorations: DecorationsDataSatellite,
    fullscreen: bool,
) -> DecorationsDataSatellite {
    if decorations.should_draw == fullscreen {
        DecorationsDataSatellite {
            should_draw: !fullscreen,
            remove_buffer: fullscreen,
            ..decorations
        }
    } else {
        decorations
    }
}

impl DecorationsDataSatellite {
    /// Stops drawing in full screen, and starts again after.
    pub fn handle_fullscreen(&mut self, fullscreen: bool)
        ensures
            *final(self) == fullscreen_handled(*old(self), fullscreen),
    {
        if self.should_draw == fullscreen {
            self.should_draw = !fullscreen;
            self.remove_buffer = fullscreen;
        }
    }
}

/// A button that the pointer has nothing to do with.
pub open spec fn untouched(button: DecorationsBox) -> DecorationsBox {
    DecorationsBox { hovered: false, active: false, ..button }
}

/// Decorations that show whether their window is focused. Losing the focus lets go of the buttons.
pub open spec fn focus_set(
    decorations: DecorationsDataSatellite,
    focused: bool,
) -> DecorationsDataSatellite {
    if decorations.focused == focused {
        decorations
    } else {
        DecorationsDataSatellite {
            focused,
            buttons: if focused {
                decorations.buttons
            } else {
                DecorationsButtons {
                    minimize: untouched(decorations.buttons.minimize),
                    maximize: untouched(decorations.buttons.maximize),
                    close: untouched(decorations.buttons.close),
                }
            },
            ..decorations
        }
    }
}

/// Whether decorations are drawn anew to show whether their window is focused.
pub open spec fn focus_redrawn(decorations: DecorationsDataSatellite, focused: bool) -> bool {
    decorations.focused != focused && decorations.width > 0 && decorations.should_draw
}

impl DecorationsBox {
    /// Lets go of a button.
    fn release(&mut self)
        ensures
            *final(self) == untouched(*old(self)),
    {
        self.hovered = false;
        self.active = false;
    }
}

impl DecorationsDataSatellite {
    /// Shows whether the window is focused. Returns whether everything is drawn anew.
    pub fn set_focused(&mut self, focused: bool) -> (redraw: bool)
        ensures
            *final(self) == focus_set(*old(self), focused),
            redraw == focus_redrawn(*old(self), focused),
    {
        if self.focused == focused {
            return false;
        }
        if !focused {
            self.buttons.minimize.release();
            self.buttons.maximize.release();
            self.buttons.close.release();
        }
        self.focused = focused;
        self.width > 0 && self.should_draw
    }
}

/// A window can be resized by its border unless it fills its place, says that it has no handles, or
/// has the same least and greatest size. While it is being moved the border takes no input.
pub proof fn law_who_has_a_resize_border(
    window: WindowData,
    fullscreen: bool,
    maximized: bool,
    tiled: bool,
)
    ensures
        ({
            let border = has_resize_border(window, fullscreen, maximized, tiled);
            let handles = window.attrs.decorations is None
                || window.attrs.decorations->0.resize_handles;
            let fixed = window.attrs.size_hints is Some && window.attrs.size_hints->0.min_size
                is Some && window.attrs.size_hints->0.min_size
                == window.attrs.size_hints->0.max_size;
            &&& fullscreen || maximized || tiled ==> !border
            &&& !handles ==> !border
            &&& fixed ==> !border
            &&& !fullscreen && !maximized && !tiled && handles && !fixed ==> border
        }),
{
}

/// The resize state of an entity is that of its toplevel: without one there is no border, and no
/// border takes input that is not there or while the window is being moved.
pub proof fn law_resize_state_follows_the_toplevel(parts: Parts)
    ensures
        ({
            let (border, input) = resize_state(parts);
            &&& input ==> border
            &&& parts.data is None || parts.role is None ==> !border
            &&& (parts.role matches Some(crate::role::SurfaceRole::Popup(_))) ==> !border
            &&& (parts.data matches Some(data) && data.configure_interaction matches Some(
                ConfigureInteraction::Move { .. },
            )) ==> !input
            &&& (parts.data matches Some(data) && parts.role matches Some(
                crate::role::SurfaceRole::Toplevel(Some(toplevel)),
            ) && has_resize_border(data, toplevel.fullscreen, toplevel.maximized, toplevel.tiled))
                <==> border
            &&& border && !(parts.data->0.configure_interaction matches Some(
                ConfigureInteraction::Move { .. },
            )) ==> input
        }),
{
}

/// A title bar that is drawn here takes its height, and one that is not takes none.
pub proof fn law_title_bar_height(satellite: Option<DecorationsDataSatellite>)
    ensures
        satellite is None ==> height_of(satellite) == 0,
        satellite matches Some(s) ==> (s.draw_titlebar ==> height_of(satellite) == 25) && (
        !s.draw_titlebar ==> height_of(satellite) == 0),
{
}

/// Decorations are drawn exactly while the window is not full screen. Going full screen leaves a
/// buffer to be removed, and coming back leaves none.
pub proof fn law_no_decorations_in_full_screen(
    decorations: DecorationsDataSatellite,
    fullscreen: bool,
)
    ensures
        ({
            let after = fullscreen_handled(decorations, fullscreen);
            &&& after.should_draw == !fullscreen
            &&& decorations.should_draw == fullscreen ==> after.remove_buffer == fullscreen
            &&& decorations.should_draw != fullscreen ==> after == decorations
            &&& after.buttons == decorations.buttons && after.focused == decorations.focused
                && after.width == decorations.width && after.height == decorations.height
                && after.draw_titlebar == decorations.draw_titlebar
        }),
{
}

/// Decorations are focused exactly if they were last told so. Losing the focus lets go of every
/// button and moves none; what shows is drawn anew only where something is drawn and changed.
pub proof fn law_focus_is_as_told(decorations: DecorationsDataSatellite, focused: bool)
    ensures
        ({
            let after = focus_set(decorations, focused);
            let let_go = |button: DecorationsBox, was: DecorationsBox|
                !button.hovered && !button.active && button.left == was.left && button.top
                    == was.top && button.right == was.right && button.bottom == was.bottom;
            &&& after.focused == focused
            &&& decorations.focused && !focused ==> let_go(
                after.buttons.minimize,
                decorations.buttons.minimize,
            ) && let_go(after.buttons.maximize, decorations.buttons.maximize) && let_go(
                after.buttons.close,
                decorations.buttons.close,
            )
            &&& focused || !decorations.focused ==> after.buttons == decorations.buttons
            &&& after.width == decorations.width && after.should_draw == decorations.should_draw
                && after.maximized == decorations.maximized && after.tiled == decorations.tiled
            &&& focus_redrawn(decorations, focused) <==> decorations.focused != focused
                && decorations.should_draw && decorations.width > 0
            &&& !focus_redrawn(focus_set(decorations, focused), focused)
        }),
{
}

/// New decorations are drawn, unfocused and not pressed, and nothing is hovered.
pub proof fn law_new_decorations(draw_titlebar: bool, resizable: bool, resize_input_enabled: bool)
    ensures
        ({
            let fresh = DecorationsDataSatellite::fresh(
                draw_titlebar,
                resizable,
                resize_input_enabled,
            );
            &&& fresh.should_draw && !fresh.remove_buffer && !fresh.focused
            &&& fresh.draw_titlebar == draw_titlebar
            &&& fresh.resizable == resizable
            &&& fresh.resize_input_enabled == resize_input_enabled
            &&& fresh.pressed_button is None && fresh.hovered_resize_edge is None
            &&& fresh.width == 0 && fresh.height == 0
            &&& fresh.capabilities.maximize && fresh.capabilities.minimize
            &&& !fresh.maximized && !fresh.tiled && !fresh.resize_interaction_active
        }),
{
}

} // verus!
