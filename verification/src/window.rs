//! What is known of one X11 window, and how configure requests and output moves change it.

use vstd::prelude::*;
use crate::geometry;
use crate::geometry::{
    add_i16, requested_dims_from_mask, sub_i32, truncate_i16, ConfigWindowMask,
    PendingSurfaceState, WinSize, WindowDims,
};
use crate::output::SurfaceScaleFactor;
use crate::resize;
use crate::resize::{infer_resize_direction, merge_resize_directions, MoveResizeDirection};

verus! {

/// How long the first mapping of a window may wait for its geometry to settle, in milliseconds.
pub const DEFERRED_INITIAL_TOPLEVEL_TIMEOUT: u64 = 200;

/// The size limits of `WM_NORMAL_HINTS`.
#[derive(Clone, Copy, Debug, Default, PartialEq, Eq, Structural)]
pub struct WmNormalHints {
    pub min_size: Option<WinSize>,
    pub max_size: Option<WinSize>,
}

/// What `_MOTIF_WM_HINTS` asks of the window's decorations.
#[derive(Clone, Copy, Debug, PartialEq, Eq, Structural)]
pub struct Decorations {
    /// Decorations are wanted from the window manager; otherwise the client draws its own.
    pub serverside: bool,
    /// Resize handles are among what is wanted.
    pub resize_handles: bool,
}

/// The origin of the output that a window is on.
#[derive(Clone, Copy, Debug, Default, PartialEq, Eq, Structural)]
pub struct WindowOutputOffset {
    pub x: i32,
    pub y: i32,
}

/// Whether the first toplevel of a window still waits for its geometry.
#[derive(Clone, Copy, Debug, PartialEq, Eq, Structural)]
pub enum InitialToplevelMapState {
    Unset,
    Deferred { deadline: u64 },
    Released,
}

/// An interactive move or resize that configure requests are taken to belong to.
#[derive(Clone, Copy, Debug, PartialEq, Eq, Structural)]
pub enum ConfigureInteraction {
    Move { serial: u32 },
    Resize { serial: u32, direction: MoveResizeDirection },
    LockedResize,
}

/// What becomes of a configure request that changes a window's size.
#[derive(Clone, Copy, Debug, PartialEq, Eq, Structural)]
pub enum ConfigureResizeDecision {
    NotHandled,
    Handled,
    StartWaylandResize(MoveResizeDirection),
}

/// The attributes of an X11 window that are plain numbers and flags.
#[derive(Clone, Copy, Debug, PartialEq, Eq, Structural)]
pub struct WindowAttributes {
    pub is_popup: bool,
    pub dims: WindowDims,
    pub size_hints: Option<WmNormalHints>,
    /// The X11 scale at which `size_hints` were given.
    pub hints_x11_scale: SurfaceScaleFactor,
    pub group: Option<u32>,
    pub functions: Option<u32>,
    pub decorations: Option<Decorations>,
    pub transient_for: Option<u32>,
}

/// The state of an X11 window.
#[derive(Clone, Copy, Debug, PartialEq, Eq, Structural)]
pub struct WindowData {
    pub mapped: bool,
    pub attrs: WindowAttributes,
    pub output_offset: WindowOutputOffset,
    pub output_offset_initialized: bool,
    pub initial_toplevel_map_state: InitialToplevelMapState,
    pub configure_interaction: Option<ConfigureInteraction>,
}

impl Decorations {
    /// Whether the client draws its own decorations.
    pub open spec fn clientside(self) -> bool {
        !self.serverside
    }

    /// Whether decorations are wanted from the window manager.
    pub fn is_serverside(self) -> (r: bool)
        ensures
            r == self.serverside,
    {
        self.serverside
    }

    /// Whether the client draws its own decorations.
    pub fn is_clientside(self) -> (r: bool)
        ensures
            r == self.clientside(),
    {
        !self.serverside
    }
}

/// Decorations are drawn for a window unless it says that it draws its own.
pub open spec fn wants_serverside(decorations: Option<Decorations>) -> bool {
    decorations matches Some(d) ==> d.serverside
}

/// Whether decorations are drawn for a window.
pub fn wants_serverside_decorations(decorations: Option<Decorations>) -> (r: bool)
    ensures
        r == wants_serverside(decorations),
{
    match decorations {
        Some(decorations) => decorations.is_serverside(),
        None => true,
    }
}

impl WindowAttributes {
    /// The attributes of a window of which only its kind and rectangle are known.
    pub open spec fn fresh(is_popup: bool, dims: WindowDims) -> WindowAttributes {
        WindowAttributes {
            is_popup,
            dims,
            size_hints: None,
            hints_x11_scale: SurfaceScaleFactor { n120: 120 },
            group: None,
            functions: None,
            decorations: None,
            transient_for: None,
        }
    }
}

impl WindowData {
    /// A resize in progress always drags edges.
    pub open spec fn wf(self) -> bool {
        self.configure_interaction matches Some(ConfigureInteraction::Resize { direction, .. })
            ==> direction.drags_edges()
    }

    /// A window that was just created.
    pub open spec fn fresh(override_redirect: bool, dims: WindowDims) -> WindowData {
        WindowData {
            mapped: false,
            attrs: WindowAttributes::fresh(override_redirect, dims),
            output_offset: (WindowOutputOffset { x: 0, y: 0 }),
            output_offset_initialized: false,
            initial_toplevel_map_state: InitialToplevelMapState::Unset,
            configure_interaction: None,
        }
    }

    /// The window with another rectangle.
    pub open spec fn with_dims(self, dims: WindowDims) -> WindowData {
        WindowData { attrs: WindowAttributes { dims, ..self.attrs }, ..self }
    }

    /// The window with another interaction.
    pub open spec fn with_interaction(
        self,
        configure_interaction: Option<ConfigureInteraction>,
    ) -> WindowData {
        WindowData { configure_interaction, ..self }
    }

    /// The window with the origin of its output written down.
    pub open spec fn offset_recorded(self, offset: WindowOutputOffset) -> WindowData {
        WindowData { output_offset: offset, output_offset_initialized: true, ..self }
    }

    /// A first mapping waits while the window has no place of its own, nor decorations that the
    /// window manager owes it.
    pub open spec fn defers_initial_map(self) -> bool {
        &&& !self.attrs.is_popup
        &&& !(self.attrs.decorations matches Some(d) && d.serverside)
        &&& self.attrs.dims.x == 0
        &&& self.attrs.dims.y == 0
        &&& self.initial_toplevel_map_state is Unset
    }

    /// The rectangle of a window whose output moved from its recorded origin to `offset`.
    pub open spec fn shifted_dims(self, offset: WindowOutputOffset) -> WindowDims {
        WindowDims {
            x: geometry::low_i16(self.attrs.dims.x + offset.x - self.output_offset.x) as i16,
            y: geometry::low_i16(self.attrs.dims.y + offset.y - self.output_offset.y) as i16,
            width: self.attrs.dims.width,
            height: self.attrs.dims.height,
        }
    }

    /// Whether an output at `offset` makes the window move. A managed window that came with a place
    /// of its own keeps it on the first output that it enters. The place of a popup is relative to
    /// its output.
    pub open spec fn offset_moves(self, offset: WindowOutputOffset) -> bool {
        if self.output_offset_initialized {
            offset != self.output_offset
        } else {
            self.attrs.is_popup || (self.attrs.dims.x == 0 && self.attrs.dims.y == 0)
        }
    }

    /// The window once it is on an output with the given origin.
    pub open spec fn on_offset(self, offset: WindowOutputOffset) -> WindowData {
        if self.offset_moves(offset) {
            self.with_dims(self.shifted_dims(offset)).offset_recorded(offset)
        } else {
            self.offset_recorded(offset)
        }
    }

    /// The X11 configuration that goes with `on_offset`.
    pub open spec fn offset_configuration(self, offset: WindowOutputOffset) -> Option<
        PendingSurfaceState,
    > {
        if self.offset_moves(offset) {
            Some(pending_of(self.shifted_dims(offset)))
        } else {
            None
        }
    }

    /// Creates the state of a window that was just created.
    pub fn new(override_redirect: bool, dims: WindowDims) -> (data: WindowData)
        ensures
            data == WindowData::fresh(override_redirect, dims),
            data.wf(),
    {
        WindowData {
            mapped: false,
            attrs: WindowAttributes {
                is_popup: override_redirect,
                dims,
                size_hints: None,
                hints_x11_scale: SurfaceScaleFactor { n120: 120 },
                group: None,
                functions: None,
                decorations: None,
                transient_for: None,
            },
            output_offset: WindowOutputOffset { x: 0, y: 0 },
            output_offset_initialized: false,
            initial_toplevel_map_state: InitialToplevelMapState::Unset,
            configure_interaction: None,
        }
    }

    /// Whether the window has been on an output.
    pub fn has_output_offset(&self) -> (r: bool)
        ensures
            r == self.output_offset_initialized,
    {
        self.output_offset_initialized
    }

    /// Whether the window asked not to be managed.
    pub fn is_popup(&self) -> (r: bool)
        ensures
            r == self.attrs.is_popup,
    {
        self.attrs.is_popup
    }

    /// Writes down the origin of the output that the window is on.
    pub fn record_output_offset(&mut self, offset: WindowOutputOffset)
        ensures
            *final(self) == old(self).offset_recorded(offset),
    {
        self.output_offset = offset;
        self.output_offset_initialized = true;
    }

    /// Moves the window along with its output. Returns the configuration to send to the X server
    /// if the window moved.
    pub fn update_output_offset(&mut self, offset: WindowOutputOffset) -> (configuration: Option<
        PendingSurfaceState,
    >)
        ensures
            *final(self) == old(self).on_offset(offset),
            configuration == old(self).offset_configuration(offset),
    {
        if self.output_offset_initialized && offset == self.output_offset {
            return None;
        }
        let previous_offset = self.output_offset;
        if !self.output_offset_initialized && !self.attrs.is_popup && (self.attrs.dims.x != 0
            || self.attrs.dims.y != 0) {
            self.record_output_offset(offset);
            return None;
        }
        proof {
            geometry::lemma_low_i16_sum(self.attrs.dims.x as int, offset.x - previous_offset.x);
            geometry::lemma_low_i16_sum(self.attrs.dims.y as int, offset.y - previous_offset.y);
        }
        self.attrs.dims.x = add_i16(
            self.attrs.dims.x,
            truncate_i16(sub_i32(offset.x, previous_offset.x)),
        );
        self.attrs.dims.y = add_i16(
            self.attrs.dims.y,
            truncate_i16(sub_i32(offset.y, previous_offset.y)),
        );
        let configuration = PendingSurfaceState {
            x: self.attrs.dims.x as i32,
            y: self.attrs.dims.y as i32,
            width: self.attrs.dims.width as i32,
            height: self.attrs.dims.height as i32,
        };
        self.record_output_offset(offset);
        Some(configuration)
    }

    /// As [`WindowData::update_output_offset`], for a window that enters an output: one that is
    /// managed keeps its place once it has been on an output.
    pub fn update_output_offset_on_enter(&mut self, offset: WindowOutputOffset) -> (configuration:
        Option<PendingSurfaceState>)
        ensures
            *final(self) == (if !old(self).attrs.is_popup && old(self).output_offset_initialized {
                *old(self)
            } else {
                old(self).on_offset(offset)
            }),
            configuration == (if !old(self).attrs.is_popup && old(self).output_offset_initialized {
                None
            } else {
                old(self).offset_configuration(offset)
            }),
    {
        if !self.is_popup() && self.has_output_offset() {
            return None;
        }
        self.update_output_offset(offset)
    }

    /// Whether the first toplevel of this window should wait for its geometry.
    pub fn should_defer_initial_toplevel_map(&self) -> (r: bool)
        ensures
            r == self.defers_initial_map(),
    {
        let serverside = match self.attrs.decorations {
            Some(decorations) => decorations.is_serverside(),
            None => false,
        };
        !self.attrs.is_popup && !serverside && self.attrs.dims.x == 0 && self.attrs.dims.y == 0
            && matches!(self.initial_toplevel_map_state, InitialToplevelMapState::Unset)
    }

    /// Makes the first toplevel wait, at most until the timeout after `now`.
    pub fn defer_initial_toplevel_map(&mut self, now: u64)
        requires
            now + DEFERRED_INITIAL_TOPLEVEL_TIMEOUT <= u64::MAX,
        ensures
            *final(self) == (WindowData {
                initial_toplevel_map_state: InitialToplevelMapState::Deferred {
                    deadline: (now + DEFERRED_INITIAL_TOPLEVEL_TIMEOUT) as u64,
                },
                ..*old(self)
            }),
    {
        self.initial_toplevel_map_state = InitialToplevelMapState::Deferred {
            deadline: now + DEFERRED_INITIAL_TOPLEVEL_TIMEOUT,
        };
    }

    /// Whether the first toplevel is waiting.
    pub fn has_deferred_initial_toplevel_map(&self) -> (r: bool)
        ensures
            r == (self.initial_toplevel_map_state is Deferred),
    {
        matches!(self.initial_toplevel_map_state, InitialToplevelMapState::Deferred { .. })
    }

    /// When the first toplevel stops waiting, if it waits.
    pub fn deferred_initial_toplevel_deadline(&self) -> (deadline: Option<u64>)
        ensures
            deadline == (match self.initial_toplevel_map_state {
                InitialToplevelMapState::Deferred { deadline } => Some(deadline),
                _ => None,
            }),
    {
        match self.initial_toplevel_map_state {
            InitialToplevelMapState::Deferred { deadline } => Some(deadline),
            InitialToplevelMapState::Unset | InitialToplevelMapState::Released => None,
        }
    }

    /// Ends the wait of the first toplevel. Returns whether it was waiting.
    pub fn release_initial_toplevel_map(&mut self) -> (released: bool)
        ensures
            released == (old(self).initial_toplevel_map_state is Deferred),
            *final(self) == (if released {
                WindowData {
                    initial_toplevel_map_state: InitialToplevelMapState::Released,
                    ..*old(self)
                }
            } else {
                *old(self)
            }),
    {
        if matches!(self.initial_toplevel_map_state, InitialToplevelMapState::Deferred { .. }) {
            self.initial_toplevel_map_state = InitialToplevelMapState::Released;
            return true;
        }
        false
    }
}

/// A window rectangle in the integers of an X11 configure request.
pub open spec fn pending_of(dims: WindowDims) -> PendingSurfaceState {
    PendingSurfaceState {
        x: dims.x as i32,
        y: dims.y as i32,
        width: dims.width as i32,
        height: dims.height as i32,
    }
}

/// Whether a size-changing configure request of this window can be an interactive resize.
pub open spec fn resizable_by_configure(
    win: WindowData,
    dims: WindowDims,
    mask: ConfigWindowMask,
) -> bool {
    let requested = geometry::masked_dims(win.attrs.dims, dims, mask);
    &&& win.mapped
    &&& !win.attrs.is_popup
    &&& wants_serverside(win.attrs.decorations)
    &&& (requested.width != win.attrs.dims.width || requested.height != win.attrs.dims.height)
    &&& resize::inferred_direction(win.attrs.dims, requested) is Some
}

/// What a configure request that follows the press `serial` comes to. A locked resize swallows
/// every request; so does a move that the same press began. A resize of the same press can only
/// grow by edges that do not contradict it.
pub open spec fn resize_decision(
    win: WindowData,
    serial: u32,
    dims: WindowDims,
    mask: ConfigWindowMask,
) -> ConfigureResizeDecision {
    if !win.mapped || win.attrs.is_popup {
        ConfigureResizeDecision::NotHandled
    } else if win.configure_interaction == Some(ConfigureInteraction::LockedResize) {
        ConfigureResizeDecision::Handled
    } else if !resizable_by_configure(win, dims, mask) {
        ConfigureResizeDecision::NotHandled
    } else {
        let direction = resize::inferred_direction(
            win.attrs.dims,
            geometry::masked_dims(win.attrs.dims, dims, mask),
        )->0;
        match win.configure_interaction {
            Some(ConfigureInteraction::Move { serial: current }) if current == serial =>
                ConfigureResizeDecision::Handled,
            Some(ConfigureInteraction::Resize { serial: current, direction: previous })
                if current == serial => {
                if resize::merged(previous, direction) is None || resize::merged(previous, direction) == Some(
                    previous,
                ) {
                    ConfigureResizeDecision::Handled
                } else {
                    ConfigureResizeDecision::StartWaylandResize(resize::merged(previous, direction)->0)
                }
            },
            _ => ConfigureResizeDecision::StartWaylandResize(direction),
        }
    }
}

/// Decides what a configure request that follows the press `serial` comes to, and remembers the
/// resize that it starts.
pub fn decide_configure_resize(
    win: &mut WindowData,
    serial: u32,
    dims: WindowDims,
    mask: ConfigWindowMask,
) -> (decision: ConfigureResizeDecision)
    requires
        old(win).wf(),
    ensures
        final(win).wf(),
        decision == resize_decision(*old(win), serial, dims, mask),
        decision matches ConfigureResizeDecision::StartWaylandResize(direction)
            ==> direction.drags_edges(),
        *final(win) == (match decision {
            ConfigureResizeDecision::StartWaylandResize(direction) => old(win).with_interaction(
                Some(ConfigureInteraction::Resize { serial, direction }),
            ),
            _ => *old(win),
        }),
{
    if !win.mapped || win.attrs.is_popup {
        return ConfigureResizeDecision::NotHandled;
    }
    if matches!(win.configure_interaction, Some(ConfigureInteraction::LockedResize)) {
        return ConfigureResizeDecision::Handled;
    }
    if let Some(decorations) = win.attrs.decorations {
        if decorations.is_clientside() {
            return ConfigureResizeDecision::NotHandled;
        }
    }
    let current_dims = win.attrs.dims;
    let requested_dims = requested_dims_from_mask(current_dims, dims, mask);
    if requested_dims.width == current_dims.width && requested_dims.height == current_dims.height {
        return ConfigureResizeDecision::NotHandled;
    }
    let direction = match infer_resize_direction(current_dims, requested_dims) {
        Some(direction) => direction,
        None => return ConfigureResizeDecision::NotHandled,
    };
    match win.configure_interaction {
        Some(ConfigureInteraction::Move { serial: current_serial }) => {
            if current_serial == serial {
                return ConfigureResizeDecision::Handled;
            }
        },
        Some(ConfigureInteraction::Resize {
            serial: current_serial,
            direction: previous_direction,
        }) => {
            if current_serial == serial {
                let merged_direction = match merge_resize_directions(
                    previous_direction,
                    direction,
                ) {
                    Some(merged_direction) => merged_direction,
                    None => return ConfigureResizeDecision::Handled,
                };
                if merged_direction == previous_direction {
                    return ConfigureResizeDecision::Handled;
                }
                win.configure_interaction = Some(
                    ConfigureInteraction::Resize { serial, direction: merged_direction },
                );
                return ConfigureResizeDecision::StartWaylandResize(merged_direction);
            }
        },
        _ => {},
    }
    win.configure_interaction = Some(ConfigureInteraction::Resize { serial, direction });
    ConfigureResizeDecision::StartWaylandResize(direction)
}

/// A window that its output carries away and back again is where it was.
pub proof fn law_output_move_is_undone(
    win: WindowData,
    away: WindowOutputOffset,
)
    requires
        win.output_offset_initialized,
    ensures
        win.on_offset(away).on_offset(win.output_offset) == win,
{
}

/// An output that stays where it is does not configure its windows.
pub proof fn law_same_offset_sends_nothing(win: WindowData)
    requires
        win.output_offset_initialized,
    ensures
        win.offset_configuration(win.output_offset) is None,
        win.on_offset(win.output_offset) == win,
{
}

/// A request that already started a resize does not start it again.
pub proof fn law_resize_starts_once(
    win: WindowData,
    serial: u32,
    dims: WindowDims,
    mask: ConfigWindowMask,
    direction: MoveResizeDirection,
)
    requires
        win.wf(),
        resize_decision(win, serial, dims, mask) == ConfigureResizeDecision::StartWaylandResize(
            direction,
        ),
    ensures
        resize_decision(
            win.with_interaction(Some(ConfigureInteraction::Resize { serial, direction })),
            serial,
            dims,
            mask,
        ) == ConfigureResizeDecision::Handled,
{
}

/// A resize that one press began only ever gains edges.
pub proof fn law_resize_only_grows(
    win: WindowData,
    serial: u32,
    dims: WindowDims,
    mask: ConfigWindowMask,
    previous: MoveResizeDirection,
    direction: MoveResizeDirection,
)
    requires
        previous.drags_edges(),
        win.configure_interaction == Some(
            ConfigureInteraction::Resize { serial, direction: previous },
        ),
        resize_decision(win, serial, dims, mask) == ConfigureResizeDecision::StartWaylandResize(
            direction,
        ),
    ensures
        resize::axes_of(previous).0 is Some ==> resize::axes_of(direction).0
            == resize::axes_of(previous).0,
        resize::axes_of(previous).1 is Some ==> resize::axes_of(direction).1
            == resize::axes_of(previous).1,
{
}

/// Decorations are wanted from the window manager unless the window says that it draws its own.
pub proof fn law_decorations_are_wanted_by_default(decorations: Option<Decorations>)
    ensures
        decorations is None ==> wants_serverside(decorations),
        decorations matches Some(d) ==> (wants_serverside(decorations) <==> d.serverside),
        decorations matches Some(d) ==> d.clientside() != d.serverside,
{
}

/// A new window is unmapped, has the rectangle that it was created with and is managed unless it
/// says otherwise; nothing else is known of it.
pub proof fn law_new_window(override_redirect: bool, dims: WindowDims)
    ensures
        ({
            let data = WindowData::fresh(override_redirect, dims);
            &&& !data.mapped
            &&& data.attrs.dims == dims
            &&& data.attrs.is_popup == override_redirect
            &&& data.attrs.decorations is None && data.attrs.size_hints is None && data.attrs.group
                is None && data.attrs.transient_for is None && data.attrs.functions is None
            &&& data.attrs.hints_x11_scale.n120 == 120
            &&& !data.output_offset_initialized && data.output_offset.x == 0
                && data.output_offset.y == 0
            &&& data.initial_toplevel_map_state is Unset
            &&& data.configure_interaction is None
        }),
{
}

/// A window waits for its geometry only if it is managed, was not told to be decorated, lies at the
/// origin, and has not waited before.
pub proof fn law_who_waits_for_geometry(win: WindowData)
    ensures
        win.attrs.is_popup ==> !win.defers_initial_map(),
        win.attrs.dims.x != 0 || win.attrs.dims.y != 0 ==> !win.defers_initial_map(),
        !(win.initial_toplevel_map_state is Unset) ==> !win.defers_initial_map(),
        win.attrs.decorations == Some(Decorations { serverside: true, resize_handles: true })
            ==> !win.defers_initial_map(),
        win.attrs.decorations == Some(Decorations { serverside: true, resize_handles: false })
            ==> !win.defers_initial_map(),
        !win.attrs.is_popup && win.attrs.dims.x == 0 && win.attrs.dims.y == 0
            && win.initial_toplevel_map_state is Unset && (win.attrs.decorations is None || !(
        win.attrs.decorations->0.serverside)) ==> win.defers_initial_map(),
{
}

/// A window that moves along with its output keeps its size and its place on the output, and the X
/// server is told exactly the rectangle that it then has. A managed window that took a place of
/// its own before its output was known stays there.
pub proof fn law_window_keeps_its_place_on_the_output(win: WindowData, offset: WindowOutputOffset)
    ensures
        ({
            let after = win.on_offset(offset);
            let told = win.offset_configuration(offset);
            &&& after.output_offset == offset
            &&& after.output_offset_initialized
            &&& after.attrs.dims.width == win.attrs.dims.width
            &&& after.attrs.dims.height == win.attrs.dims.height
            &&& after.mapped == win.mapped && after.configure_interaction
                == win.configure_interaction && after.initial_toplevel_map_state
                == win.initial_toplevel_map_state
            &&& after.attrs.is_popup == win.attrs.is_popup && after.attrs.decorations
                == win.attrs.decorations && after.attrs.group == win.attrs.group
            &&& win.output_offset_initialized ==> ((after.attrs.dims.x - offset.x) - (
            win.attrs.dims.x - win.output_offset.x)) % 0x10000 == 0
            &&& win.output_offset_initialized ==> ((after.attrs.dims.y - offset.y) - (
            win.attrs.dims.y - win.output_offset.y)) % 0x10000 == 0
            &&& win.output_offset_initialized && i16::MIN <= win.attrs.dims.x + offset.x
                - win.output_offset.x <= i16::MAX ==> after.attrs.dims.x - offset.x
                == win.attrs.dims.x - win.output_offset.x
            &&& win.output_offset_initialized && i16::MIN <= win.attrs.dims.y + offset.y
                - win.output_offset.y <= i16::MAX ==> after.attrs.dims.y - offset.y
                == win.attrs.dims.y - win.output_offset.y
            &&& !win.output_offset_initialized && !win.attrs.is_popup && (win.attrs.dims.x != 0
                || win.attrs.dims.y != 0) ==> told is None
            &&& !win.output_offset_initialized && (win.attrs.is_popup || (win.attrs.dims.x == 0
                && win.attrs.dims.y == 0)) ==> told is Some
            &&& win.output_offset_initialized ==> (told is Some <==> offset != win.output_offset)
            &&& told is None ==> after.attrs.dims == win.attrs.dims
            &&& told matches Some(told) ==> told.x == after.attrs.dims.x && told.y
                == after.attrs.dims.y && told.width == after.attrs.dims.width && told.height
                == after.attrs.dims.height
        }),
{
    geometry::law_low_bits(win.attrs.dims.x + offset.x - win.output_offset.x);
    geometry::law_low_bits(win.attrs.dims.y + offset.y - win.output_offset.y);
}

/// A configure request starts a resize only of a mapped, managed window that does not draw its own
/// decorations, and only along the edges that the request moves. A locked resize takes every
/// request, and a press that already moves the window never resizes it.
pub proof fn law_who_is_resized_by_a_request(
    win: WindowData,
    serial: u32,
    dims: WindowDims,
    mask: ConfigWindowMask,
)
    ensures
        ({
            let decision = resize_decision(win, serial, dims, mask);
            let own = win.attrs.decorations matches Some(d) && !d.serverside;
            let locked = win.configure_interaction == Some(ConfigureInteraction::LockedResize);
            let moving = win.configure_interaction == Some(ConfigureInteraction::Move { serial });
            let requested = geometry::masked_dims(win.attrs.dims, dims, mask);
            let resized = requested.width != win.attrs.dims.width || requested.height
                != win.attrs.dims.height;
            let inferred = resize::inferred_direction(win.attrs.dims, requested);
            &&& !win.mapped || win.attrs.is_popup ==> decision
                == ConfigureResizeDecision::NotHandled
            &&& win.mapped && !win.attrs.is_popup && locked ==> decision
                == ConfigureResizeDecision::Handled
            &&& !locked && (own || !resized || inferred is None) ==> decision
                == ConfigureResizeDecision::NotHandled
            &&& !mask.width && !mask.height && !locked ==> decision
                == ConfigureResizeDecision::NotHandled
            &&& win.mapped && !win.attrs.is_popup && !locked && !own && resized && inferred is Some
                && win.configure_interaction is None ==> decision
                == ConfigureResizeDecision::StartWaylandResize(inferred->0)
            &&& moving ==> !(decision is StartWaylandResize)
        }),
{
}

/// A new rectangle, a new interaction or a new origin of the output each replace just that.
pub proof fn law_one_thing_is_replaced(
    win: WindowData,
    dims: WindowDims,
    interaction: Option<ConfigureInteraction>,
    offset: WindowOutputOffset,
)
    ensures
        win.with_dims(dims).attrs.dims == dims,
        win.with_dims(dims).with_dims(win.attrs.dims) == win,
        win.with_interaction(interaction).configure_interaction == interaction,
        win.with_interaction(interaction).with_interaction(win.configure_interaction) == win,
        win.offset_recorded(offset).output_offset == offset,
        win.offset_recorded(offset).output_offset_initialized,
        (WindowData {
            output_offset: win.output_offset,
            output_offset_initialized: win.output_offset_initialized,
            ..win.offset_recorded(offset)
        }) == win,
        pending_of(dims).x == dims.x && pending_of(dims).y == dims.y,
        pending_of(dims).width == dims.width && pending_of(dims).height == dims.height,
{
}

} // verus!
