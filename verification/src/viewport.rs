//! What follows from the size at which a window's surface is shown.

use vstd::prelude::*;
use crate::decoration;
use crate::decoration::decorations_height;
use crate::output::SurfaceScaleFactor;
use crate::state::InnerServerState;
use crate::titlebar::DrawDecision;
use crate::window::WmNormalHints;
use crate::windows;
use crate::world;
use crate::world::Parts;

verus! {

/// The size at which a surface is shown.
#[derive(Clone, Copy, Debug, PartialEq, Eq, Structural)]
pub struct Destination {
    pub width: i32,
    pub height: i32,
}

/// Size limits to put on a toplevel: those of the window, divided by the scale and with the
/// decorations added. A limit that the window does not have is lifted.
#[derive(Clone, Copy, Debug, PartialEq, Eq, Structural)]
pub struct SizeLimits {
    pub hints: WmNormalHints,
    pub scale: SurfaceScaleFactor,
    pub decorations_height: i32,
}

/// What is to be done about a surface whose size or scale changed.
#[derive(Clone, Copy, Debug, PartialEq, Eq, Structural)]
pub struct ViewportUpdate {
    /// The size to show the surface at, if there is any.
    pub destination: Option<Destination>,
    pub draw: DrawDecision,
    pub limits: Option<SizeLimits>,
}

/// A height with that of the decorations, as far as it goes.
pub open spec fn decorated(height: int, decorations: int) -> int {
    let sum = height + decorations;
    if sum > i32::MAX {
        i32::MAX as int
    } else if sum < i32::MIN {
        i32::MIN as int
    } else {
        sum
    }
}

/// A height limit with that of the decorations, as far as it goes.
pub fn decorated_height(height: i32, decorations: i32) -> (sum: i32)
    ensures
        sum == decorated(height as int, decorations as int),
{
    let sum: i64 = height as i64 + decorations as i64;
    if sum > i32::MAX as i64 {
        i32::MAX
    } else if sum < i32::MIN as i64 {
        i32::MIN
    } else {
        sum as i32
    }
}

/// The limits that go with an entity's toplevel.
pub open spec fn limits_of(p: Parts) -> Option<SizeLimits> {
    match (windows::toplevel_of(p), p.data->0.attrs.size_hints) {
        (Some(toplevel), Some(hints)) => Some(
            SizeLimits {
                hints,
                scale: p.scale->0,
                decorations_height: decoration::height_of(toplevel.decoration.satellite),
            },
        ),
        _ => None,
    }
}

impl InnerServerState {
    /// Takes the size at which an entity's surface is now shown. Nothing follows for an entity
    /// that is no window with a surface.
    pub fn update_surface_viewport(&mut self, entity: u64, width: i32, height: i32) -> (update: Option<
        ViewportUpdate,
    >)
        ensures
            match (world::at(old(self).parts(), entity), update) {
                (Some(p), Some(update)) => {
                    &&& p.data is Some && p.scale is Some
                    &&& update.destination == (if width > 0 && height > 0 {
                        Some(Destination { width, height })
                    } else {
                        None
                    })
                    &&& update.limits == limits_of(p)
                    &&& match old(self).decorations(entity) {
                        Some(d) => update.draw == d.draw_decision(width) && old(
                            self,
                        ).decorations_replaced(*final(self), entity, d.drawn(width, height)),
                        None => update.draw == DrawDecision::Nothing && *final(self) == *old(self),
                    }
                },
                (p, None) => {
                    &&& p matches Some(p) ==> p.data is None || p.scale is None
                    &&& *final(self) == *old(self)
                },
                (None, Some(_)) => false,
            },
            old(self).wf() ==> final(self).wf(),
            old(self).one_entity_each() ==> final(self).one_entity_each(),
    {
        let parts = match world::get(&self.world, entity) {
            Some(parts) => parts,
            None => return None,
        };
        let (data, scale) = match (parts.data, parts.scale) {
            (Some(data), Some(scale)) => (data, scale),
            _ => return None,
        };
        let destination = if width > 0 && height > 0 {
            Some(Destination { width, height })
        } else {
            None
        };
        let toplevel = match parts.role {
            Some(role) => role.toplevel(),
            None => None,
        };
        let limits = match (toplevel, data.attrs.size_hints) {
            (Some(toplevel), Some(hints)) => Some(
                SizeLimits {
                    hints,
                    scale,
                    decorations_height: decorations_height(&toplevel.decoration.satellite),
                },
            ),
            _ => None,
        };
        let draw = self.draw_decorations(entity, width, height);
        Some(ViewportUpdate { destination, draw, limits })
    }
}

/// A window with decorations is as high as both together, as far as that can be told.
pub proof fn law_decorated_height(height: int, decorations: int)
    ensures
        i32::MIN <= height + decorations <= i32::MAX ==> decorated(height, decorations) == height
            + decorations,
        i32::MIN <= decorated(height, decorations) <= i32::MAX,
        height + decorations > i32::MAX ==> decorated(height, decorations) == i32::MAX,
        height + decorations < i32::MIN ==> decorated(height, decorations) == i32::MIN,
{
}

/// A toplevel with size hints is given limits: those hints, at the scale of its surface, with the
/// height of a title bar only where one is drawn here.
pub proof fn law_limits_follow_the_hints(p: Parts)
    requires
        p.data is Some,
        p.scale is Some,
    ensures
        ({
            let top = p.role matches Some(crate::role::SurfaceRole::Toplevel(Some(_)));
            let satellite = p.role->0->Toplevel_0->0.decoration.satellite;
            &&& limits_of(p) is Some <==> top && p.data->0.attrs.size_hints is Some
            &&& limits_of(p) matches Some(limits) ==> {
                &&& Some(limits.hints) == p.data->0.attrs.size_hints
                &&& Some(limits.scale) == p.scale
                &&& satellite is None || !satellite->0.draw_titlebar ==> limits.decorations_height
                    == 0
                &&& satellite is Some && satellite->0.draw_titlebar ==> limits.decorations_height
                    == 25
            }
        }),
{
}

} // verus!
