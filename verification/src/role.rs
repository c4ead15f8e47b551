//! The `xdg_shell` role that a surface has been given.

use vstd::prelude::*;
use crate::decoration::DecorationsDataSatellite;
use crate::geometry::PendingSurfaceState;

verus! {

/// What the compositor says that it can do with a toplevel, as far as the title bar shows it.
#[derive(Clone, Copy, Debug, PartialEq, Eq, Structural)]
pub struct ToplevelCapabilities {
    pub maximize: bool,
    pub minimize: bool,
}

/// The state of an `xdg_surface`.
#[derive(Clone, Copy, Debug, PartialEq, Eq, Structural)]
pub struct XdgSurfaceData {
    pub configured: bool,
    pub pending: Option<PendingSurfaceState>,
}

/// Who decorates a toplevel.
#[derive(Clone, Copy, Debug, PartialEq, Eq, Structural)]
pub struct DecorationsData {
    /// A decoration object of the compositor exists.
    pub wl: bool,
    /// The decorations that are drawn here.
    pub satellite: Option<DecorationsDataSatellite>,
}

/// The state of an `xdg_toplevel`.
#[derive(Clone, Copy, Debug, PartialEq, Eq, Structural)]
pub struct ToplevelData {
    pub xdg: XdgSurfaceData,
    pub fullscreen: bool,
    pub maximized: bool,
    pub tiled: bool,
    pub minimized: bool,
    pub capabilities: ToplevelCapabilities,
    pub decoration: DecorationsData,
}

/// The state of an `xdg_popup`.
#[derive(Clone, Copy, Debug, PartialEq, Eq, Structural)]
pub struct PopupData {
    pub xdg: XdgSurfaceData,
}

/// The role of a surface. The inner value is gone once the role object has been destroyed.
#[derive(Clone, Copy, Debug, PartialEq, Eq, Structural)]
pub enum SurfaceRole {
    Toplevel(Option<ToplevelData>),
    Popup(Option<PopupData>),
}

impl ToplevelCapabilities {
    /// Everything can be done.
    pub fn all() -> (capabilities: ToplevelCapabilities)
        ensures
            capabilities.maximize,
            capabilities.minimize,
    {
        ToplevelCapabilities { maximize: true, minimize: true }
    }
}

impl SurfaceRole {
    /// The toplevel of a surface that has one.
    pub open spec fn live_toplevel(self) -> Option<ToplevelData> {
        match self {
            SurfaceRole::Toplevel(toplevel) => toplevel,
            SurfaceRole::Popup(_) => None,
        }
    }

    /// The `xdg_surface` under the role.
    pub open spec fn xdg_surface(self) -> Option<XdgSurfaceData> {
        match self {
            SurfaceRole::Toplevel(Some(toplevel)) => Some(toplevel.xdg),
            SurfaceRole::Popup(Some(popup)) => Some(popup.xdg),
            _ => None,
        }
    }

    /// The role with another state of its `xdg_surface`.
    pub open spec fn with_xdg(self, xdg: XdgSurfaceData) -> SurfaceRole {
        match self {
            SurfaceRole::Toplevel(Some(toplevel)) => SurfaceRole::Toplevel(
                Some(ToplevelData { xdg, ..toplevel }),
            ),
            SurfaceRole::Popup(Some(popup)) => SurfaceRole::Popup(Some(PopupData { xdg, ..popup })),
            role => role,
        }
    }

    /// The role once its objects have been destroyed: no decoration object is left to speak to.
    pub open spec fn torn_down(self) -> SurfaceRole {
        match self {
            SurfaceRole::Toplevel(Some(toplevel)) => SurfaceRole::Toplevel(
                Some(
                    ToplevelData {
                        decoration: DecorationsData { wl: false, ..toplevel.decoration },
                        ..toplevel
                    },
                ),
            ),
            role => role,
        }
    }

    /// The toplevel of a surface that has one.
    pub fn toplevel(&self) -> (toplevel: Option<ToplevelData>)
        ensures
            toplevel == self.live_toplevel(),
    {
        match *self {
            SurfaceRole::Toplevel(toplevel) => toplevel,
            SurfaceRole::Popup(_) => None,
        }
    }

    /// The `xdg_surface` under the role.
    pub fn xdg(&self) -> (xdg: Option<XdgSurfaceData>)
        ensures
            xdg == self.xdg_surface(),
    {
        match *self {
            SurfaceRole::Toplevel(Some(toplevel)) => Some(toplevel.xdg),
            SurfaceRole::Popup(Some(popup)) => Some(popup.xdg),
            _ => None,
        }
    }

    /// Replaces the state of the `xdg_surface` under the role, if there is one.
    pub fn set_xdg(&mut self, xdg: XdgSurfaceData)
        ensures
            *final(self) == old(self).with_xdg(xdg),
    {
        match *self {
            SurfaceRole::Toplevel(Some(toplevel)) => {
                *self = SurfaceRole::Toplevel(Some(ToplevelData { xdg, ..toplevel }));
            },
            SurfaceRole::Popup(Some(popup)) => {
                *self = SurfaceRole::Popup(Some(PopupData { xdg, ..popup }));
            },
            _ => {},
        }
    }

    /// Takes note that the objects of the role are destroyed.
    pub fn destroy(&mut self)
        ensures
            *final(self) == old(self).torn_down(),
    {
        if let SurfaceRole::Toplevel(Some(toplevel)) = *self {
            let decoration = DecorationsData { wl: false, ..toplevel.decoration };
            *self = SurfaceRole::Toplevel(Some(ToplevelData { decoration, ..toplevel }));
        }
    }
}

/// A role has the `xdg_surface` of the toplevel or popup that it holds, and one that is replaced
/// takes nothing else of the role with it.
pub proof fn law_role_has_one_surface(role: SurfaceRole, xdg: XdgSurfaceData)
    ensures
        role.xdg_surface() is Some <==> (role matches SurfaceRole::Toplevel(Some(_))
            || role matches SurfaceRole::Popup(Some(_))),
        role matches SurfaceRole::Toplevel(Some(toplevel)) ==> role.xdg_surface() == Some(
            toplevel.xdg,
        ) && role.live_toplevel() == Some(toplevel),
        role matches SurfaceRole::Popup(Some(popup)) ==> role.xdg_surface() == Some(popup.xdg),
        role is Popup || role == SurfaceRole::Toplevel(None) ==> role.live_toplevel() is None,
        role.xdg_surface() is Some ==> role.with_xdg(xdg).xdg_surface() == Some(xdg),
        role.xdg_surface() is Some ==> role.with_xdg(xdg).with_xdg(role.xdg_surface()->0) == role,
        role.xdg_surface() is None ==> role.with_xdg(xdg) == role,
        role.with_xdg(xdg) is Popup == role is Popup,
{
}

/// Destroying a role's objects leaves everything but the decoration object.
pub proof fn law_torn_down_role_keeps_the_rest(role: SurfaceRole)
    ensures
        role.torn_down().xdg_surface() == role.xdg_surface(),
        role.torn_down().live_toplevel() is Some == role.live_toplevel() is Some,
        role.live_toplevel() matches Some(toplevel) ==> {
            let left = role.torn_down().live_toplevel()->0;
            &&& !left.decoration.wl
            &&& left.decoration.satellite == toplevel.decoration.satellite
            &&& left.fullscreen == toplevel.fullscreen
            &&& left.maximized == toplevel.maximized
            &&& left.tiled == toplevel.tiled
            &&& left.minimized == toplevel.minimized
            &&& left.capabilities == toplevel.capabilities
        },
        role.torn_down().torn_down() == role.torn_down(),
{
}

} // verus!
