//! Tablets: which window a tool is over, and at what scale it moves there.

use vstd::prelude::*;
use crate::output::SurfaceScaleFactor;
use crate::state::InnerServerState;
use crate::world;
use crate::world::Parts;

verus! {

/// Whether an entity is a window that a tool can be over.
pub open spec fn can_be_approached(p: Parts) -> bool {
    p.surface && p.scale is Some && p.window is Some
}

impl InnerServerState {
    /// Handles `zwp_tablet_tool.proximity_in`. Returns the window to raise, unless the surface or
    /// the tablet is stale.
    pub fn tool_proximity_in(&mut self, tool: u64, surface: u64, tablet: Option<u64>) -> (raised:
        Option<u32>)
        requires
            old(self).parts().contains_key(tool),
        ensures
            ({
                let parts = old(self).parts();
                if parts.contains_key(surface) && can_be_approached(parts[surface]) && (
                tablet matches Some(tablet) && parts.contains_key(tablet)) {
                    &&& raised == parts[surface].window
                    &&& final(self).parts() == parts.insert(
                        tool,
                        Parts { scale: parts[surface].scale, ..parts[tool] },
                    )
                } else {
                    raised is None && final(self).parts() == parts
                }
            }),
            old(self).only_parts_changed(*final(self)),
            old(self).wf() ==> final(self).wf(),
            old(self).one_entity_each() ==> final(self).one_entity_each(),
    {
        let over = match world::get(&self.world, surface) {
            Some(over) => over,
            None => return None,
        };
        if !over.surface || over.scale.is_none() || over.window.is_none() {
            return None;
        }
        match tablet {
            Some(tablet) => {
                if world::get(&self.world, tablet).is_none() {
                    return None;
                }
            },
            None => return None,
        }
        if let Some(parts) = world::get(&self.world, tool) {
            world::set(&mut self.world, tool, Parts { scale: over.scale, ..parts });
        }
        over.window
    }

    /// The scale at which a tool moves: that of the surface that it is over, or one before it has
    /// been over any.
    pub fn tool_scale(&self, tool: u64) -> (scale: SurfaceScaleFactor)
        ensures
            scale == (match world::at(self.parts(), tool) {
                Some(Parts { scale: Some(scale), .. }) => scale,
                _ => SurfaceScaleFactor { n120: 120 },
            }),
    {
        match world::get(&self.world, tool) {
            Some(parts) => match parts.scale {
                Some(scale) => scale,
                None => SurfaceScaleFactor::unit(),
            },
            None => SurfaceScaleFactor::unit(),
        }
    }
}

/// A tool can come near exactly the surfaces that are there, have a scale and belong to a window.
pub proof fn law_what_a_tool_can_approach(p: Parts)
    ensures
        can_be_approached(p) ==> p.surface && p.scale is Some && p.window is Some,
        p.surface && p.scale is Some && p.window is Some ==> can_be_approached(p),
{
}

} // verus!
