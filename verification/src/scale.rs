//! The one scale that the X server is told, and the surfaces that follow it.

use vstd::prelude::*;
use crate::geometry::{PendingSurfaceState, WindowDims};
use crate::output::SurfaceScaleFactor;
use crate::state::InnerServerState;
use crate::window::{WindowAttributes, WindowData};
use crate::windows;
use crate::world;
use crate::world::Parts;

verus! {

/// A surface that is to follow a new scale. The sizes in between are found by dividing the old size
/// by the old scale.
#[derive(Clone, Copy, Debug, PartialEq, Eq, Structural)]
pub struct Rescale {
    pub entity: u64,
    pub old_scale: SurfaceScaleFactor,
    pub width: u16,
    pub height: u16,
}

/// Whether two scales, in 120ths, are more than a hundredth apart.
pub open spec fn differ(a: int, b: int) -> bool {
    a - b > 1 || b - a > 1
}

/// A scale that makes nothing smaller.
pub open spec fn at_least_one(n120: int) -> int {
    if n120 < 120 {
        120
    } else {
        n120
    }
}

/// Whether an entity is an output that has a scale.
pub open spec fn has_output_scale(p: Parts) -> bool {
    p.output && p.output_scale is Some
}

/// What the outputs call for: the smallest of their scales, and at least one. Without outputs it
/// is one.
pub open spec fn is_smallest_scale(parts: Map<u64, Parts>, n120: int) -> bool {
    let scaled = |e: u64| parts.contains_key(e) && has_output_scale(parts[e]);
    let of = |e: u64| at_least_one(parts[e].output_scale->0.in_120ths());
    if exists|e: u64| #[trigger] scaled(e) {
        &&& exists|e: u64| #[trigger] scaled(e) && of(e) == n120
        &&& forall|e: u64| #[trigger] scaled(e) ==> n120 <= of(e)
    } else {
        n120 == 120
    }
}

/// Whether the scale of an entity's surface has to change.
pub open spec fn needs_rescale(p: Parts, new_scale: SurfaceScaleFactor) -> bool {
    &&& p.data is Some
    &&& p.scale is Some
    &&& differ(at_least_one(p.scale->0.n120 as int), at_least_one(new_scale.n120 as int))
}

/// What is needed to find the new size of an entity's surface.
pub open spec fn rescale_of(entity: u64, p: Parts) -> Rescale {
    Rescale {
        entity,
        old_scale: SurfaceScaleFactor { n120: at_least_one(p.scale->0.n120 as int) as i64 },
        width: p.data->0.attrs.dims.width,
        height: p.data->0.attrs.dims.height,
    }
}

/// An entity whose surface follows a new scale. A mapped toplevel takes the new size, and the X
/// server is to be told.
pub open spec fn rescaled(
    p: Parts,
    new_scale: SurfaceScaleFactor,
    width: u16,
    height: u16,
) -> Parts {
    let scaled = Parts {
        scale: Some(SurfaceScaleFactor { n120: at_least_one(new_scale.n120 as int) as i64 }),
        ..p
    };
    if p.data->0.mapped && windows::toplevel_of(p) is Some {
        let data = p.data->0;
        Parts {
            data: Some(
                WindowData {
                    attrs: WindowAttributes {
                        dims: WindowDims { width, height, ..data.attrs.dims },
                        ..data.attrs
                    },
                    ..data
                },
            ),
            pending_dims: Some(
                PendingSurfaceState {
                    x: data.attrs.dims.x as i32,
                    y: data.attrs.dims.y as i32,
                    width: width as i32,
                    height: height as i32,
                },
            ),
            ..scaled
        }
    } else {
        scaled
    }
}

/// A scale that makes nothing smaller.
fn clamp_scale(scale: SurfaceScaleFactor) -> (clamped: SurfaceScaleFactor)
    ensures
        clamped.n120 == at_least_one(scale.n120 as int),
{
    if scale.n120 < 120 {
        SurfaceScaleFactor::unit()
    } else {
        scale
    }
}

/// Whether two scales are more than a hundredth apart.
fn scales_differ(a: SurfaceScaleFactor, b: SurfaceScaleFactor) -> (r: bool)
    ensures
        r == differ(a.n120 as int, b.n120 as int),
{
    if a.n120 > b.n120 {
        a.n120 - 1 > b.n120
    } else if b.n120 > a.n120 {
        b.n120 - 1 > a.n120
    } else {
        false
    }
}

impl InnerServerState {
    /// What the outputs call for: the smallest of their scales, and at least one. Without outputs
    /// it is one.
    pub fn smallest_output_scale(&self) -> (scale: SurfaceScaleFactor)
        ensures
            is_smallest_scale(self.parts(), scale.n120 as int),
    {
        let ghost parts = self.parts();
        let ghost scaled = |e: u64| parts.contains_key(e) && has_output_scale(parts[e]);
        let ghost of = |e: u64| at_least_one(parts[e].output_scale->0.in_120ths());
        let entities = world::entities(&self.world);
        let mut found: Option<SurfaceScaleFactor> = None;
        let ghost mut at: u64 = 0;
        let mut i: usize = 0;
        while i < entities.len()
            invariant
                i <= entities.len(),
                parts == self.parts(),
                scaled == (|e: u64| parts.contains_key(e) && has_output_scale(parts[e])),
                of == (|e: u64| at_least_one(parts[e].output_scale->0.in_120ths())),
                forall|e: u64| entities@.contains(e) <==> parts.contains_key(e),
                match found {
                    Some(scale) => scaled(at) && of(at) == scale.n120 && forall|k: int|
                        0 <= k < i && scaled(#[trigger] entities@[k]) ==> scale.n120 <= of(
                            entities@[k],
                        ),
                    None => forall|k: int| 0 <= k < i ==> !scaled(#[trigger] entities@[k]),
                },
            decreases entities.len() - i,
        {
            let entity = entities[i];
            assert(entities@.contains(entities@[i as int]));
            if let Some(p) = world::get(&self.world, entity) {
                if let (true, Some(factor)) = (p.output, p.output_scale) {
                    assert(scaled(entity));
                    let scale = clamp_scale(factor.get());
                    let smaller = match found {
                        Some(best) => scale.n120 < best.n120,
                        None => true,
                    };
                    if smaller {
                        found = Some(scale);
                        proof {
                            at = entity;
                        }
                    }
                }
            }
            i += 1;
        }
        proof {
            assert forall|e: u64| #[trigger] scaled(e) implies entities@.contains(e) by {}
        }
        match found {
            Some(scale) => {
                assert forall|e: u64| #[trigger] scaled(e) implies scale.n120 <= of(e) by {
                    assert(entities@.contains(e));
                    let k = choose|k: int| 0 <= k < entities@.len() && entities@[k] == e;
                    assert(scaled(entities@[k]));
                }
                scale
            },
            None => {
                assert forall|e: u64| !(#[trigger] scaled(e)) by {
                    if scaled(e) {
                        assert(entities@.contains(e));
                        let k = choose|k: int| 0 <= k < entities@.len() && entities@[k] == e;
                        assert(scaled(entities@[k]));
                    }
                }
                SurfaceScaleFactor::unit()
            },
        }
    }

    /// Whether the scale that outputs call for once they have changed is found, and kept for the X
    /// server unless one like it is kept already.
    pub open spec fn scale_settled(
        self,
        after: InnerServerState,
        scale: Option<SurfaceScaleFactor>,
    ) -> bool {
        &&& match scale {
            Some(scale) => {
                &&& self.updated_outputs@.len() > 0
                &&& is_smallest_scale(self.parts(), scale.n120 as int)
                &&& after.updated_outputs@.len() == 0
                &&& after.new_scale == (match self.new_scale {
                    Some(queued) if !differ(queued.n120 as int, scale.n120 as int) => Some(queued),
                    _ => Some(scale),
                })
            },
            None => self.updated_outputs@.len() == 0 && after == self,
        }
        &&& after == (InnerServerState {
            updated_outputs: after.updated_outputs,
            new_scale: after.new_scale,
            ..self
        })
    }

    /// Once outputs have changed, finds the scale that they call for. It is kept for the X server
    /// unless one like it is kept already.
    pub fn settle_scale(&mut self) -> (scale: Option<SurfaceScaleFactor>)
        ensures
            old(self).scale_settled(*final(self), scale),
            old(self).wf() ==> final(self).wf(),
            old(self).one_entity_each() ==> final(self).one_entity_each(),
    {
        if self.updated_outputs.len() == 0 {
            return None;
        }
        self.updated_outputs.clear();
        let scale = self.smallest_output_scale();
        let keep = match self.new_scale {
            Some(queued) => !scales_differ(queued, scale),
            None => false,
        };
        if !keep {
            self.new_scale = Some(scale);
        }
        Some(scale)
    }

    /// Takes the scale that the X server is yet to be told, if it differs from what it was told
    /// last.
    pub fn new_global_scale(&mut self) -> (scale: Option<SurfaceScaleFactor>)
        ensures
            scale == (match old(self).new_scale {
                Some(scale) if differ(
                    scale.n120 as int,
                    old(self).published_x11_scale.n120 as int,
                ) => Some(scale),
                _ => None,
            }),
            *final(self) == (InnerServerState { new_scale: None, ..*old(self) }),
            old(self).wf() ==> final(self).wf(),
            old(self).one_entity_each() ==> final(self).one_entity_each(),
    {
        let queued = self.new_scale;
        self.new_scale = None;
        match queued {
            Some(scale) => if scales_differ(scale, self.published_x11_scale) {
                Some(scale)
            } else {
                None
            },
            None => None,
        }
    }

    /// The surfaces that have to follow a new scale.
    pub fn surfaces_to_rescale(&self, new_scale: SurfaceScaleFactor) -> (surfaces: Vec<Rescale>)
        ensures
            forall|k: int|
                0 <= k < surfaces@.len() ==> self.parts().contains_key(
                    (#[trigger] surfaces@[k]).entity,
                ) && needs_rescale(self.parts()[surfaces@[k].entity], new_scale) && surfaces@[k]
                    == rescale_of(surfaces@[k].entity, self.parts()[surfaces@[k].entity]),
            forall|j: int, k: int|
                0 <= j < k < surfaces@.len() ==> (#[trigger] surfaces@[j]).entity != (
                #[trigger] surfaces@[k]).entity,
            forall|entity: u64| #[trigger]
                self.parts().contains_key(entity) && needs_rescale(self.parts()[entity], new_scale)
                    ==> surfaces@.contains(rescale_of(entity, self.parts()[entity])),
    {
        let clamped = clamp_scale(new_scale);
        let entities = world::entities(&self.world);
        let mut surfaces: Vec<Rescale> = Vec::new();
        let mut i: usize = 0;
        while i < entities.len()
            invariant
                i <= entities.len(),
                entities@.no_duplicates(),
                clamped.n120 == at_least_one(new_scale.n120 as int),
                forall|e: u64| entities@.contains(e) <==> self.parts().contains_key(e),
                forall|k: int|
                    0 <= k < surfaces@.len() ==> self.parts().contains_key(
                        (#[trigger] surfaces@[k]).entity,
                    ) && needs_rescale(self.parts()[surfaces@[k].entity], new_scale) && surfaces@[k]
                        == rescale_of(surfaces@[k].entity, self.parts()[surfaces@[k].entity])
                        && exists|n: int| 0 <= n < i && entities@[n] == surfaces@[k].entity,
                forall|j: int, k: int|
                    0 <= j < k < surfaces@.len() ==> (#[trigger] surfaces@[j]).entity != (
                    #[trigger] surfaces@[k]).entity,
                forall|n: int|
                    0 <= n < i && needs_rescale(self.parts()[#[trigger] entities@[n]], new_scale)
                        ==> surfaces@.contains(rescale_of(entities@[n], self.parts()[entities@[n]])),
            decreases entities.len() - i,
        {
            let entity = entities[i];
            assert(entities@.contains(entities@[i as int]));
            let ghost so_far = surfaces@;
            if let Some(p) = world::get(&self.world, entity) {
                if let (Some(data), Some(scale)) = (p.data, p.scale) {
                    let old_scale = clamp_scale(scale);
                    if scales_differ(old_scale, clamped) {
                        surfaces.push(
                            Rescale {
                                entity,
                                old_scale,
                                width: data.attrs.dims.width,
                                height: data.attrs.dims.height,
                            },
                        );
                        proof {
                            assert forall|x: Rescale| so_far.contains(x) implies surfaces@.contains(
                                x,
                            ) by {
                                vstd::seq_lib::lemma_seq_contains_after_push(
                                    so_far,
                                    rescale_of(entity, p),
                                    x,
                                );
                            }
                            assert(surfaces@[so_far.len() as int] == rescale_of(entity, p));
                        }
                    }
                }
            }
            i += 1;
        }
        proof {
            assert forall|entity: u64| #[trigger]
                self.parts().contains_key(entity) && needs_rescale(
                    self.parts()[entity],
                    new_scale,
                ) implies surfaces@.contains(rescale_of(entity, self.parts()[entity])) by {
                assert(entities@.contains(entity));
                let n = choose|n: int| 0 <= n < entities@.len() && entities@[n] == entity;
                assert(needs_rescale(self.parts()[entities@[n]], new_scale));
            }
        }
        surfaces
    }

    /// Lets a surface follow a new scale. Returns whether it had to; its viewport is then to be
    /// updated.
    pub fn rescale_surface(
        &mut self,
        entity: u64,
        new_scale: SurfaceScaleFactor,
        width: u16,
        height: u16,
    ) -> (done: bool)
        ensures
            done == (old(self).parts().contains_key(entity) && needs_rescale(
                old(self).parts()[entity],
                new_scale,
            )),
            final(self).parts() == (if done {
                old(self).parts().insert(
                    entity,
                    rescaled(old(self).parts()[entity], new_scale, width, height),
                )
            } else {
                old(self).parts()
            }),
            old(self).only_parts_changed(*final(self)),
            old(self).wf() ==> final(self).wf(),
            old(self).one_entity_each() ==> final(self).one_entity_each(),
    {
        let parts = match world::get(&self.world, entity) {
            Some(parts) => parts,
            None => return false,
        };
        let (data, scale) = match (parts.data, parts.scale) {
            (Some(data), Some(scale)) => (data, scale),
            _ => return false,
        };
        let clamped = clamp_scale(new_scale);
        if !scales_differ(clamp_scale(scale), clamped) {
            return false;
        }
        let mut changed = parts;
        changed.scale = Some(clamped);
        let toplevel = match parts.role {
            Some(role) => role.toplevel().is_some(),
            None => false,
        };
        if data.mapped && toplevel {
            let mut resized = data;
            resized.attrs.dims.width = width;
            resized.attrs.dims.height = height;
            changed.data = Some(resized);
            changed.pending_dims = Some(
                PendingSurfaceState {
                    x: data.attrs.dims.x as i32,
                    y: data.attrs.dims.y as i32,
                    width: width as i32,
                    height: height as i32,
                },
            );
        }
        world::set(&mut self.world, entity, changed);
        true
    }
}

/// Outputs with the same scales call for the same.
pub(crate) proof fn lemma_same_scales(before: Map<u64, Parts>, after: Map<u64, Parts>, n120: int)
    requires
        before.dom() == after.dom(),
        forall|e: u64| #[trigger]
            before.contains_key(e) ==> before[e].output == after[e].output
                && before[e].output_scale == after[e].output_scale,
        is_smallest_scale(after, n120),
    ensures
        is_smallest_scale(before, n120),
{
    let scaled = |e: u64| before.contains_key(e) && has_output_scale(before[e]);
    let still_scaled = |e: u64| after.contains_key(e) && has_output_scale(after[e]);
    assert forall|e: u64| #[trigger] scaled(e) == still_scaled(e) by {
        assert(before.dom().contains(e) == after.dom().contains(e));
    }
    if exists|e: u64| #[trigger] still_scaled(e) {
        let least = choose|e: u64| #[trigger]
            still_scaled(e) && at_least_one(after[e].output_scale->0.in_120ths()) == n120;
        assert(scaled(least));
        assert forall|e: u64| #[trigger] scaled(e) implies n120 <= at_least_one(
            before[e].output_scale->0.in_120ths(),
        ) by {
            assert(still_scaled(e));
        }
    } else {
        assert forall|e: u64| !(#[trigger] scaled(e)) by {
            assert(!still_scaled(e));
        }
    }
}

/// Once a surface follows a scale it need not follow it again.
pub proof fn law_rescaling_settles(p: Parts, new_scale: SurfaceScaleFactor, width: u16, height: u16)
    requires
        p.data is Some,
    ensures
        !needs_rescale(rescaled(p, new_scale, width, height), new_scale),
{
}

/// The X server is told a scale that no output is below.
pub proof fn law_no_output_is_below_the_scale(parts: Map<u64, Parts>, n120: int, output: u64)
    requires
        is_smallest_scale(parts, n120),
        parts.contains_key(output),
        has_output_scale(parts[output]),
    ensures
        120 <= n120 <= at_least_one(parts[output].output_scale->0.in_120ths()),
{
    let scaled = |e: u64| parts.contains_key(e) && has_output_scale(parts[e]);
    assert(scaled(output));
}

/// No scale is taken for less than one, and one that is more is taken as it is.
pub proof fn law_scales_are_at_least_one(n120: int)
    ensures
        at_least_one(n120) >= 120,
        at_least_one(n120) >= n120,
        n120 >= 120 ==> at_least_one(n120) == n120,
        n120 <= 120 ==> at_least_one(n120) == 120,
{
}

/// Scales differ if they are more than a 120th apart, whichever of them is the larger.
pub proof fn law_scales_differ_both_ways(a: int, b: int)
    ensures
        differ(a, b) == differ(b, a),
        !differ(a, a),
        a >= b + 2 ==> differ(a, b),
        b <= a <= b + 1 ==> !differ(a, b),
{
}

/// The scale that counts is that of an output, or one where there is none, and no output has a
/// smaller one.
pub proof fn law_the_smallest_scale_is_an_outputs(parts: Map<u64, Parts>, n120: int)
    requires
        is_smallest_scale(parts, n120),
    ensures
        n120 >= 120,
        n120 == 120 || exists|e: u64| #[trigger]
            parts.contains_key(e) && parts[e].output && parts[e].output_scale is Some
                && parts[e].output_scale->0.in_120ths() == n120,
        forall|e: u64| #[trigger]
            parts.contains_key(e) && parts[e].output && parts[e].output_scale is Some
                && parts[e].output_scale->0.in_120ths() >= 120 ==> n120
                <= parts[e].output_scale->0.in_120ths(),
        forall|e: u64| #[trigger]
            parts.contains_key(e) && parts[e].output && parts[e].output_scale is Some
                && parts[e].output_scale->0.in_120ths() < 120 ==> n120 == 120,
        (forall|e: u64| #[trigger] parts.contains_key(e) ==> !(parts[e].output
            && parts[e].output_scale is Some)) ==> n120 == 120,
{
    let scaled = |e: u64| parts.contains_key(e) && has_output_scale(parts[e]);
    if exists|e: u64| #[trigger] scaled(e) {
        let e = choose|e: u64| #[trigger]
            scaled(e) && at_least_one(parts[e].output_scale->0.in_120ths()) == n120;
        assert(parts.contains_key(e));
        assert forall|e: u64| #[trigger] parts.contains_key(e) && parts[e].output
            && parts[e].output_scale is Some implies n120 <= at_least_one(
            parts[e].output_scale->0.in_120ths(),
        ) by {
            assert(scaled(e));
        }
    } else {
        assert forall|e: u64| #[trigger] parts.contains_key(e) implies !(parts[e].output
            && parts[e].output_scale is Some) by {
            assert(!scaled(e));
        }
    }
}

/// The lengths that are rescaled are those of the window, at the scale that its surface had.
pub proof fn law_what_is_rescaled(entity: u64, p: Parts, new_scale: SurfaceScaleFactor)
    requires
        needs_rescale(p, new_scale),
    ensures
        ({
            let rescale = rescale_of(entity, p);
            &&& rescale.entity == entity
            &&& rescale.width == p.data->0.attrs.dims.width
            &&& rescale.height == p.data->0.attrs.dims.height
            &&& p.scale->0.n120 >= 120 ==> rescale.old_scale == p.scale->0
            &&& p.scale->0.n120 < 120 ==> rescale.old_scale.n120 == 120
            &&& p.scale->0 != new_scale
        }),
{
}

/// A surface that is rescaled has the new scale. A mapped toplevel takes its new size and the X
/// server is told of it, in the place where it is; any other window keeps its size.
pub proof fn law_rescaled_surface(
    p: Parts,
    new_scale: SurfaceScaleFactor,
    width: u16,
    height: u16,
)
    requires
        p.data is Some,
        new_scale.n120 >= 120,
    ensures
        ({
            let q = rescaled(p, new_scale, width, height);
            let was = p.data->0.attrs.dims;
            let resized = p.data->0.mapped && (p.role matches Some(
                crate::role::SurfaceRole::Toplevel(Some(_)),
            ));
            &&& q.scale == Some(new_scale)
            &&& q.data is Some
            &&& q.data->0.attrs.dims.x == was.x && q.data->0.attrs.dims.y == was.y
            &&& resized ==> q.data->0.attrs.dims.width == width && q.data->0.attrs.dims.height
                == height
            &&& resized ==> q.pending_dims == Some(
                PendingSurfaceState {
                    x: was.x as i32,
                    y: was.y as i32,
                    width: width as i32,
                    height: height as i32,
                },
            )
            &&& !resized ==> q.data == p.data && q.pending_dims == p.pending_dims
            &&& q.role == p.role && q.window == p.window && q.on_output == p.on_output
        }),
{
}

/// A scale is settled exactly if an output changed, to the smallest that there is; it is then queued
/// unless one that is as good as it is, and nothing is left to settle.
pub proof fn law_settled_scale(
    before: InnerServerState,
    after: InnerServerState,
    scale: Option<SurfaceScaleFactor>,
)
    requires
        before.scale_settled(after, scale),
    ensures
        scale is Some <==> before.updated_outputs@.len() > 0,
        after.updated_outputs@.len() == 0,
        scale matches Some(scale) ==> {
            &&& is_smallest_scale(before.parts(), scale.n120 as int)
            &&& after.new_scale is Some
            &&& -1 <= after.new_scale->0.n120 - scale.n120 <= 1
            &&& before.new_scale is None ==> after.new_scale == Some(scale)
        },
        scale is None ==> after.new_scale == before.new_scale,
        after.parts() == before.parts() && after.windows == before.windows,
        after.last_focused_toplevel == before.last_focused_toplevel && after.to_focus
            == before.to_focus,
{
}

/// A surface is rescaled exactly if it is a window's, has a scale, and that differs from the new one
/// once neither counts for less than one.
pub proof fn law_who_is_rescaled(p: Parts, new_scale: SurfaceScaleFactor)
    ensures
        needs_rescale(p, new_scale) ==> p.data is Some && p.scale is Some,
        p.data is Some && p.scale is Some && p.scale->0.n120 >= 120 && new_scale.n120 >= 120 ==> (
        needs_rescale(p, new_scale) <==> p.scale->0.n120 > new_scale.n120 + 1
            || p.scale->0.n120 < new_scale.n120 - 1),
        p.data is Some && p.scale is Some && p.scale->0.n120 <= 120 && new_scale.n120 <= 120
            ==> !needs_rescale(p, new_scale),
        p.data is Some && p.scale is Some && p.scale->0.n120 < 120 && new_scale.n120 > 121
            ==> needs_rescale(p, new_scale),
{
}

} // verus!
