//! Outputs: where they are, how large, and at what scale.

use vstd::prelude::*;
use crate::geometry;
use crate::geometry::{sub_i32, PendingSurfaceState};
use crate::state::{GlobalOutputOffset, GlobalOutputOffsetDimension, InnerServerState};
use crate::window::WindowOutputOffset;
use crate::world;
use crate::world::Parts;

verus! {

/// The scale of a surface, in 120ths.
#[derive(Clone, Copy, Debug, PartialEq, Eq, Structural)]
pub struct SurfaceScaleFactor {
    pub n120: i64,
}

/// The scale of an output: its integer scale, or the fractional scale (in 120ths) that a surface
/// on it was told.
#[derive(Clone, Copy, Debug, PartialEq, Eq, Structural)]
pub enum OutputScaleFactor {
    Output(i32),
    Fractional(i64),
}

/// Which protocol an output's position came from.
#[derive(Clone, Copy, Debug, PartialEq, Eq, Structural)]
pub enum OutputDimensionsSource {
    Wl,
    Xdg,
}

/// The place and size of an output.
#[derive(Clone, Copy, Debug, PartialEq, Eq, Structural)]
pub struct OutputDimensions {
    pub source: OutputDimensionsSource,
    pub x: i32,
    pub y: i32,
    pub width: i32,
    pub height: i32,
    pub rotated_90: bool,
}

/// A window that moves with its output: what to tell the X server.
#[derive(Clone, Copy, Debug, PartialEq, Eq, Structural)]
pub struct WindowConfigure {
    pub entity: u64,
    pub window: u32,
    pub dims: PendingSurfaceState,
}

/// A position that the X server is told for an output, by the protocol that it came from.
#[derive(Clone, Copy, Debug, PartialEq, Eq, Structural)]
pub struct OutputPosition {
    pub output: u64,
    pub source: OutputDimensionsSource,
    pub x: i32,
    pub y: i32,
}

/// What to tell the X server about a new geometry.
pub struct GeometryUpdate {
    /// Windows that moved.
    pub configures: Vec<WindowConfigure>,
    /// The position to send, if the output is still in use.
    pub position: Option<(i32, i32)>,
    /// The logical size to send, if the X server asked for it.
    pub logical_size: Option<(i32, i32)>,
}

impl SurfaceScaleFactor {
    /// The scale one.
    pub fn unit() -> (scale: SurfaceScaleFactor)
        ensures
            scale.n120 == 120,
    {
        SurfaceScaleFactor { n120: 120 }
    }
}

impl OutputScaleFactor {
    /// The scale in 120ths.
    pub open spec fn in_120ths(self) -> int {
        match self {
            OutputScaleFactor::Output(factor) => factor * 120,
            OutputScaleFactor::Fractional(n120) => n120 as int,
        }
    }

    /// The scale that surfaces on the output take.
    pub fn get(&self) -> (scale: SurfaceScaleFactor)
        ensures
            scale.n120 == self.in_120ths(),
    {
        match *self {
            OutputScaleFactor::Output(factor) => SurfaceScaleFactor { n120: factor as i64 * 120 },
            OutputScaleFactor::Fractional(n120) => SurfaceScaleFactor { n120 },
        }
    }
}

impl OutputDimensions {
    /// An output that nothing is known of.
    pub fn new() -> (dimensions: OutputDimensions)
        ensures
            dimensions == (OutputDimensions {
                source: OutputDimensionsSource::Wl,
                x: 0,
                y: 0,
                width: 0,
                height: 0,
                rotated_90: false,
            }),
    {
        OutputDimensions {
            source: OutputDimensionsSource::Wl,
            x: 0,
            y: 0,
            width: 0,
            height: 0,
            rotated_90: false,
        }
    }

    /// The size with the rotation applied.
    pub open spec fn rotated_size(self) -> (i32, i32) {
        if self.rotated_90 {
            (self.height, self.width)
        } else {
            (self.width, self.height)
        }
    }

    /// The size with the rotation applied.
    pub fn logical_size(&self) -> (size: (i32, i32))
        ensures
            self.rotated_90 ==> size.0 == self.height && size.1 == self.width,
            !self.rotated_90 ==> size.0 == self.width && size.1 == self.height,
            size == self.rotated_size(),
    {
        if self.rotated_90 {
            (self.height, self.width)
        } else {
            (self.width, self.height)
        }
    }
}

/// Whether a `wl_output` transform turns the output on its side.
pub open spec fn is_sideways(transform: u32) -> bool {
    transform == 1 || transform == 3 || transform == 5 || transform == 7
}

/// The scale of an output after it was told a new one: a fractional scale is never replaced by
/// an integer one.
pub open spec fn rescaled(current: OutputScaleFactor, factor: OutputScaleFactor) -> OutputScaleFactor {
    if current is Fractional && factor is Output {
        current
    } else {
        factor
    }
}

/// A coordinate of an output, counted from the global corner.
pub open spec fn from_corner(value: i32, corner: i32) -> i32 {
    geometry::low_i32(value - corner) as i32
}

/// The origin of an output as its windows see it.
pub open spec fn output_origin(
    dimensions: OutputDimensions,
    global: GlobalOutputOffset,
) -> WindowOutputOffset {
    WindowOutputOffset {
        x: from_corner(dimensions.x, global.x.value),
        y: from_corner(dimensions.y, global.y.value),
    }
}

/// Whether an entity is a window on the given output.
pub open spec fn is_window_on(parts: Parts, output: u64) -> bool {
    parts.on_output == Some(output) && parts.window is Some && parts.data is Some
}

/// A window after its output took the given origin; any other entity unchanged.
pub open spec fn carried(parts: Parts, output: u64, origin: WindowOutputOffset) -> Parts {
    if is_window_on(parts, output) {
        Parts { data: Some(parts.data->0.on_offset(origin)), ..parts }
    } else {
        parts
    }
}

/// All entities after an output took the given origin.
pub open spec fn all_carried(
    parts: Map<u64, Parts>,
    output: u64,
    origin: WindowOutputOffset,
) -> Map<u64, Parts> {
    parts.map_values(|p: Parts| carried(p, output, origin))
}

/// What the X server is told about one entity when an output takes the given origin.
pub open spec fn carry_configure(
    entity: u64,
    parts: Parts,
    output: u64,
    origin: WindowOutputOffset,
) -> Option<WindowConfigure> {
    if is_window_on(parts, output) && parts.data->0.offset_configuration(origin) is Some {
        Some(
            WindowConfigure {
                entity,
                window: parts.window->0,
                dims: parts.data->0.offset_configuration(origin)->0,
            },
        )
    } else {
        None
    }
}

/// Whether `configures` tells the X server what an output's new origin asks for, as far as the
/// entities in `seen` go: one configuration for each window that moved, in any order.
pub open spec fn carries_seen(
    configures: Seq<WindowConfigure>,
    parts: Map<u64, Parts>,
    seen: Seq<u64>,
    output: u64,
    origin: WindowOutputOffset,
) -> bool {
    &&& configures.no_duplicates()
    &&& forall|c: WindowConfigure| #[trigger]
        configures.contains(c) <==> seen.contains(c.entity) && carry_configure(
            c.entity,
            parts[c.entity],
            output,
            origin,
        ) == Some(c)
}

/// Whether `configures` tells the X server exactly what an output's new origin asks for.
pub open spec fn carries(
    configures: Seq<WindowConfigure>,
    parts: Map<u64, Parts>,
    output: u64,
    origin: WindowOutputOffset,
) -> bool {
    &&& configures.no_duplicates()
    &&& forall|c: WindowConfigure| #[trigger]
        configures.contains(c) <==> parts.contains_key(c.entity) && carry_configure(
            c.entity,
            parts[c.entity],
            output,
            origin,
        ) == Some(c)
}

proof fn lemma_carries_one_more(
    told: Seq<WindowConfigure>,
    parts: Map<u64, Parts>,
    seen: Seq<u64>,
    entity: u64,
    output: u64,
    origin: WindowOutputOffset,
)
    requires
        carries_seen(told, parts, seen, output, origin),
        !seen.contains(entity),
    ensures
        carries_seen(
            match carry_configure(entity, parts[entity], output, origin) {
                Some(c) => told.push(c),
                None => told,
            },
            parts,
            seen.push(entity),
            output,
            origin,
        ),
{
    let expected = carry_configure(entity, parts[entity], output, origin);
    let after = match expected {
        Some(c) => told.push(c),
        None => told,
    };
    if expected is Some {
        assert(!told.contains(expected->0));
    }
    assert forall|c: WindowConfigure| #[trigger] after.contains(c) <==> (seen.push(entity).contains(
        c.entity,
    ) && carry_configure(c.entity, parts[c.entity], output, origin) == Some(c)) by {
        if expected is Some {
            vstd::seq_lib::lemma_seq_contains_after_push(told, expected->0, c);
        }
        vstd::seq_lib::lemma_seq_contains_after_push(seen, entity, c.entity);
    }
}

/// The place of the corner for an output at `value`: it is never right of or below the origin.
pub open spec fn corner_for(value: i32) -> i32 {
    if value < 0 {
        value
    } else {
        0
    }
}

/// One axis of the global corner after `output` was put at `value`.
pub open spec fn corner_after(
    dim: GlobalOutputOffsetDimension,
    output: u64,
    value: i32,
) -> GlobalOutputOffsetDimension {
    if value < dim.value {
        GlobalOutputOffsetDimension { owner: Some(output), value }
    } else if dim.owner == Some(output) && value > dim.value {
        GlobalOutputOffsetDimension { owner: None, value: corner_for(value) }
    } else {
        dim
    }
}

/// Whether putting `output` at `value` changes what is known of the global corner.
pub open spec fn corner_touched(
    dim: GlobalOutputOffsetDimension,
    output: u64,
    value: i32,
) -> bool {
    value < dim.value || (dim.owner == Some(output) && value > dim.value)
}

/// Whether a position from `source` counts for an output: once `xdg_output` has told a position,
/// `wl_output` no longer moves the output.
pub open spec fn position_counts(dimensions: OutputDimensions, source: OutputDimensionsSource) -> bool {
    !(source is Wl && dimensions.source is Xdg)
}

/// Whether an entity is an output whose geometry is known.
pub open spec fn is_placed_output(parts: Parts) -> bool {
    parts.output && parts.output_dims is Some
}

/// Whether one axis of the corner is worked out: an output that lies furthest to its side owns it,
/// and it reaches that output, but also the origin.
pub open spec fn is_corner(values: Map<u64, i32>, dim: GlobalOutputOffsetDimension) -> bool {
    &&& dim.owner is Some
    &&& values.contains_key(dim.owner->0)
    &&& forall|entity: u64| #[trigger]
        values.contains_key(entity) ==> values[dim.owner->0] <= values[entity]
    &&& dim.value == corner_for(values[dim.owner->0])
}

/// The left edges of all outputs.
pub open spec fn output_lefts(parts: Map<u64, Parts>) -> Map<u64, i32> {
    Map::new(
        |e: u64| parts.contains_key(e) && parts[e].output_dims is Some,
        |e: u64| parts[e].output_dims->0.x,
    )
}

/// The top edges of all outputs.
pub open spec fn output_tops(parts: Map<u64, Parts>) -> Map<u64, i32> {
    Map::new(
        |e: u64| parts.contains_key(e) && parts[e].output_dims is Some,
        |e: u64| parts[e].output_dims->0.y,
    )
}

/// One axis of the corner after it was worked out anew. Without outputs there is nothing to take,
/// and the owner stays.
pub open spec fn recalculated(
    values: Map<u64, i32>,
    before: GlobalOutputOffsetDimension,
    after: GlobalOutputOffsetDimension,
) -> bool {
    if exists|entity: u64| #[trigger] values.contains_key(entity) {
        is_corner(values, after)
    } else {
        after == (GlobalOutputOffsetDimension { owner: before.owner, value: 0 })
    }
}

/// Whether an output of this rotation stands on its side.
fn sideways(transform: u32) -> (r: bool)
    ensures
        r == is_sideways(transform),
{
    transform == 1 || transform == 3 || transform == 5 || transform == 7
}

/// Takes one axis of a new output position into the global corner. Returns whether that changed
/// anything.
fn update_corner(dim: &mut GlobalOutputOffsetDimension, output: u64, value: i32) -> (updated: bool)
    ensures
        *final(dim) == corner_after(*old(dim), output, value),
        updated == corner_touched(*old(dim), output, value),
{
    if value < dim.value {
        *dim = GlobalOutputOffsetDimension { owner: Some(output), value };
        return true;
    }
    if dim.owner == Some(output) && value > dim.value {
        *dim = GlobalOutputOffsetDimension {
            owner: None,
            value: if value < 0 {
                value
            } else {
                0
            },
        };
        return true;
    }
    false
}

impl InnerServerState {
    /// Tells an output a scale. Returns whether its scale changed.
    pub fn update_output_scale(&mut self, output: u64, factor: OutputScaleFactor) -> (changed: bool)
        ensures
            match world::at(old(self).parts(), output) {
                Some(p) if p.output_scale is Some => {
                    &&& changed == (rescaled(p.output_scale->0, factor) != p.output_scale->0)
                    &&& final(self).parts() == old(self).parts().insert(
                        output,
                        Parts { output_scale: Some(rescaled(p.output_scale->0, factor)), ..p },
                    )
                },
                _ => !changed && final(self).parts() == old(self).parts(),
            },
            final(self).names() == old(self).names(),
            *final(self) == (InnerServerState { world: final(self).world, ..*old(self) }),
            old(self).wf() ==> final(self).wf(),
            old(self).one_entity_each() ==> final(self).one_entity_each(),
    {
        let parts = match world::get(&self.world, output) {
            Some(parts) => parts,
            None => return false,
        };
        let current = match parts.output_scale {
            Some(current) => current,
            None => return false,
        };
        if matches!(current, OutputScaleFactor::Fractional(..))
            && matches!(factor, OutputScaleFactor::Output(..)) {
            assert(self.parts() =~= self.parts().insert(output, parts));
            return false;
        }
        if current != factor {
            world::set(&mut self.world, output, Parts { output_scale: Some(factor), ..parts });
            return true;
        }
        assert(self.parts() =~= self.parts().insert(output, parts));
        false
    }

    /// Moves one entity along with an output, if it is a window on that output.
    fn carry_window(&mut self, entity: u64, output: u64, origin: WindowOutputOffset) -> (configure:
        Option<WindowConfigure>)
        requires
            old(self).parts().contains_key(entity),
        ensures
            configure == carry_configure(entity, old(self).parts()[entity], output, origin),
            final(self).parts() == old(self).parts().insert(
                entity,
                carried(old(self).parts()[entity], output, origin),
            ),
            final(self).names() == old(self).names(),
            *final(self) == (InnerServerState { world: final(self).world, ..*old(self) }),
    {
        if let Some(parts) = world::get(&self.world, entity) {
            if let (Some(window), Some(data), Some(on_output)) = (
                parts.window,
                parts.data,
                parts.on_output,
            ) {
                if on_output == output {
                    let mut data = data;
                    let configuration = data.update_output_offset(origin);
                    world::set(&mut self.world, entity, Parts { data: Some(data), ..parts });
                    return match configuration {
                        Some(dims) => Some(WindowConfigure { entity, window, dims }),
                        None => None,
                    };
                }
            }
        }
        assert(self.parts() =~= self.parts().insert(entity, self.parts()[entity]));
        None
    }

    /// Moves the windows on an output along with it.
    pub fn update_window_output_offsets(&mut self, output: u64) -> (configures: Vec<
        WindowConfigure,
    >)
        ensures
            match world::at(old(self).parts(), output) {
                Some(p) if p.output_dims is Some => {
                    let origin = output_origin(p.output_dims->0, old(self).global_output_offset);
                    &&& final(self).parts() == all_carried(old(self).parts(), output, origin)
                    &&& carries(configures@, old(self).parts(), output, origin)
                },
                _ => configures@.len() == 0 && final(self).parts() == old(self).parts(),
            },
            final(self).names() == old(self).names(),
            *final(self) == (InnerServerState { world: final(self).world, ..*old(self) }),
            old(self).wf() ==> final(self).wf(),
            old(self).one_entity_each() ==> final(self).one_entity_each(),
    {
        let mut configures: Vec<WindowConfigure> = Vec::new();
        let parts = match world::get(&self.world, output) {
            Some(parts) => parts,
            None => return configures,
        };
        let dimensions = match parts.output_dims {
            Some(dimensions) => dimensions,
            None => return configures,
        };
        let origin = WindowOutputOffset {
            x: sub_i32(dimensions.x, self.global_output_offset.x.value),
            y: sub_i32(dimensions.y, self.global_output_offset.y.value),
        };
        let ghost before = self.parts();
        let ghost after = all_carried(before, output, origin);
        let entities = world::entities(&self.world);
        let mut i: usize = 0;
        while i < entities.len()
            invariant
                i <= entities.len(),
                entities@.no_duplicates(),
                before == old(self).parts(),
                after == all_carried(before, output, origin),
                self.names() == old(self).names(),
                *self == (InnerServerState { world: self.world, ..*old(self) }),
                self.parts().dom() == before.dom(),
                forall|e: u64| entities@.contains(e) <==> before.contains_key(e),
                forall|k: int|
                    0 <= k < entities@.len() ==> #[trigger] self.parts()[entities@[k]] == (if k < i {
                        after[entities@[k]]
                    } else {
                        before[entities@[k]]
                    }),
                carries_seen(configures@, before, entities@.take(i as int), output, origin),
            decreases entities.len() - i,
        {
            let entity = entities[i];
            assert(entities@.contains(entities@[i as int]));
            assert(entities@.take(i as int + 1) =~= entities@.take(i as int).push(entity));
            assert(!entities@.take(i as int).contains(entity));
            proof {
                lemma_carries_one_more(
                    configures@,
                    before,
                    entities@.take(i as int),
                    entity,
                    output,
                    origin,
                );
            }
            if let Some(configure) = self.carry_window(entity, output, origin) {
                configures.push(configure);
            }
            i += 1;
        }
        assert(entities@.take(entities@.len() as int) =~= entities@);
        assert(self.parts() =~= after) by {
            assert forall|e: u64| before.contains_key(e) implies self.parts()[e] == after[e] by {
                let k = choose|k: int| 0 <= k < entities@.len() && entities@[k] == e;
                assert(entities@[k] == e);
            }
        }
        configures
    }

    /// What becomes of the state when an output is put somewhere by a protocol that counts.
    pub open spec fn output_moved(
        self,
        after: InnerServerState,
        configures: Seq<WindowConfigure>,
        output: u64,
        source: OutputDimensionsSource,
        x: i32,
        y: i32,
    ) -> bool {
        let corner = GlobalOutputOffset {
            x: corner_after(self.global_output_offset.x, output, x),
            y: corner_after(self.global_output_offset.y, output, y),
        };
        let dimensions = OutputDimensions {
            source,
            x,
            y,
            ..self.parts()[output].output_dims->0
        };
        let placed = self.parts().insert(
            output,
            Parts { output_dims: Some(dimensions), ..self.parts()[output] },
        );
        let origin = output_origin(dimensions, corner);
        &&& after.parts() == all_carried(placed, output, origin)
        &&& carries(configures, placed, output, origin)
        &&& after == (InnerServerState {
            world: after.world,
            global_output_offset: corner,
            global_offset_updated: self.global_offset_updated || corner_touched(
                self.global_output_offset.x,
                output,
                x,
            ) || corner_touched(self.global_output_offset.y, output, y),
            ..self
        })
    }

    /// Whether a position from `source` moves `output`.
    pub open spec fn accepts_position(self, output: u64, source: OutputDimensionsSource) -> bool {
        world::at(self.parts(), output) matches Some(p) && p.output_dims matches Some(dimensions)
            && position_counts(dimensions, source)
    }

    /// Puts an output somewhere, and moves its windows along.
    pub fn update_output_offset(
        &mut self,
        output: u64,
        source: OutputDimensionsSource,
        x: i32,
        y: i32,
    ) -> (configures: Vec<WindowConfigure>)
        ensures
            if old(self).accepts_position(output, source) {
                old(self).output_moved(*final(self), configures@, output, source, x, y)
            } else {
                *final(self) == *old(self) && configures@.len() == 0
            },
            final(self).names() == old(self).names(),
            old(self).wf() ==> final(self).wf(),
            old(self).one_entity_each() ==> final(self).one_entity_each(),
    {
        let parts = match world::get(&self.world, output) {
            Some(parts) => parts,
            None => return Vec::new(),
        };
        let dimensions = match parts.output_dims {
            Some(dimensions) => dimensions,
            None => return Vec::new(),
        };
        if matches!(source, OutputDimensionsSource::Wl)
            && matches!(dimensions.source, OutputDimensionsSource::Xdg) {
            return Vec::new();
        }
        let mut corner_x = self.global_output_offset.x;
        let mut corner_y = self.global_output_offset.y;
        let x_updated = update_corner(&mut corner_x, output, x);
        let y_updated = update_corner(&mut corner_y, output, y);
        self.global_output_offset = GlobalOutputOffset { x: corner_x, y: corner_y };
        self.global_offset_updated = self.global_offset_updated || x_updated || y_updated;
        let moved = OutputDimensions { source, x, y, ..dimensions };
        world::set(&mut self.world, output, Parts { output_dims: Some(moved), ..parts });
        self.update_window_output_offsets(output)
    }

    /// Handles `wl_output.geometry`.
    pub fn handle_output_geometry(&mut self, output: u64, x: i32, y: i32, transform: u32) -> (update:
        GeometryUpdate)
        ensures
            ({
                let source = OutputDimensionsSource::Wl;
                exists|placed: InnerServerState|
                    {
                        &&& #[trigger] placed.names() == old(self).names()
                        &&& if old(self).accepts_position(output, source) {
                            old(self).output_moved(placed, update.configures@, output, source, x, y)
                        } else {
                            placed == *old(self) && update.configures@.len() == 0
                        }
                        &&& match world::at(placed.parts(), output) {
                            Some(p) if is_placed_output(p) => {
                                let dimensions = OutputDimensions {
                                    rotated_90: is_sideways(transform),
                                    ..p.output_dims->0
                                };
                                &&& final(self).parts() == placed.parts().insert(
                                    output,
                                    Parts { output_dims: Some(dimensions), ..p },
                                )
                                &&& *final(self) == (InnerServerState {
                                    world: final(self).world,
                                    ..placed
                                })
                                &&& update.position == Some(
                                    (
                                        from_corner(x, placed.global_output_offset.x.value),
                                        from_corner(y, placed.global_output_offset.y.value),
                                    ),
                                )
                                &&& update.logical_size == (if p.xdg_output {
                                    Some(dimensions.rotated_size())
                                } else {
                                    None
                                })
                            },
                            _ => *final(self) == placed && update.position is None
                                && update.logical_size is None,
                        }
                    }
            }),
            ({
                let known = old(self).parts().contains_key(output);
                let p = old(self).parts()[output];
                let was = p.output_dims->0;
                let q = final(self).parts()[output];
                let quarter = transform == 1 || transform == 3 || transform == 5 || transform == 7;
                let corner = final(self).global_output_offset;
                &&& known && p.output && p.output_dims is Some ==> {
                    &&& q.output_dims is Some
                    &&& q.output_dims->0.rotated_90 <==> quarter
                    &&& q.output_dims->0.width == was.width
                    &&& q.output_dims->0.height == was.height
                    &&& was.source is Wl ==> q.output_dims->0.x == x && q.output_dims->0.y == y
                    &&& was.source is Xdg ==> q.output_dims->0.x == was.x && q.output_dims->0.y
                        == was.y
                    &&& update.position is Some
                    &&& update.position matches Some((left, top)) ==> {
                        &&& i32::MIN <= x - corner.x.value <= i32::MAX ==> left + corner.x.value
                            == x
                        &&& i32::MIN <= y - corner.y.value <= i32::MAX ==> top + corner.y.value == y
                    }
                    &&& p.xdg_output && quarter ==> update.logical_size == Some(
                        (was.height, was.width),
                    )
                    &&& p.xdg_output && !quarter ==> update.logical_size == Some(
                        (was.width, was.height),
                    )
                    &&& !p.xdg_output ==> update.logical_size is None
                }
                &&& !(known && p.output && p.output_dims is Some) ==> update.position is None
                    && update.logical_size is None
            }),
            final(self).names() == old(self).names(),
            old(self).wf() ==> final(self).wf(),
            old(self).one_entity_each() ==> final(self).one_entity_each(),
    {
        let configures = self.update_output_offset(output, OutputDimensionsSource::Wl, x, y);
        let ghost placed = *self;
        assert(placed.names() == old(self).names());
        let corner = self.global_output_offset;
        if let Some(parts) = world::get(&self.world, output) {
            if let (true, Some(known)) = (parts.output, parts.output_dims) {
                let dimensions = OutputDimensions { rotated_90: sideways(transform), ..known };
                world::set(
                    &mut self.world,
                    output,
                    Parts { output_dims: Some(dimensions), ..parts },
                );
                return GeometryUpdate {
                    configures,
                    position: Some((sub_i32(x, corner.x.value), sub_i32(y, corner.y.value))),
                    logical_size: if parts.xdg_output {
                        Some(dimensions.logical_size())
                    } else {
                        None
                    },
                };
            }
        }
        GeometryUpdate { configures, position: None, logical_size: None }
    }

    /// Handles `wl_output.mode`. Returns whether the mode is to be handed on.
    pub fn handle_output_mode(&mut self, output: u64, current: bool, width: i32, height: i32) -> (forward:
        bool)
        ensures
            match world::at(old(self).parts(), output) {
                Some(p) if is_placed_output(p) => forward && final(self).parts() == (if current {
                    old(self).parts().insert(
                        output,
                        Parts {
                            output_dims: Some(
                                OutputDimensions { width, height, ..p.output_dims->0 },
                            ),
                            ..p
                        },
                    )
                } else {
                    old(self).parts()
                }),
                _ => !forward && final(self).parts() == old(self).parts(),
            },
            final(self).names() == old(self).names(),
            *final(self) == (InnerServerState { world: final(self).world, ..*old(self) }),
            old(self).wf() ==> final(self).wf(),
            old(self).one_entity_each() ==> final(self).one_entity_each(),
    {
        if let Some(parts) = world::get(&self.world, output) {
            if let (true, Some(dimensions)) = (parts.output, parts.output_dims) {
                if current {
                    let dimensions = OutputDimensions { width, height, ..dimensions };
                    world::set(
                        &mut self.world,
                        output,
                        Parts { output_dims: Some(dimensions), ..parts },
                    );
                }
                return true;
            }
        }
        false
    }

    /// Handles `wl_output.scale`. Returns whether the scale is to be handed on, which it is where
    /// surfaces are not told fractional scales.
    pub fn handle_output_scale(&mut self, output: u64, factor: i32) -> (forward: bool)
        ensures
            forward == !old(self).fractional_scale,
            ({
                let told = OutputScaleFactor::Output(factor);
                match world::at(old(self).parts(), output) {
                    Some(p) if p.output_scale is Some => {
                        let scale = rescaled(p.output_scale->0, told);
                        &&& final(self).parts() == old(self).parts().insert(
                            output,
                            Parts { output_scale: Some(scale), ..p },
                        )
                        &&& final(self).updated_outputs@ == (if scale != p.output_scale->0 {
                            old(self).updated_outputs@.push(output)
                        } else {
                            old(self).updated_outputs@
                        })
                    },
                    _ => final(self).parts() == old(self).parts()
                        && final(self).updated_outputs@ == old(self).updated_outputs@,
                }
            }),
            final(self).names() == old(self).names(),
            *final(self) == (InnerServerState {
                world: final(self).world,
                updated_outputs: final(self).updated_outputs,
                ..*old(self)
            }),
            old(self).wf() ==> final(self).wf(),
            old(self).one_entity_each() ==> final(self).one_entity_each(),
    {
        if self.update_output_scale(output, OutputScaleFactor::Output(factor)) {
            self.updated_outputs.push(output);
        }
        !self.fractional_scale
    }

    /// Handles `zxdg_output_v1.logical_position`. Returns the windows that moved, and the position
    /// to hand on, unless all positions are about to be sent anew.
    pub fn handle_logical_position(&mut self, output: u64, x: i32, y: i32) -> (update: (
        Vec<WindowConfigure>,
        Option<(i32, i32)>,
    ))
        ensures
            if old(self).accepts_position(output, OutputDimensionsSource::Xdg) {
                old(self).output_moved(
                    *final(self),
                    update.0@,
                    output,
                    OutputDimensionsSource::Xdg,
                    x,
                    y,
                )
            } else {
                *final(self) == *old(self) && update.0@.len() == 0
            },
            update.1 == (if final(self).global_offset_updated {
                None
            } else {
                Some(
                    (
                        from_corner(x, final(self).global_output_offset.x.value),
                        from_corner(y, final(self).global_output_offset.y.value),
                    ),
                )
            }),
            update.1 is Some <==> !final(self).global_offset_updated,
            update.1 matches Some(position) ==> {
                let corner = final(self).global_output_offset;
                &&& i32::MIN <= x - corner.x.value <= i32::MAX ==> position.0 + corner.x.value == x
                &&& i32::MIN <= y - corner.y.value <= i32::MAX ==> position.1 + corner.y.value == y
            },
            ({
                let p = old(self).parts()[output];
                let q = final(self).parts()[output];
                old(self).parts().contains_key(output) && p.output_dims is Some ==> {
                    &&& q.output_dims is Some
                    &&& q.output_dims->0.x == x && q.output_dims->0.y == y
                    &&& q.output_dims->0.source is Xdg
                    &&& q.output_dims->0.width == p.output_dims->0.width
                    &&& q.output_dims->0.height == p.output_dims->0.height
                    &&& q.output_dims->0.rotated_90 == p.output_dims->0.rotated_90
                }
            }),
            final(self).names() == old(self).names(),
            old(self).wf() ==> final(self).wf(),
            old(self).one_entity_each() ==> final(self).one_entity_each(),
    {
        let configures = self.update_output_offset(output, OutputDimensionsSource::Xdg, x, y);
        let position = if self.global_offset_updated {
            None
        } else {
            Some(
                (
                    sub_i32(x, self.global_output_offset.x.value),
                    sub_i32(y, self.global_output_offset.y.value),
                ),
            )
        };
        (configures, position)
    }

    /// Handles `zxdg_output_v1.logical_size`: the size that is handed on is the one of the
    /// current mode, so that the X server sees physical pixels.
    pub fn handle_logical_size(&self, output: u64) -> (size: Option<(i32, i32)>)
        ensures
            size == (match world::at(self.parts(), output) {
                Some(p) if p.xdg_output && p.output_dims is Some => Some(
                    p.output_dims->0.rotated_size(),
                ),
                _ => None,
            }),
            ({
                let p = self.parts()[output];
                let dims = p.output_dims->0;
                let told = self.parts().contains_key(output) && p.xdg_output && p.output_dims
                    is Some;
                &&& size is Some <==> told
                &&& told && dims.rotated_90 ==> size == Some((dims.height, dims.width))
                &&& told && !dims.rotated_90 ==> size == Some((dims.width, dims.height))
            }),
    {
        if let Some(parts) = world::get(&self.world, output) {
            if let (true, Some(dimensions)) = (parts.xdg_output, parts.output_dims) {
                return Some(dimensions.logical_size());
            }
        }
        None
    }

    /// Works out the global corner anew.
    pub fn calc_global_output_offset(&mut self)
        ensures
            recalculated(
                output_lefts(old(self).parts()),
                old(self).global_output_offset.x,
                final(self).global_output_offset.x,
            ),
            recalculated(
                output_tops(old(self).parts()),
                old(self).global_output_offset.y,
                final(self).global_output_offset.y,
            ),
            *final(self) == (InnerServerState {
                global_output_offset: final(self).global_output_offset,
                ..*old(self)
            }),
            old(self).wf() ==> final(self).wf(),
            old(self).one_entity_each() ==> final(self).one_entity_each(),
    {
        let ghost lefts = output_lefts(self.parts());
        let ghost tops = output_tops(self.parts());
        let entities = world::entities(&self.world);
        let mut left: Option<(u64, i32)> = None;
        let mut top: Option<(u64, i32)> = None;
        let mut i: usize = 0;
        while i < entities.len()
            invariant
                i <= entities.len(),
                lefts == output_lefts(self.parts()),
                tops == output_tops(self.parts()),
                *self == *old(self),
                forall|e: u64| entities@.contains(e) <==> self.parts().contains_key(e),
                least_so_far(lefts, entities@.take(i as int), left),
                least_so_far(tops, entities@.take(i as int), top),
            decreases entities.len() - i,
        {
            let entity = entities[i];
            assert(entities@.contains(entities@[i as int]));
            assert(entities@.take(i as int + 1) =~= entities@.take(i as int).push(entity));
            assert forall|e: u64| #[trigger]
                entities@.take(i as int + 1).contains(e) <==> (e == entity || entities@.take(
                    i as int,
                ).contains(e)) by {
                vstd::seq_lib::lemma_seq_contains_after_push(entities@.take(i as int), entity, e);
            }
            if let Some(parts) = world::get(&self.world, entity) {
                if let Some(dimensions) = parts.output_dims {
                    left = lesser(left, entity, dimensions.x);
                    top = lesser(top, entity, dimensions.y);
                }
            }
            i += 1;
        }
        assert(entities@.take(entities@.len() as int) =~= entities@);
        proof {
            assert forall|e: u64| #[trigger] lefts.contains_key(e) implies (left matches Some(
                (_, least),
            ) && least <= lefts[e]) by {
                assert(entities@.contains(e));
            }
            assert forall|e: u64| #[trigger] tops.contains_key(e) implies (top matches Some(
                (_, least),
            ) && least <= tops[e]) by {
                assert(entities@.contains(e));
            }
        }
        self.global_output_offset.x = corner_at(self.global_output_offset.x, left);
        self.global_output_offset.y = corner_at(self.global_output_offset.y, top);
    }
}

/// The lesser of a coordinate found so far and another.
fn lesser(found: Option<(u64, i32)>, entity: u64, value: i32) -> (r: Option<(u64, i32)>)
    ensures
        r == (match found {
            Some((_, least)) if least <= value => found,
            _ => Some((entity, value)),
        }),
{
    match found {
        Some((owner, least)) => if least <= value {
            Some((owner, least))
        } else {
            Some((entity, value))
        },
        None => Some((entity, value)),
    }
}

/// One axis of the corner, by the least coordinate and the output that has it.
fn corner_at(before: GlobalOutputOffsetDimension, found: Option<(u64, i32)>) -> (dim:
    GlobalOutputOffsetDimension)
    ensures
        dim == (match found {
            Some((owner, least)) => GlobalOutputOffsetDimension {
                owner: Some(owner),
                value: corner_for(least),
            },
            None => GlobalOutputOffsetDimension { owner: before.owner, value: 0 },
        }),
{
    match found {
        Some((owner, least)) => GlobalOutputOffsetDimension {
            owner: Some(owner),
            value: if least < 0 {
                least
            } else {
                0
            },
        },
        None => GlobalOutputOffsetDimension { owner: before.owner, value: 0 },
    }
}

/// What the search for the least coordinate has found among the entities in `seen`.
spec fn least_so_far(values: Map<u64, i32>, seen: Seq<u64>, found: Option<(u64, i32)>) -> bool {
    match found {
        Some((owner, least)) => {
            &&& values.contains_key(owner)
            &&& values[owner] == least
            &&& forall|e: u64| #[trigger]
                seen.contains(e) && values.contains_key(e) ==> least <= values[e]
        },
        None => forall|e: u64| #[trigger] seen.contains(e) ==> !values.contains_key(e),
    }
}

/// The position that the X server is told for an output.
pub open spec fn told_position(
    output: u64,
    dimensions: OutputDimensions,
    corner: GlobalOutputOffset,
) -> OutputPosition {
    OutputPosition {
        output,
        source: dimensions.source,
        x: from_corner(dimensions.x, corner.x.value),
        y: from_corner(dimensions.y, corner.y.value),
    }
}

/// The output that an entity is a window on, if the geometry of that output is known.
pub open spec fn placed_output_of(parts: Map<u64, Parts>, p: Parts) -> Option<u64> {
    match p.on_output {
        Some(output) if parts.contains_key(output) && is_placed_output(parts[output]) => Some(
            output,
        ),
        _ => None,
    }
}

/// An entity after the outputs in `seen` were told their positions anew.
pub open spec fn resettled_one(
    parts: Map<u64, Parts>,
    seen: Seq<u64>,
    corner: GlobalOutputOffset,
    p: Parts,
) -> Parts {
    match placed_output_of(parts, p) {
        Some(output) if seen.contains(output) => carried(
            p,
            output,
            output_origin(parts[output].output_dims->0, corner),
        ),
        _ => p,
    }
}

/// All entities after every output was told its position anew.
pub open spec fn resettled(parts: Map<u64, Parts>, corner: GlobalOutputOffset) -> Map<u64, Parts> {
    parts.map_values(
        |p: Parts|
            match placed_output_of(parts, p) {
                Some(output) => carried(
                    p,
                    output,
                    output_origin(parts[output].output_dims->0, corner),
                ),
                None => p,
            },
    )
}

/// What the X server is told about a window when the outputs in `seen` are told their positions
/// anew.
pub open spec fn resettle_configure(
    parts: Map<u64, Parts>,
    seen: Seq<u64>,
    corner: GlobalOutputOffset,
    entity: u64,
) -> Option<WindowConfigure> {
    match placed_output_of(parts, parts[entity]) {
        Some(output) if parts.contains_key(entity) && seen.contains(output) => carry_configure(
            entity,
            parts[entity],
            output,
            output_origin(parts[output].output_dims->0, corner),
        ),
        _ => None,
    }
}

/// Whether `configures` is exactly what the X server is told about windows when the outputs in
/// `seen` are told their positions anew, in any order.
pub open spec fn resettles(
    configures: Seq<WindowConfigure>,
    parts: Map<u64, Parts>,
    seen: Seq<u64>,
    corner: GlobalOutputOffset,
) -> bool {
    &&& configures.no_duplicates()
    &&& forall|c: WindowConfigure| #[trigger]
        configures.contains(c) <==> resettle_configure(parts, seen, corner, c.entity) == Some(c)
}

/// Whether `positions` is exactly what the X server is told about the outputs in `seen`, in any
/// order.
pub open spec fn repositions(
    positions: Seq<OutputPosition>,
    parts: Map<u64, Parts>,
    seen: Seq<u64>,
    corner: GlobalOutputOffset,
) -> bool {
    &&& positions.no_duplicates()
    &&& forall|q: OutputPosition| #[trigger]
        positions.contains(q) <==> seen.contains(q.output) && is_placed_output(parts[q.output]) && q
            == told_position(q.output, parts[q.output].output_dims->0, corner)
}

proof fn lemma_resettles_one_more(
    told: Seq<WindowConfigure>,
    more: Seq<WindowConfigure>,
    parts: Map<u64, Parts>,
    current: Map<u64, Parts>,
    seen: Seq<u64>,
    output: u64,
    corner: GlobalOutputOffset,
)
    requires
        resettles(told, parts, seen, corner),
        !seen.contains(output),
        parts.contains_key(output),
        current.dom() == parts.dom(),
        forall|e: u64| #[trigger]
            parts.contains_key(e) ==> current[e] == resettled_one(parts, seen, corner, parts[e]),
        if is_placed_output(parts[output]) {
            carries(
                more,
                current,
                output,
                output_origin(parts[output].output_dims->0, corner),
            )
        } else {
            more.len() == 0
        },
    ensures
        resettles(told + more, parts, seen.push(output), corner),
{
    let origin = output_origin(parts[output].output_dims->0, corner);
    let after = seen.push(output);
    assert forall|o: u64| #[trigger] after.contains(o) <==> (o == output || seen.contains(o)) by {
        vstd::seq_lib::lemma_seq_contains_after_push(seen, output, o);
    }
    assert forall|c: WindowConfigure| #[trigger] more.contains(c) implies parts.contains_key(
        c.entity,
    ) && placed_output_of(parts, parts[c.entity]) == Some(output) && current[c.entity]
        == parts[c.entity] && carry_configure(c.entity, parts[c.entity], output, origin) == Some(
        c,
    ) by {
        assert(parts.contains_key(c.entity));
        assert(is_window_on(current[c.entity], output));
        assert(current[c.entity].on_output == parts[c.entity].on_output);
    }
    assert forall|c: WindowConfigure| #[trigger] (told + more).contains(c) <==> resettle_configure(
        parts,
        after,
        corner,
        c.entity,
    ) == Some(c) by {
        assert((told + more).contains(c) <==> told.contains(c) || more.contains(c)) by {
            if told.contains(c) {
                let k = choose|k: int| 0 <= k < told.len() && told[k] == c;
                assert((told + more)[k] == c);
            }
            if more.contains(c) {
                let k = choose|k: int| 0 <= k < more.len() && more[k] == c;
                assert((told + more)[told.len() + k] == c);
            }
        }
        if parts.contains_key(c.entity) {
            assert(current[c.entity] == resettled_one(parts, seen, corner, parts[c.entity]));
        }
    }
    assert((told + more).no_duplicates()) by {
        assert forall|j: int, k: int|
            0 <= j < k < (told + more).len() implies (told + more)[j] != (told + more)[k] by {
            if j < told.len() && k >= told.len() {
                assert(told.contains(told[j]));
                assert(more.contains(more[k - told.len()]));
            }
        }
    }
}

proof fn lemma_repositions_one_more(
    told: Seq<OutputPosition>,
    parts: Map<u64, Parts>,
    seen: Seq<u64>,
    output: u64,
    corner: GlobalOutputOffset,
)
    requires
        repositions(told, parts, seen, corner),
        !seen.contains(output),
    ensures
        repositions(
            if is_placed_output(parts[output]) {
                told.push(told_position(output, parts[output].output_dims->0, corner))
            } else {
                told
            },
            parts,
            seen.push(output),
            corner,
        ),
{
    let fresh = told_position(output, parts[output].output_dims->0, corner);
    let after = if is_placed_output(parts[output]) {
        told.push(fresh)
    } else {
        told
    };
    assert(!told.contains(fresh));
    assert forall|q: OutputPosition| #[trigger] after.contains(q) <==> (seen.push(output).contains(
        q.output,
    ) && is_placed_output(parts[q.output]) && q == told_position(
        q.output,
        parts[q.output].output_dims->0,
        corner,
    )) by {
        vstd::seq_lib::lemma_seq_contains_after_push(told, fresh, q);
        vstd::seq_lib::lemma_seq_contains_after_push(seen, output, q.output);
    }
}

impl InnerServerState {
    /// Tells the X server the position of an output anew, and moves its windows along.
    pub fn update_global_output_offset(&mut self, output: u64) -> (update: Option<
        (OutputPosition, Vec<WindowConfigure>),
    >)
        ensures
            match world::at(old(self).parts(), output) {
                Some(p) if is_placed_output(p) => {
                    let corner = old(self).global_output_offset;
                    let origin = output_origin(p.output_dims->0, corner);
                    &&& update matches Some((position, configures))
                    &&& position == told_position(output, p.output_dims->0, corner)
                    &&& carries(configures@, old(self).parts(), output, origin)
                    &&& final(self).parts() == all_carried(old(self).parts(), output, origin)
                },
                _ => update is None && final(self).parts() == old(self).parts(),
            },
            final(self).names() == old(self).names(),
            *final(self) == (InnerServerState { world: final(self).world, ..*old(self) }),
            old(self).wf() ==> final(self).wf(),
            old(self).one_entity_each() ==> final(self).one_entity_each(),
    {
        let parts = match world::get(&self.world, output) {
            Some(parts) => parts,
            None => return None,
        };
        let dimensions = match (parts.output, parts.output_dims) {
            (true, Some(dimensions)) => dimensions,
            _ => return None,
        };
        let position = OutputPosition {
            output,
            source: dimensions.source,
            x: sub_i32(dimensions.x, self.global_output_offset.x.value),
            y: sub_i32(dimensions.y, self.global_output_offset.y.value),
        };
        let configures = self.update_window_output_offsets(output);
        Some((position, configures))
    }

    /// Whether every output position counts from the least one again, which is found anew if it is
    /// not known, and whether exactly what changed by that is told.
    pub open spec fn offsets_settled(
        self,
        after: InnerServerState,
        positions: Seq<OutputPosition>,
        configures: Seq<WindowConfigure>,
    ) -> bool {
        let corner = self.global_output_offset;
        let settled = after.global_output_offset;
        let stale = corner.x.owner is None || corner.y.owner is None;
        &&& if stale {
            &&& recalculated(output_lefts(self.parts()), corner.x, settled.x)
            &&& recalculated(output_tops(self.parts()), corner.y, settled.y)
        } else {
            settled == corner
        }
        &&& if stale || self.global_offset_updated {
            &&& after.parts() == resettled(self.parts(), settled)
            &&& positions.no_duplicates()
            &&& forall|q: OutputPosition| #[trigger]
                positions.contains(q) <==> self.parts().contains_key(q.output) && is_placed_output(
                    self.parts()[q.output],
                ) && q == told_position(
                    q.output,
                    self.parts()[q.output].output_dims->0,
                    settled,
                )
            &&& configures.no_duplicates()
            &&& forall|c: WindowConfigure| #[trigger]
                configures.contains(c) <==> {
                    let parts = self.parts();
                    &&& parts.contains_key(c.entity)
                    &&& placed_output_of(parts, parts[c.entity]) matches Some(output)
                    &&& carry_configure(
                        c.entity,
                        parts[c.entity],
                        output,
                        output_origin(parts[output].output_dims->0, settled),
                    ) == Some(c)
                }
        } else {
            &&& after.parts() == self.parts()
            &&& positions.len() == 0
            &&& configures.len() == 0
        }
        &&& after.names() == self.names()
        &&& after == (InnerServerState {
            world: after.world,
            global_output_offset: after.global_output_offset,
            global_offset_updated: false,
            ..self
        })
    }

    /// Makes every output position count from the least one again, if that is not known or has
    /// changed. Returns what the X server is told about outputs and windows.
    #[verifier::rlimit(40)]
    pub fn settle_output_offset(&mut self) -> (update: (Vec<OutputPosition>, Vec<WindowConfigure>))
        ensures
            old(self).offsets_settled(*final(self), update.0@, update.1@),
            old(self).wf() ==> final(self).wf(),
            old(self).one_entity_each() ==> final(self).one_entity_each(),
    {
        let mut positions: Vec<OutputPosition> = Vec::new();
        let mut configures: Vec<WindowConfigure> = Vec::new();
        if self.global_output_offset.x.owner.is_none() || self.global_output_offset.y.owner.is_none() {
            self.calc_global_output_offset();
            self.global_offset_updated = true;
        }
        if !self.global_offset_updated {
            return (positions, configures);
        }
        let ghost before = self.parts();
        let ghost corner = self.global_output_offset;
        let ghost settled = *self;
        let outputs = world::entities(&self.world);
        let mut i: usize = 0;
        assert(outputs@.take(0) =~= Seq::<u64>::empty());
        while i < outputs.len()
            invariant
                i <= outputs.len(),
                outputs@.no_duplicates(),
                before == old(self).parts(),
                before == settled.parts(),
                settled.names() == old(self).names(),
                corner == self.global_output_offset,
                self.names() == old(self).names(),
                *self == (InnerServerState { world: self.world, ..settled }),
                forall|e: u64| outputs@.contains(e) <==> before.contains_key(e),
                self.parts().dom() == before.dom(),
                forall|e: u64| #[trigger]
                    before.contains_key(e) ==> self.parts()[e] == resettled_one(
                        before,
                        outputs@.take(i as int),
                        corner,
                        before[e],
                    ),
                resettles(configures@, before, outputs@.take(i as int), corner),
                repositions(positions@, before, outputs@.take(i as int), corner),
            decreases outputs.len() - i,
        {
            let output = outputs[i];
            let ghost seen = outputs@.take(i as int);
            let ghost current = self.parts();
            assert(outputs@.contains(outputs@[i as int]));
            assert(outputs@.take(i as int + 1) =~= seen.push(output));
            assert(!seen.contains(output));
            assert(current[output] == resettled_one(before, seen, corner, before[output]));
            let ghost told = configures@;
            let ghost mut more = Seq::<WindowConfigure>::empty();
            proof {
                lemma_repositions_one_more(positions@, before, seen, output, corner);
            }
            if let Some((position, moved)) = self.update_global_output_offset(output) {
                let mut moved = moved;
                proof {
                    more = moved@;
                }
                positions.push(position);
                configures.append(&mut moved);
            }
            proof {
                lemma_resettles_one_more(told, more, before, current, seen, output, corner);
                assert(configures@ =~= told + more);
                assert forall|e: u64| #[trigger] before.contains_key(e) implies self.parts()[e]
                    == resettled_one(before, seen.push(output), corner, before[e]) by {
                    assert(current[e] == resettled_one(before, seen, corner, before[e]));
                    assert(current[e].on_output == before[e].on_output);
                    if before[e].on_output is Some {
                        vstd::seq_lib::lemma_seq_contains_after_push(
                            seen,
                            output,
                            before[e].on_output->0,
                        );
                    }
                }
            }
            i += 1;
        }
        self.global_offset_updated = false;
        proof {
            assert(outputs@.take(outputs@.len() as int) =~= outputs@);
            assert(self.parts() =~= resettled(before, corner));
            lemma_resettling_keeps_windows(*old(self), *self, corner);
        }
        (positions, configures)
    }
}

/// Entities that are told their positions anew stand for the windows that they stood for.
proof fn lemma_resettling_keeps_windows(
    before: InnerServerState,
    after: InnerServerState,
    corner: GlobalOutputOffset,
)
    requires
        after.parts() == resettled(before.parts(), corner),
        after.windows == before.windows,
    ensures
        before.wf() ==> after.wf(),
        before.one_entity_each() ==> after.one_entity_each(),
{
    assert(after.parts().dom() =~= before.parts().dom());
    assert forall|e: u64| #[trigger] after.parts().contains_key(e) implies {
        let was = before.parts()[e];
        &&& after.parts()[e].window == was.window
        &&& after.parts()[e].data is Some == was.data is Some
        &&& was.data is Some && was.data->0.wf() ==> after.parts()[e].data->0.wf()
    } by {
        assert(before.parts().contains_key(e));
    }
}

/// One axis of the corner after the output that may own it is gone.
pub open spec fn disowned(
    dim: GlobalOutputOffsetDimension,
    output: u64,
) -> GlobalOutputOffsetDimension {
    if dim.owner == Some(output) {
        GlobalOutputOffsetDimension { owner: None, value: dim.value }
    } else {
        dim
    }
}

/// An entity after `output` is gone: the output has no geometry, and nothing is on it.
pub open spec fn without_output(entity: u64, p: Parts, output: u64) -> Parts {
    Parts {
        on_output: if p.on_output == Some(output) {
            None
        } else {
            p.on_output
        },
        output_scale: if entity == output {
            None
        } else {
            p.output_scale
        },
        output_dims: if entity == output {
            None
        } else {
            p.output_dims
        },
        ..p
    }
}

/// Whether an entity is an output bound from `global`.
pub open spec fn is_output_of(p: Parts, global: u32) -> bool {
    p.output && p.global == Some(global)
}

impl InnerServerState {
    /// What becomes of the state when an output goes.
    pub open spec fn output_removed(self, after: InnerServerState, output: u64) -> bool {
        &&& after.parts() == Map::new(
            |e: u64| self.parts().contains_key(e),
            |e: u64| without_output(e, self.parts()[e], output),
        )
        &&& after.updated_outputs@ == self.updated_outputs@.push(output)
        &&& after == (InnerServerState {
            world: after.world,
            updated_outputs: after.updated_outputs,
            global_output_offset: GlobalOutputOffset {
                x: disowned(self.global_output_offset.x, output),
                y: disowned(self.global_output_offset.y, output),
            },
            global_offset_updated: self.global_offset_updated || self.global_output_offset.x.owner
                == Some(output) || self.global_output_offset.y.owner == Some(output),
            ..self
        })
    }

    /// Forgets an output that is gone.
    pub fn remove_output_entity(&mut self, output: u64)
        ensures
            old(self).output_removed(*final(self), output),
            final(self).names() == old(self).names(),
            old(self).wf() ==> final(self).wf(),
            old(self).one_entity_each() ==> final(self).one_entity_each(),
    {
        self.updated_outputs.push(output);
        let ghost before = self.parts();
        let ghost pushed = *self;
        let entities = world::entities(&self.world);
        let mut i: usize = 0;
        while i < entities.len()
            invariant
                i <= entities.len(),
                entities@.no_duplicates(),
                before == old(self).parts(),
                self.names() == old(self).names(),
                *self == (InnerServerState { world: self.world, ..pushed }),
                pushed == (InnerServerState {
                    updated_outputs: pushed.updated_outputs,
                    ..*old(self)
                }),
                pushed.updated_outputs@ == old(self).updated_outputs@.push(output),
                self.parts().dom() == before.dom(),
                forall|e: u64| entities@.contains(e) <==> before.contains_key(e),
                forall|k: int|
                    0 <= k < entities@.len() ==> #[trigger] self.parts()[entities@[k]] == (if k < i {
                        without_output(entities@[k], before[entities@[k]], output)
                    } else {
                        before[entities@[k]]
                    }),
            decreases entities.len() - i,
        {
            let entity = entities[i];
            assert(entities@.contains(entities@[i as int]));
            if let Some(parts) = world::get(&self.world, entity) {
                let mut parts = parts;
                if parts.on_output == Some(output) {
                    parts.on_output = None;
                }
                if entity == output {
                    parts.output_scale = None;
                    parts.output_dims = None;
                }
                world::set(&mut self.world, entity, parts);
            }
            i += 1;
        }
        assert(self.parts() =~= Map::new(
            |e: u64| before.contains_key(e),
            |e: u64| without_output(e, before[e], output),
        )) by {
            assert forall|e: u64| before.contains_key(e) implies self.parts()[e]
                == without_output(e, before[e], output) by {
                let k = choose|k: int| 0 <= k < entities@.len() && entities@[k] == e;
                assert(entities@[k] == e);
            }
        }
        if self.global_output_offset.x.owner == Some(output) {
            self.global_offset_updated = true;
            self.global_output_offset.x.owner = None;
        }
        if self.global_output_offset.y.owner == Some(output) {
            self.global_offset_updated = true;
            self.global_output_offset.y.owner = None;
        }
    }

    /// Forgets the output that was bound from `global`, or one of them if there are several.
    pub fn remove_output(&mut self, global: u32)
        ensures
            if exists|output: u64| #[trigger]
                old(self).parts().contains_key(output) && is_output_of(
                    old(self).parts()[output],
                    global,
                ) {
                exists|output: u64| #[trigger]
                    old(self).parts().contains_key(output) && is_output_of(
                        old(self).parts()[output],
                        global,
                    ) && old(self).output_removed(*final(self), output)
            } else {
                *final(self) == *old(self)
            },
            final(self).names() == old(self).names(),
            old(self).wf() ==> final(self).wf(),
            old(self).one_entity_each() ==> final(self).one_entity_each(),
    {
        let entities = world::entities(&self.world);
        let mut i: usize = 0;
        while i < entities.len()
            invariant
                i <= entities.len(),
                *self == *old(self),
                forall|e: u64| entities@.contains(e) <==> self.parts().contains_key(e),
                forall|k: int|
                    0 <= k < i ==> !is_output_of(self.parts()[#[trigger] entities@[k]], global),
            decreases entities.len() - i,
        {
            let entity = entities[i];
            assert(entities@.contains(entities@[i as int]));
            if let Some(parts) = world::get(&self.world, entity) {
                if let (true, Some(name)) = (parts.output, parts.global) {
                    if name == global {
                        self.remove_output_entity(entity);
                        return;
                    }
                }
            }
            i += 1;
        }
        proof {
            assert forall|output: u64| #[trigger]
                self.parts().contains_key(output) implies !is_output_of(
                self.parts()[output],
                global,
            ) by {
                assert(entities@.contains(output));
            }
        }
    }
}

/// Counted from the corner, no output is at a negative position; and an output right of and below
/// the origin is where it says, as long as no output is left of or above that.
pub proof fn law_told_positions_are_not_negative(
    values: Map<u64, i32>,
    dim: GlobalOutputOffsetDimension,
    output: u64,
)
    requires
        is_corner(values, dim),
        values.contains_key(output),
        values[output] - dim.value <= i32::MAX,
    ensures
        from_corner(values[output], dim.value) == values[output] - dim.value,
        from_corner(values[output], dim.value) >= 0,
        values[dim.owner->0] < 0 ==> from_corner(values[dim.owner->0], dim.value) == 0,
        values[dim.owner->0] >= 0 ==> from_corner(values[output], dim.value) == values[output],
{
}

/// Two outputs keep their distance, whatever the corner is.
pub proof fn law_outputs_keep_their_distance(a: i32, b: i32, corner: i32)
    requires
        i32::MIN <= a - corner <= i32::MAX,
        i32::MIN <= b - corner <= i32::MAX,
    ensures
        from_corner(a, corner) - from_corner(b, corner) == a - b,
{
}

/// A position that `xdg_output` told is not replaced by one that `wl_output` tells.
pub proof fn law_xdg_position_wins(dimensions: OutputDimensions)
    ensures
        !position_counts(
            OutputDimensions { source: OutputDimensionsSource::Xdg, ..dimensions },
            OutputDimensionsSource::Wl,
        ),
        position_counts(dimensions, OutputDimensionsSource::Xdg),
{
}

/// Once an output has a fractional scale, no integer scale replaces it.
pub proof fn law_fractional_scale_stays(current: OutputScaleFactor, n120: i64, factor: i32)
    ensures
        rescaled(
            rescaled(current, OutputScaleFactor::Fractional(n120)),
            OutputScaleFactor::Output(factor),
        ) == OutputScaleFactor::Fractional(n120),
{
}

/// An output that owns the corner and moves away from it gives it up, so that it is worked out
/// anew.
pub proof fn law_owner_that_moves_away_is_replaced(
    dim: GlobalOutputOffsetDimension,
    output: u64,
    value: i32,
)
    requires
        dim.owner == Some(output),
        value > dim.value,
    ensures
        corner_after(dim, output, value).owner is None,
        corner_touched(dim, output, value),
{
}

/// The corner never lies beyond the position that an output was just told.
pub proof fn law_corner_reaches_every_output(
    dim: GlobalOutputOffsetDimension,
    output: u64,
    value: i32,
)
    ensures
        dim.value <= 0 ==> corner_after(dim, output, value).value <= value,
        dim.value <= 0 ==> corner_after(dim, output, value).value <= 0,
{
}

/// The size of an output that stands on its side has width and height exchanged; that of any other
/// is the mode's. Turning it twice gives the mode's size back.
pub proof fn law_quarter_turn_swaps_the_sides(dimensions: OutputDimensions)
    ensures
        dimensions.rotated_90 ==> dimensions.rotated_size().0 == dimensions.height
            && dimensions.rotated_size().1 == dimensions.width,
        !dimensions.rotated_90 ==> dimensions.rotated_size().0 == dimensions.width
            && dimensions.rotated_size().1 == dimensions.height,
        ({
            let (width, height) = dimensions.rotated_size();
            (OutputDimensions { width, height, ..dimensions }).rotated_size() == (
                dimensions.width,
                dimensions.height,
            )
        }),
{
}

/// Of the eight ways to turn and flip an output, the odd ones stand it on its side.
pub proof fn law_odd_transforms_stand_sideways(transform: u32)
    ensures
        is_sideways(transform) <==> transform < 8 && transform % 2 == 1,
{
}

/// Positions count from the corner: the position that is told and the corner add up to where the
/// output is, on both axes, and they are told as being of the kind that they are of.
pub proof fn law_positions_count_from_the_corner(
    output: u64,
    dimensions: OutputDimensions,
    corner: GlobalOutputOffset,
)
    ensures
        ({
            let told = told_position(output, dimensions, corner);
            let origin = output_origin(dimensions, corner);
            &&& told.output == output
            &&& told.source == dimensions.source
            &&& (told.x + corner.x.value - dimensions.x) % 0x1_0000_0000 == 0
            &&& (told.y + corner.y.value - dimensions.y) % 0x1_0000_0000 == 0
            &&& i32::MIN <= dimensions.x - corner.x.value <= i32::MAX ==> told.x + corner.x.value
                == dimensions.x
            &&& i32::MIN <= dimensions.y - corner.y.value <= i32::MAX ==> told.y + corner.y.value
                == dimensions.y
            &&& origin.x == told.x && origin.y == told.y
        }),
{
    geometry::law_low_bits(dimensions.x - corner.x.value);
    geometry::law_low_bits(dimensions.y - corner.y.value);
}

/// An output that moves past the corner becomes its owner there; the owner that moves back gives it
/// up, and any other output leaves it. What counts as touched is exactly what changes it.
pub proof fn law_corner_follows_the_least_output(
    dim: GlobalOutputOffsetDimension,
    output: u64,
    value: i32,
)
    ensures
        ({
            let after = corner_after(dim, output, value);
            &&& value < dim.value ==> after.owner == Some(output) && after.value == value
            &&& value >= dim.value && dim.owner != Some(output) ==> after == dim
            &&& value == dim.value ==> after == dim
            &&& value > dim.value && dim.owner == Some(output) ==> after.owner is None
                && after.value <= 0 && (value < 0 ==> after.value == value) && (value >= 0
                ==> after.value == 0)
            &&& !corner_touched(dim, output, value) ==> after == dim
            &&& corner_touched(dim, output, value) ==> after != dim
        }),
{
}

/// A window moves with the output that it is on, and with no other; nothing but its place changes.
pub proof fn law_only_windows_on_the_output_move(
    parts: Map<u64, Parts>,
    output: u64,
    origin: WindowOutputOffset,
    entity: u64,
)
    requires
        parts.contains_key(entity),
    ensures
        ({
            let p = parts[entity];
            let q = all_carried(parts, output, origin)[entity];
            let here = p.on_output == Some(output) && p.window is Some && p.data is Some;
            &&& all_carried(parts, output, origin).dom() == parts.dom()
            &&& !here ==> q == p && carry_configure(entity, p, output, origin) is None
            &&& here ==> q.data is Some && q.data->0.output_offset == origin
            &&& here ==> q.data->0.attrs.dims.width == p.data->0.attrs.dims.width
                && q.data->0.attrs.dims.height == p.data->0.attrs.dims.height
            &&& here && p.data->0.output_offset_initialized ==> (
            q.data->0.attrs.dims.x - p.data->0.attrs.dims.x - (origin.x
                - p.data->0.output_offset.x)) % 0x10000 == 0
            &&& here && p.data->0.output_offset_initialized ==> (
            q.data->0.attrs.dims.y - p.data->0.attrs.dims.y - (origin.y
                - p.data->0.output_offset.y)) % 0x10000 == 0
            &&& carry_configure(entity, p, output, origin) matches Some(c) ==> {
                &&& c.entity == entity
                &&& p.window == Some(c.window)
                &&& c.dims.x == q.data->0.attrs.dims.x
                &&& c.dims.y == q.data->0.attrs.dims.y
                &&& c.dims.width == q.data->0.attrs.dims.width
                &&& c.dims.height == q.data->0.attrs.dims.height
            }
            &&& carry_configure(entity, p, output, origin) is None && here ==> q.data->0.attrs.dims
                == p.data->0.attrs.dims
            &&& q.window == p.window && q.role == p.role && q.scale == p.scale && q.on_output
                == p.on_output && q.output_dims == p.output_dims
        }),
{
    let p = parts[entity];
    if p.data is Some {
        let data = p.data->0;
        geometry::law_low_bits(data.attrs.dims.x + origin.x - data.output_offset.x);
        geometry::law_low_bits(data.attrs.dims.y + origin.y - data.output_offset.y);
    }
}

/// A surface's fractional scale counts for its output, and a whole scale counts unless a fractional
/// one is known.
pub proof fn law_newest_scale_counts(current: OutputScaleFactor, factor: OutputScaleFactor)
    ensures
        factor is Fractional ==> rescaled(current, factor) == factor,
        current is Output ==> rescaled(current, factor) == factor,
        current is Fractional && factor is Output ==> rescaled(current, factor) == current,
        current matches OutputScaleFactor::Output(whole) ==> current.in_120ths() == 120 * whole,
        current matches OutputScaleFactor::Fractional(n120) ==> current.in_120ths() == n120,
{
}

/// Once an output is gone, nothing is on it, it has neither place nor scale, and it owns no corner.
/// Everything else stays as it is.
pub proof fn law_gone_output_is_forgotten(
    before: InnerServerState,
    after: InnerServerState,
    output: u64,
    entity: u64,
)
    requires
        before.output_removed(after, output),
        before.parts().contains_key(entity),
    ensures
        ({
            let p = before.parts()[entity];
            let q = after.parts()[entity];
            &&& after.parts().contains_key(entity)
            &&& q.on_output != Some(output)
            &&& p.on_output != Some(output) ==> q.on_output == p.on_output
            &&& entity == output ==> q.output_dims is None && q.output_scale is None
            &&& entity != output ==> q.output_dims == p.output_dims && q.output_scale
                == p.output_scale
            &&& q.data == p.data && q.role == p.role && q.window == p.window
        }),
        after.global_output_offset.x.owner != Some(output),
        after.global_output_offset.y.owner != Some(output),
        before.global_output_offset.x.owner != Some(output) ==> after.global_output_offset.x
            == before.global_output_offset.x,
        before.global_output_offset.y.owner != Some(output) ==> after.global_output_offset.y
            == before.global_output_offset.y,
        after.updated_outputs@.contains(output),
{
    assert(after.updated_outputs@.last() == output);
}

/// Once positions have been settled, the corner lies at or before every output and never beyond the
/// origin, and every output is told a position that counts from it.
pub proof fn law_settled_corner(values: Map<u64, i32>, dim: GlobalOutputOffsetDimension, output: u64)
    requires
        is_corner(values, dim),
        values.contains_key(output),
    ensures
        dim.value <= values[output],
        dim.value <= 0,
        dim.value < 0 ==> dim.value == values[dim.owner->0],
        values[output] < 0 ==> dim.value < 0,
{
}

/// An output that is told where it is is there, of the kind that it was told by, as large as before;
/// the windows on it move along and the X server is told of those that do.
pub proof fn law_moved_output(
    before: InnerServerState,
    after: InnerServerState,
    configures: Seq<WindowConfigure>,
    output: u64,
    source: OutputDimensionsSource,
    x: i32,
    y: i32,
    e: u64,
)
    requires
        before.output_moved(after, configures, output, source, x, y),
        before.parts().contains_key(output),
        before.parts()[output].output_dims is Some,
        before.parts().contains_key(e),
    ensures
        ({
            let was = before.parts()[output].output_dims->0;
            let p = before.parts()[e];
            let q = after.parts()[e];
            let here = p.on_output == Some(output) && p.window is Some && p.data is Some;
            let corner = after.global_output_offset;
            &&& after.parts()[output].output_dims == Some(
                OutputDimensions {
                    source,
                    x,
                    y,
                    width: was.width,
                    height: was.height,
                    rotated_90: was.rotated_90,
                },
            )
            &&& e != output && !here ==> q == p
            &&& here ==> q.data->0.output_offset_initialized
            &&& here && i32::MIN <= x - corner.x.value <= i32::MAX ==> q.data->0.output_offset.x
                == x - corner.x.value
            &&& here && i32::MIN <= y - corner.y.value <= i32::MAX ==> q.data->0.output_offset.y
                == y - corner.y.value
            &&& forall|c: WindowConfigure| #[trigger]
                configures.contains(c) && c.entity == e && e != output ==> here && p.window == Some(
                    c.window,
                ) && c.dims.x == q.data->0.attrs.dims.x && c.dims.y == q.data->0.attrs.dims.y
                    && c.dims.width == p.data->0.attrs.dims.width && c.dims.height
                    == p.data->0.attrs.dims.height
            &&& here && e != output && q.data->0.attrs.dims != p.data->0.attrs.dims
                ==> exists|c: WindowConfigure| #[trigger] configures.contains(c) && c.entity == e
            &&& x < before.global_output_offset.x.value ==> corner.x.value == x && corner.x.owner
                == Some(output)
            &&& y < before.global_output_offset.y.value ==> corner.y.value == y && corner.y.owner
                == Some(output)
            &&& corner != before.global_output_offset ==> after.global_offset_updated
            &&& before.global_offset_updated ==> after.global_offset_updated
            &&& after.windows == before.windows && after.last_focused_toplevel
                == before.last_focused_toplevel
            &&& configures.no_duplicates()
        }),
{
    let corner = after.global_output_offset;
    let dimensions = OutputDimensions { source, x, y, ..before.parts()[output].output_dims->0 };
    let origin = output_origin(dimensions, corner);
    let placed = before.parts().insert(
        output,
        Parts { output_dims: Some(dimensions), ..before.parts()[output] },
    );
    law_only_windows_on_the_output_move(placed, output, origin, e);
    law_only_windows_on_the_output_move(placed, output, origin, output);
    law_positions_count_from_the_corner(output, dimensions, corner);
    law_corner_follows_the_least_output(before.global_output_offset.x, output, x);
    law_corner_follows_the_least_output(before.global_output_offset.y, output, y);
    let told = carry_configure(e, placed[e], output, origin);
    if told is Some {
        assert(configures.contains(told->0));
    }
}

/// Once positions are settled none is stale: every output that has a place is told it, counted from
/// the corner, and every window is where its output is.
pub proof fn law_settled_positions(
    before: InnerServerState,
    after: InnerServerState,
    positions: Seq<OutputPosition>,
    configures: Seq<WindowConfigure>,
    output: u64,
)
    requires
        before.offsets_settled(after, positions, configures),
        before.parts().contains_key(output),
        before.parts()[output].output,
        before.parts()[output].output_dims is Some,
        before.global_offset_updated || before.global_output_offset.x.owner is None
            || before.global_output_offset.y.owner is None,
    ensures
        ({
            let dims = before.parts()[output].output_dims->0;
            let corner = after.global_output_offset;
            &&& exists|q: OutputPosition| #[trigger]
                positions.contains(q) && q.output == output && q.source == dims.source && (
                i32::MIN <= dims.x - corner.x.value <= i32::MAX ==> q.x + corner.x.value == dims.x)
                    && (i32::MIN <= dims.y - corner.y.value <= i32::MAX ==> q.y + corner.y.value
                    == dims.y)
            &&& !after.global_offset_updated
            &&& before.global_output_offset.x.owner is None || before.global_output_offset.y.owner
                is None ==> corner.x.value <= dims.x && corner.y.value <= dims.y && corner.x.value
                <= 0 && corner.y.value <= 0
            &&& after.parts()[output].output_dims == before.parts()[output].output_dims
            &&& after.windows == before.windows && after.names() == before.names()
            &&& positions.no_duplicates() && configures.no_duplicates()
        }),
{
    let dims = before.parts()[output].output_dims->0;
    let corner = after.global_output_offset;
    let told = told_position(output, dims, corner);
    assert(positions.contains(told));
    law_positions_count_from_the_corner(output, dims, corner);
    if before.global_output_offset.x.owner is None || before.global_output_offset.y.owner is None {
        let lefts = output_lefts(before.parts());
        let tops = output_tops(before.parts());
        assert(lefts.contains_key(output));
        assert(tops.contains_key(output));
        law_settled_corner(lefts, corner.x, output);
        law_settled_corner(tops, corner.y, output);
    }
}

/// The left edges that count are those of the outputs whose place is known, and so are the top ones.
pub proof fn law_which_edges_count(parts: Map<u64, Parts>, entity: u64)
    ensures
        output_lefts(parts).contains_key(entity) <==> parts.contains_key(entity)
            && parts[entity].output_dims is Some,
        output_tops(parts).contains_key(entity) <==> parts.contains_key(entity)
            && parts[entity].output_dims is Some,
        output_lefts(parts).contains_key(entity) ==> output_lefts(parts)[entity]
            == parts[entity].output_dims->0.x,
        output_tops(parts).contains_key(entity) ==> output_tops(parts)[entity]
            == parts[entity].output_dims->0.y,
{
}

/// Being told positions anew moves exactly the windows that are on an output with a place, and each
/// as its own output says.
pub proof fn law_windows_resettle_with_their_output(
    parts: Map<u64, Parts>,
    corner: GlobalOutputOffset,
    entity: u64,
)
    requires
        parts.contains_key(entity),
    ensures
        ({
            let p = parts[entity];
            let q = resettled(parts, corner)[entity];
            let output = p.on_output->0;
            let placed = p.on_output is Some && parts.contains_key(output) && parts[output].output
                && parts[output].output_dims is Some;
            let here = placed && p.window is Some && p.data is Some;
            &&& resettled(parts, corner).dom() =~= parts.dom()
            &&& !here ==> q == p
            &&& here ==> q.data is Some && q.data->0.output_offset == output_origin(
                parts[output].output_dims->0,
                corner,
            )
            &&& here ==> q.data->0.attrs.dims.width == p.data->0.attrs.dims.width
                && q.data->0.attrs.dims.height == p.data->0.attrs.dims.height
            &&& Parts { data: p.data, ..q } == p
        }),
{
}

} // verus!
