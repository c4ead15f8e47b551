//! Which edges of a window an interactive resize drags.
//!
//! X11 names a resize by one of eight directions, `xdg_toplevel` by one of eight edges. Both are
//! a choice, for each axis, of the edge at its start, the edge at its end, or neither.

use vstd::prelude::*;
use crate::geometry::WindowDims;

verus! {

/// The edge of one axis that a resize drags: left or top, right or bottom.
#[derive(Clone, Copy, Debug, PartialEq, Eq, Structural)]
pub enum ResizeAxis {
    Start,
    End,
}

/// The direction of a `_NET_WM_MOVERESIZE` request.
#[derive(Clone, Copy, Debug, PartialEq, Eq, Structural)]
pub enum MoveResizeDirection {
    SizeTopLeft,
    SizeTop,
    SizeTopRight,
    SizeRight,
    SizeBottomRight,
    SizeBottom,
    SizeBottomLeft,
    SizeLeft,
    Move,
    SizeKeyboard,
    MoveKeyboard,
    Cancel,
}

/// The edge that `xdg_toplevel.resize` names.
#[derive(Clone, Copy, Debug, PartialEq, Eq, Structural)]
pub enum ResizeEdge {
    NoEdge,
    Top,
    Bottom,
    Left,
    TopLeft,
    BottomLeft,
    Right,
    TopRight,
    BottomRight,
}

/// The pointer image shown over a decoration.
#[derive(Clone, Copy, Debug, PartialEq, Eq, Structural)]
pub enum CursorShape {
    Default,
    NsResize,
    EwResize,
    NeswResize,
    NwseResize,
}

/// The axes that a resize direction drags.
pub type Axes = (Option<ResizeAxis>, Option<ResizeAxis>);

impl MoveResizeDirection {
    /// Whether the direction drags edges, rather than moving or cancelling.
    pub open spec fn drags_edges(self) -> bool {
        !(self is Move || self is SizeKeyboard || self is MoveKeyboard || self is Cancel)
    }

    /// Whether the direction drags edges.
    pub fn is_edge_resize(self) -> (r: bool)
        ensures
            r == self.drags_edges(),
    {
        !matches!(
            self,
            MoveResizeDirection::Move | MoveResizeDirection::SizeKeyboard
                | MoveResizeDirection::MoveKeyboard | MoveResizeDirection::Cancel
        )
    }
}

/// The direction that drags exactly the given axes, if any axis is dragged at all.
pub open spec fn direction_of(axes: Axes) -> Option<MoveResizeDirection> {
    match axes {
        (Some(ResizeAxis::Start), Some(ResizeAxis::Start)) => Some(MoveResizeDirection::SizeTopLeft),
        (None, Some(ResizeAxis::Start)) => Some(MoveResizeDirection::SizeTop),
        (Some(ResizeAxis::End), Some(ResizeAxis::Start)) => Some(MoveResizeDirection::SizeTopRight),
        (Some(ResizeAxis::End), None) => Some(MoveResizeDirection::SizeRight),
        (Some(ResizeAxis::End), Some(ResizeAxis::End)) => Some(MoveResizeDirection::SizeBottomRight),
        (None, Some(ResizeAxis::End)) => Some(MoveResizeDirection::SizeBottom),
        (Some(ResizeAxis::Start), Some(ResizeAxis::End)) => Some(MoveResizeDirection::SizeBottomLeft),
        (Some(ResizeAxis::Start), None) => Some(MoveResizeDirection::SizeLeft),
        (None, None) => None,
    }
}

/// The axes that a direction drags; none for one that drags no edge.
pub open spec fn axes_of(direction: MoveResizeDirection) -> Axes {
    (
        match direction {
            MoveResizeDirection::SizeTopLeft
            | MoveResizeDirection::SizeLeft
            | MoveResizeDirection::SizeBottomLeft => Some(ResizeAxis::Start),
            MoveResizeDirection::SizeTopRight
            | MoveResizeDirection::SizeRight
            | MoveResizeDirection::SizeBottomRight => Some(ResizeAxis::End),
            _ => None,
        },
        match direction {
            MoveResizeDirection::SizeTopLeft
            | MoveResizeDirection::SizeTop
            | MoveResizeDirection::SizeTopRight => Some(ResizeAxis::Start),
            MoveResizeDirection::SizeBottomLeft
            | MoveResizeDirection::SizeBottom
            | MoveResizeDirection::SizeBottomRight => Some(ResizeAxis::End),
            _ => None,
        },
    )
}

/// The edge of `xdg_toplevel.resize` that drags the given axes.
pub open spec fn edge_of(axes: Axes) -> ResizeEdge {
    match axes {
        (Some(ResizeAxis::Start), Some(ResizeAxis::Start)) => ResizeEdge::TopLeft,
        (None, Some(ResizeAxis::Start)) => ResizeEdge::Top,
        (Some(ResizeAxis::End), Some(ResizeAxis::Start)) => ResizeEdge::TopRight,
        (Some(ResizeAxis::End), None) => ResizeEdge::Right,
        (Some(ResizeAxis::End), Some(ResizeAxis::End)) => ResizeEdge::BottomRight,
        (None, Some(ResizeAxis::End)) => ResizeEdge::Bottom,
        (Some(ResizeAxis::Start), Some(ResizeAxis::End)) => ResizeEdge::BottomLeft,
        (Some(ResizeAxis::Start), None) => ResizeEdge::Left,
        (None, None) => ResizeEdge::NoEdge,
    }
}

/// Two wishes for one axis agree unless they name different edges.
pub open spec fn axes_agree(current: Option<ResizeAxis>, next: Option<ResizeAxis>) -> bool {
    current is None || next is None || current == next
}

/// What two agreeing wishes for one axis come to.
pub open spec fn joined_axis(
    current: Option<ResizeAxis>,
    next: Option<ResizeAxis>,
) -> Option<ResizeAxis> {
    if current is Some {
        current
    } else {
        next
    }
}

/// The one direction that drags what both directions drag, if they do not contradict each other.
pub open spec fn merged(
    current: MoveResizeDirection,
    next: MoveResizeDirection,
) -> Option<MoveResizeDirection> {
    if axes_agree(axes_of(current).0, axes_of(next).0) && axes_agree(
        axes_of(current).1,
        axes_of(next).1,
    ) {
        direction_of(
            (
                joined_axis(axes_of(current).0, axes_of(next).0),
                joined_axis(axes_of(current).1, axes_of(next).1),
            ),
        )
    } else {
        None
    }
}

/// The axes that a resize direction drags.
pub fn resize_axes_for_direction(direction: MoveResizeDirection) -> (axes: Axes)
    requires
        direction.drags_edges(),
    ensures
        axes == axes_of(direction),
{
    match direction {
        MoveResizeDirection::SizeTopLeft => (Some(ResizeAxis::Start), Some(ResizeAxis::Start)),
        MoveResizeDirection::SizeTop => (None, Some(ResizeAxis::Start)),
        MoveResizeDirection::SizeTopRight => (Some(ResizeAxis::End), Some(ResizeAxis::Start)),
        MoveResizeDirection::SizeRight => (Some(ResizeAxis::End), None),
        MoveResizeDirection::SizeBottomRight => (Some(ResizeAxis::End), Some(ResizeAxis::End)),
        MoveResizeDirection::SizeBottom => (None, Some(ResizeAxis::End)),
        MoveResizeDirection::SizeBottomLeft => (Some(ResizeAxis::Start), Some(ResizeAxis::End)),
        _ => (Some(ResizeAxis::Start), None),
    }
}

/// The direction that drags the given edge.
pub fn resize_direction_from_edge(edge: ResizeEdge) -> (direction: MoveResizeDirection)
    requires
        edge != ResizeEdge::NoEdge,
    ensures
        direction.drags_edges(),
        edge_of(axes_of(direction)) == edge,
{
    match edge {
        ResizeEdge::TopLeft => MoveResizeDirection::SizeTopLeft,
        ResizeEdge::Top => MoveResizeDirection::SizeTop,
        ResizeEdge::TopRight => MoveResizeDirection::SizeTopRight,
        ResizeEdge::Right => MoveResizeDirection::SizeRight,
        ResizeEdge::BottomRight => MoveResizeDirection::SizeBottomRight,
        ResizeEdge::Bottom => MoveResizeDirection::SizeBottom,
        ResizeEdge::BottomLeft => MoveResizeDirection::SizeBottomLeft,
        _ => MoveResizeDirection::SizeLeft,
    }
}

/// The edge that a resize direction drags.
pub fn resize_edge_from_direction(direction: MoveResizeDirection) -> (edge: ResizeEdge)
    requires
        direction.drags_edges(),
    ensures
        edge == edge_of(axes_of(direction)),
        edge != ResizeEdge::NoEdge,
{
    match direction {
        MoveResizeDirection::SizeTopLeft => ResizeEdge::TopLeft,
        MoveResizeDirection::SizeTop => ResizeEdge::Top,
        MoveResizeDirection::SizeTopRight => ResizeEdge::TopRight,
        MoveResizeDirection::SizeRight => ResizeEdge::Right,
        MoveResizeDirection::SizeBottomRight => ResizeEdge::BottomRight,
        MoveResizeDirection::SizeBottom => ResizeEdge::Bottom,
        MoveResizeDirection::SizeBottomLeft => ResizeEdge::BottomLeft,
        _ => ResizeEdge::Left,
    }
}

/// The direction that drags the given axes; `None` when neither axis is dragged.
pub fn resize_direction_from_axes(
    horizontal: Option<ResizeAxis>,
    vertical: Option<ResizeAxis>,
) -> (direction: Option<MoveResizeDirection>)
    ensures
        direction == direction_of((horizontal, vertical)),
{
    match (horizontal, vertical) {
        (Some(ResizeAxis::Start), Some(ResizeAxis::Start)) => Some(MoveResizeDirection::SizeTopLeft),
        (None, Some(ResizeAxis::Start)) => Some(MoveResizeDirection::SizeTop),
        (Some(ResizeAxis::End), Some(ResizeAxis::Start)) => Some(MoveResizeDirection::SizeTopRight),
        (Some(ResizeAxis::End), None) => Some(MoveResizeDirection::SizeRight),
        (Some(ResizeAxis::End), Some(ResizeAxis::End)) => Some(MoveResizeDirection::SizeBottomRight),
        (None, Some(ResizeAxis::End)) => Some(MoveResizeDirection::SizeBottom),
        (Some(ResizeAxis::Start), Some(ResizeAxis::End)) => Some(MoveResizeDirection::SizeBottomLeft),
        (Some(ResizeAxis::Start), None) => Some(MoveResizeDirection::SizeLeft),
        (None, None) => None,
    }
}

/// Joins a resize in progress with a new one, unless they drag opposite edges of one axis.
pub fn merge_resize_directions(
    current: MoveResizeDirection,
    next: MoveResizeDirection,
) -> (direction: Option<MoveResizeDirection>)
    requires
        current.drags_edges(),
        next.drags_edges(),
    ensures
        direction == merged(current, next),
{
    let (current_horizontal, current_vertical) = resize_axes_for_direction(current);
    let (next_horizontal, next_vertical) = resize_axes_for_direction(next);
    let horizontal = match (current_horizontal, next_horizontal) {
        (Some(current_axis), Some(next_axis)) => {
            if current_axis != next_axis {
                return None;
            }
            Some(current_axis)
        },
        (Some(current_axis), None) => Some(current_axis),
        (None, next_axis) => next_axis,
    };
    let vertical = match (current_vertical, next_vertical) {
        (Some(current_axis), Some(next_axis)) => {
            if current_axis != next_axis {
                return None;
            }
            Some(current_axis)
        },
        (Some(current_axis), None) => Some(current_axis),
        (None, next_axis) => next_axis,
    };
    resize_direction_from_axes(horizontal, vertical)
}

/// How one axis of a rectangle changes: an edge moved, neither did, or (`Err`) both did.
pub open spec fn moved_edge(start: int, end: int, new_start: int, new_end: int) -> Result<
    Option<ResizeAxis>,
    (),
> {
    if new_start != start && new_end != end {
        Err(())
    } else if new_start != start {
        Ok(Some(ResizeAxis::Start))
    } else if new_end != end {
        Ok(Some(ResizeAxis::End))
    } else {
        Ok(None)
    }
}

/// The direction of the resize that turns one rectangle into another: the edges that moved, as
/// long as on each axis at most one did.
pub open spec fn inferred_direction(
    current_dims: WindowDims,
    requested_dims: WindowDims,
) -> Option<MoveResizeDirection> {
    let horizontal = moved_edge(
        current_dims.x as int,
        current_dims.x + current_dims.width,
        requested_dims.x as int,
        requested_dims.x + requested_dims.width,
    );
    let vertical = moved_edge(
        current_dims.y as int,
        current_dims.y + current_dims.height,
        requested_dims.y as int,
        requested_dims.y + requested_dims.height,
    );
    if horizontal is Ok && vertical is Ok {
        direction_of((horizontal->Ok_0, vertical->Ok_0))
    } else {
        None
    }
}

/// Works out which edges a client drags from the rectangle it has and the one it asks for.
pub fn infer_resize_direction(current_dims: WindowDims, requested_dims: WindowDims) -> (direction:
    Option<MoveResizeDirection>)
    ensures
        direction == inferred_direction(current_dims, requested_dims),
{
    let current_left: i32 = current_dims.x as i32;
    let current_top: i32 = current_dims.y as i32;
    let current_right: i32 = current_left + current_dims.width as i32;
    let current_bottom: i32 = current_top + current_dims.height as i32;
    let requested_left: i32 = requested_dims.x as i32;
    let requested_top: i32 = requested_dims.y as i32;
    let requested_right: i32 = requested_left + requested_dims.width as i32;
    let requested_bottom: i32 = requested_top + requested_dims.height as i32;
    let horizontal = match (requested_left != current_left, requested_right != current_right) {
        (true, false) => Some(ResizeAxis::Start),
        (false, true) => Some(ResizeAxis::End),
        (false, false) => None,
        (true, true) => return None,
    };
    let vertical = match (requested_top != current_top, requested_bottom != current_bottom) {
        (true, false) => Some(ResizeAxis::Start),
        (false, true) => Some(ResizeAxis::End),
        (false, false) => None,
        (true, true) => return None,
    };
    resize_direction_from_axes(horizontal, vertical)
}

/// The cursor shown over an edge: the line along which dragging it moves.
pub open spec fn shape_of(edge: ResizeEdge) -> CursorShape {
    match edge {
        ResizeEdge::NoEdge => CursorShape::Default,
        ResizeEdge::Top | ResizeEdge::Bottom => CursorShape::NsResize,
        ResizeEdge::Left | ResizeEdge::Right => CursorShape::EwResize,
        ResizeEdge::TopRight | ResizeEdge::BottomLeft => CursorShape::NeswResize,
        ResizeEdge::TopLeft | ResizeEdge::BottomRight => CursorShape::NwseResize,
    }
}

/// The cursor shown over an edge.
pub fn cursor_shape_for_edge(edge: ResizeEdge) -> (shape: CursorShape)
    requires
        edge != ResizeEdge::NoEdge,
    ensures
        shape == shape_of(edge),
{
    match edge {
        ResizeEdge::TopLeft | ResizeEdge::BottomRight => CursorShape::NwseResize,
        ResizeEdge::TopRight | ResizeEdge::BottomLeft => CursorShape::NeswResize,
        ResizeEdge::Top | ResizeEdge::Bottom => CursorShape::NsResize,
        _ => CursorShape::EwResize,
    }
}

/// A direction is given back by the axes that it drags.
pub proof fn law_direction_of_axes(direction: MoveResizeDirection)
    requires
        direction.drags_edges(),
    ensures
        direction_of(axes_of(direction)) == Some(direction),
{
}

/// Two directions that drag the same edge are the same.
pub proof fn law_edge_names_one_direction(a: MoveResizeDirection, b: MoveResizeDirection)
    requires
        a.drags_edges(),
        b.drags_edges(),
        edge_of(axes_of(a)) == edge_of(axes_of(b)),
    ensures
        a == b,
{
}

/// Merging a direction with itself changes nothing.
pub proof fn law_merge_with_itself(direction: MoveResizeDirection)
    requires
        direction.drags_edges(),
    ensures
        merged(direction, direction) == Some(direction),
{
}

/// It does not matter which of two directions came first.
pub proof fn law_merge_commutes(a: MoveResizeDirection, b: MoveResizeDirection)
    requires
        a.drags_edges(),
        b.drags_edges(),
    ensures
        merged(a, b) == merged(b, a),
{
}

/// A merged direction drags every edge that either of its parts drags.
pub proof fn law_merge_keeps_edges(a: MoveResizeDirection, b: MoveResizeDirection)
    requires
        a.drags_edges(),
        b.drags_edges(),
        merged(a, b) is Some,
    ensures
        merged(a, b)->0.drags_edges(),
        axes_of(a).0 is Some ==> axes_of(merged(a, b)->0).0 == axes_of(a).0,
        axes_of(a).1 is Some ==> axes_of(merged(a, b)->0).1 == axes_of(a).1,
        axes_of(b).0 is Some ==> axes_of(merged(a, b)->0).0 == axes_of(b).0,
        axes_of(b).1 is Some ==> axes_of(merged(a, b)->0).1 == axes_of(b).1,
{
}

/// An inferred resize leaves the edges that it does not drag where they were.
pub proof fn law_inferred_resize_keeps_other_edges(
    current_dims: WindowDims,
    requested_dims: WindowDims,
)
    requires
        inferred_direction(current_dims, requested_dims) is Some,
    ensures
        inferred_direction(current_dims, requested_dims)->0.drags_edges(),
        ({
            let axes = axes_of(inferred_direction(current_dims, requested_dims)->0);
            &&& axes.0 != Some(ResizeAxis::Start) ==> requested_dims.x == current_dims.x
            &&& axes.0 != Some(ResizeAxis::End) ==> requested_dims.x + requested_dims.width
                == current_dims.x + current_dims.width
            &&& axes.1 != Some(ResizeAxis::Start) ==> requested_dims.y == current_dims.y
            &&& axes.1 != Some(ResizeAxis::End) ==> requested_dims.y + requested_dims.height
                == current_dims.y + current_dims.height
        }),
{
}

/// A window that is only moved is not being resized.
pub proof fn law_a_move_is_no_resize(current_dims: WindowDims, requested_dims: WindowDims)
    requires
        requested_dims.width == current_dims.width,
        requested_dims.height == current_dims.height,
    ensures
        inferred_direction(current_dims, requested_dims) is None,
{
}

/// A direction that drags edges is named after the sides that it drags: left and top are where an
/// axis starts, right and bottom where it ends. All others drag none.
pub proof fn law_directions_drag_their_sides(direction: MoveResizeDirection)
    ensures
        axes_of(direction).0 == Some(ResizeAxis::Start) <==> direction is SizeTopLeft
            || direction is SizeLeft || direction is SizeBottomLeft,
        axes_of(direction).0 == Some(ResizeAxis::End) <==> direction is SizeTopRight
            || direction is SizeRight || direction is SizeBottomRight,
        axes_of(direction).1 == Some(ResizeAxis::Start) <==> direction is SizeTopLeft
            || direction is SizeTop || direction is SizeTopRight,
        axes_of(direction).1 == Some(ResizeAxis::End) <==> direction is SizeBottomLeft
            || direction is SizeBottom || direction is SizeBottomRight,
        direction.drags_edges() <==> axes_of(direction).0 is Some || axes_of(direction).1 is Some,
{
}

/// The edge that the compositor is told is the one of the same name.
pub proof fn law_edges_are_named_alike()
    ensures
        edge_of(axes_of(MoveResizeDirection::SizeTopLeft)) == ResizeEdge::TopLeft,
        edge_of(axes_of(MoveResizeDirection::SizeTop)) == ResizeEdge::Top,
        edge_of(axes_of(MoveResizeDirection::SizeTopRight)) == ResizeEdge::TopRight,
        edge_of(axes_of(MoveResizeDirection::SizeRight)) == ResizeEdge::Right,
        edge_of(axes_of(MoveResizeDirection::SizeBottomRight)) == ResizeEdge::BottomRight,
        edge_of(axes_of(MoveResizeDirection::SizeBottom)) == ResizeEdge::Bottom,
        edge_of(axes_of(MoveResizeDirection::SizeBottomLeft)) == ResizeEdge::BottomLeft,
        edge_of(axes_of(MoveResizeDirection::SizeLeft)) == ResizeEdge::Left,
        forall|axes: Axes| #[trigger]
            edge_of(axes) == ResizeEdge::NoEdge <==> axes.0 is None && axes.1 is None,
{
}

/// Directions that drag opposite sides do not go together, and any others do.
pub proof fn law_opposite_sides_do_not_merge(a: MoveResizeDirection, b: MoveResizeDirection)
    requires
        a.drags_edges(),
        b.drags_edges(),
    ensures
        merged(a, b) is None <==> (axes_of(a).0 is Some && axes_of(b).0 is Some && axes_of(a).0
            != axes_of(b).0) || (axes_of(a).1 is Some && axes_of(b).1 is Some && axes_of(a).1
            != axes_of(b).1),
        merged(a, b) is Some ==> (axes_of(merged(a, b)->0).0 is Some ==> axes_of(a).0 is Some
            || axes_of(b).0 is Some),
        merged(a, b) is Some ==> (axes_of(merged(a, b)->0).1 is Some ==> axes_of(a).1 is Some
            || axes_of(b).1 is Some),
{
}

/// A request that moves one edge of an axis, or none, and at least one edge in all, is a resize by
/// exactly the edges that it moves; one that moves two opposite edges is none.
pub proof fn law_resize_is_inferred_from_the_moved_edges(
    current_dims: WindowDims,
    requested_dims: WindowDims,
)
    ensures
        ({
            let left = requested_dims.x != current_dims.x;
            let right = requested_dims.x + requested_dims.width != current_dims.x
                + current_dims.width;
            let top = requested_dims.y != current_dims.y;
            let bottom = requested_dims.y + requested_dims.height != current_dims.y
                + current_dims.height;
            let inferred = inferred_direction(current_dims, requested_dims);
            &&& inferred is Some <==> !(left && right) && !(top && bottom) && (left || right || top
                || bottom)
            &&& inferred matches Some(direction) ==> {
                &&& left <==> axes_of(direction).0 == Some(ResizeAxis::Start)
                &&& right <==> axes_of(direction).0 == Some(ResizeAxis::End)
                &&& top <==> axes_of(direction).1 == Some(ResizeAxis::Start)
                &&& bottom <==> axes_of(direction).1 == Some(ResizeAxis::End)
            }
        }),
{
}

/// Opposite edges and corners have the same cursor, which points the way that they are dragged.
pub proof fn law_cursors_point_along_the_drag(edge: ResizeEdge)
    ensures
        shape_of(edge) is NsResize <==> edge is Top || edge is Bottom,
        shape_of(edge) is EwResize <==> edge is Left || edge is Right,
        shape_of(edge) is NwseResize <==> edge is TopLeft || edge is BottomRight,
        shape_of(edge) is NeswResize <==> edge is TopRight || edge is BottomLeft,
        shape_of(edge) is Default <==> edge is NoEdge,
{
}

} // verus!
