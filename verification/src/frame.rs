//! The geometry of the frame around a decorated window.

use vstd::prelude::*;
use crate::decoration::{
    DecorationPart, DecorationsDataSatellite, FIXED_UNIT, RESIZE_HANDLE_SIZE, TITLEBAR_HEIGHT,
    WINDOW_SHADOW_EXTENT,
};
use crate::resize;
use crate::resize::{ResizeAxis, ResizeEdge};

verus! {

/// A rectangle in surface-local units.
#[derive(Clone, Copy, Debug, PartialEq, Eq, Structural)]
pub struct Rect {
    pub x: i32,
    pub y: i32,
    pub width: i32,
    pub height: i32,
}

/// Where the two decoration surfaces take input.
pub struct InputRegions {
    pub frame: Vec<Rect>,
    pub titlebar: Vec<Rect>,
}

/// How the frame surface is drawn.
#[derive(Clone, Copy, Debug, PartialEq, Eq, Structural)]
pub enum FrameContent {
    /// A maximized window has no visible frame.
    Empty,
    /// A line inside the window's edge.
    TiledRing,
    /// A line around the window, and its shadow unless the window is being resized.
    Ring { shadow: bool },
}

/// Where the frame surface is put, and what is drawn on it.
#[derive(Clone, Copy, Debug, PartialEq, Eq, Structural)]
pub struct FramePlan {
    pub x: i32,
    pub y: i32,
    pub width: i32,
    pub height: i32,
    /// The window within the frame.
    pub visible: Rect,
    /// What to draw, unless there is nothing to draw on.
    pub content: Option<FrameContent>,
}

/// The height of the title bar, if there is one.
pub open spec fn titlebar(draw_titlebar: bool) -> int {
    if draw_titlebar {
        TITLEBAR_HEIGHT as int
    } else {
        0
    }
}

/// The width of the border that can be dragged.
pub open spec fn grip(maximized: bool, resizable: bool) -> int {
    if !maximized && resizable {
        RESIZE_HANDLE_SIZE as int
    } else {
        0
    }
}

/// The width of the border that is drawn: room for the grip and for the shadow.
pub open spec fn border(maximized: bool, tiled: bool, resizable: bool) -> int {
    if !maximized && !tiled {
        WINDOW_SHADOW_EXTENT as int
    } else {
        grip(maximized, resizable)
    }
}

/// The height of the title bar, if there is one.
pub fn titlebar_height_for(draw_titlebar: bool) -> (height: i32)
    ensures
        height == titlebar(draw_titlebar),
{
    if draw_titlebar {
        TITLEBAR_HEIGHT
    } else {
        0
    }
}

/// The width of the border that can be dragged.
pub fn resize_border_for(maximized: bool, resizable: bool) -> (width: i32)
    ensures
        width == grip(maximized, resizable),
{
    if !maximized && resizable {
        RESIZE_HANDLE_SIZE
    } else {
        0
    }
}

/// The width of the shadow.
pub fn shadow_border_for(maximized: bool, tiled: bool) -> (width: i32)
    ensures
        width == (if maximized || tiled {
            0
        } else {
            WINDOW_SHADOW_EXTENT as int
        }),
{
    if maximized || tiled {
        0
    } else {
        WINDOW_SHADOW_EXTENT
    }
}

/// The width of the border that is drawn.
pub fn frame_border_for(maximized: bool, tiled: bool, resizable: bool) -> (width: i32)
    ensures
        width == border(maximized, tiled, resizable),
{
    let resize_border: i32 = resize_border_for(maximized, resizable);
    let shadow_border: i32 = shadow_border_for(maximized, tiled);
    if resize_border > shadow_border {
        resize_border
    } else {
        shadow_border
    }
}

/// The width of the border that belongs to the window's geometry.
pub fn geometry_border_for(maximized: bool, resizable: bool) -> (width: i32)
    ensures
        width == grip(maximized, resizable),
{
    resize_border_for(maximized, resizable)
}

/// The width of the frame around a window.
pub fn frame_width_for(width: i32, maximized: bool, tiled: bool, resizable: bool) -> (frame_width: i32)
    requires
        width + 2 * border(maximized, tiled, resizable) <= i32::MAX,
    ensures
        frame_width == width + 2 * border(maximized, tiled, resizable),
{
    width + frame_border_for(maximized, tiled, resizable) * 2
}

/// The height of the frame around a window.
pub fn frame_height_for(
    height: i32,
    maximized: bool,
    tiled: bool,
    resizable: bool,
    draw_titlebar: bool,
) -> (frame_height: i32)
    requires
        titlebar(draw_titlebar) + height + 2 * border(maximized, tiled, resizable) <= i32::MAX,
    ensures
        frame_height == titlebar(draw_titlebar) + height + 2 * border(maximized, tiled, resizable),
{
    titlebar_height_for(draw_titlebar) + height + frame_border_for(maximized, tiled, resizable) * 2
}

/// Where the title bar starts within the frame.
pub fn titlebar_offset_for(maximized: bool, tiled: bool, resizable: bool) -> (offset: i32)
    ensures
        offset == border(maximized, tiled, resizable),
{
    frame_border_for(maximized, tiled, resizable)
}

/// The geometry of a window with the given contents: the corner, which lies outside the
/// contents, and the size with grips and title bar.
pub fn window_geometry_for(
    width: i32,
    height: i32,
    maximized: bool,
    resizable: bool,
    draw_titlebar: bool,
) -> (geometry: (i32, i32, i32, i32))
    requires
        width + 2 * grip(maximized, resizable) <= i32::MAX,
        titlebar(draw_titlebar) + height + 2 * grip(maximized, resizable) <= i32::MAX,
    ensures
        geometry.0 == -grip(maximized, resizable),
        geometry.1 == -(titlebar(draw_titlebar) + grip(maximized, resizable)),
        geometry.2 == width + 2 * grip(maximized, resizable),
        geometry.3 == titlebar(draw_titlebar) + height + 2 * grip(maximized, resizable),
{
    let border: i32 = geometry_border_for(maximized, resizable);
    let titlebar_height: i32 = titlebar_height_for(draw_titlebar);
    (
        -border,
        -(titlebar_height + border),
        width + border * 2,
        titlebar_height + height + border * 2,
    )
}

/// At least one.
pub open spec fn at_least_one(length: int) -> int {
    if length < 1 {
        1
    } else {
        length
    }
}

/// The contents of a window with the given geometry. There is always something of them.
pub fn content_size_for_window_geometry(
    width: i32,
    height: i32,
    maximized: bool,
    resizable: bool,
    draw_titlebar: bool,
) -> (size: (i32, i32))
    requires
        width - 2 * grip(maximized, resizable) >= i32::MIN,
        height - (titlebar(draw_titlebar) + 2 * grip(maximized, resizable)) >= i32::MIN,
    ensures
        size.0 == at_least_one(width - 2 * grip(maximized, resizable)),
        size.1 == at_least_one(
            height - (titlebar(draw_titlebar) + 2 * grip(maximized, resizable)),
        ),
{
    let border: i32 = geometry_border_for(maximized, resizable);
    let titlebar_height: i32 = titlebar_height_for(draw_titlebar);
    let content_width: i32 = width - border * 2;
    let content_height: i32 = height - (titlebar_height + border * 2);
    (
        if content_width < 1 {
            1
        } else {
            content_width
        },
        if content_height < 1 {
            1
        } else {
            content_height
        },
    )
}

/// Whether a fixed point coordinate lies between two bounds, both included.
pub open spec fn within(position: int, from: int, to: int) -> bool {
    from * FIXED_UNIT <= position <= to * FIXED_UNIT
}

/// The edge of one axis of a frame that a position is on: its start, its end, neither (`Ok`), or
/// both (`Err`).
pub open spec fn axis_at(
    length: int,
    frame_border: int,
    resize_border: int,
    position: int,
    allow_start: bool,
    allow_end: bool,
) -> Result<Option<ResizeAxis>, ()> {
    let at_start = allow_start && within(
        position,
        frame_border - resize_border,
        frame_border,
    );
    let at_end = allow_end && within(
        position,
        length - frame_border,
        length - (frame_border - resize_border),
    );
    if at_start && at_end {
        Err(())
    } else if at_start {
        Ok(Some(ResizeAxis::Start))
    } else if at_end {
        Ok(Some(ResizeAxis::End))
    } else {
        Ok(None)
    }
}

/// The edge of a frame that a position is on. Only the part of the border next to the window can
/// be grabbed.
pub open spec fn edge_at(
    width: int,
    height: int,
    frame_border: int,
    resize_border: int,
    x: int,
    y: int,
    allow_top: bool,
    allow_bottom: bool,
) -> Option<ResizeEdge> {
    let horizontal = axis_at(width, frame_border, resize_border, x, true, true);
    let vertical = axis_at(height, frame_border, resize_border, y, allow_top, allow_bottom);
    if width <= 0 || height <= 0 || resize_border <= 0 || frame_border < resize_border {
        None
    } else if horizontal is Err || vertical is Err {
        None
    } else if horizontal->Ok_0 is None && vertical->Ok_0 is None {
        None
    } else {
        Some(resize::edge_of((horizontal->Ok_0, vertical->Ok_0)))
    }
}

/// The edge of a frame that a position, in fixed point, is on.
pub fn resize_edge_for_frame_rect(
    width: i32,
    height: i32,
    frame_border: i32,
    resize_border: i32,
    x: i64,
    y: i64,
    allow_top: bool,
    allow_bottom: bool,
) -> (edge: Option<ResizeEdge>)
    ensures
        edge == edge_at(
            width as int,
            height as int,
            frame_border as int,
            resize_border as int,
            x as int,
            y as int,
            allow_top,
            allow_bottom,
        ),
        edge != Some(ResizeEdge::NoEdge),
{
    if width <= 0 || height <= 0 || resize_border <= 0 || frame_border < resize_border {
        return None;
    }
    let inactive_outer: i64 = (frame_border as i64 - resize_border as i64) * FIXED_UNIT;
    let visible: i64 = frame_border as i64 * FIXED_UNIT;
    let visible_right: i64 = (width as i64 - frame_border as i64) * FIXED_UNIT;
    let visible_bottom: i64 = (height as i64 - frame_border as i64) * FIXED_UNIT;
    let outer_right: i64 = width as i64 * FIXED_UNIT - inactive_outer;
    let outer_bottom: i64 = height as i64 * FIXED_UNIT - inactive_outer;
    let left = x >= inactive_outer && x <= visible;
    let right = x >= visible_right && x <= outer_right;
    let top = allow_top && y >= inactive_outer && y <= visible;
    let bottom = allow_bottom && y >= visible_bottom && y <= outer_bottom;
    match (left, right, top, bottom) {
        (true, false, true, false) => Some(ResizeEdge::TopLeft),
        (false, false, true, false) => Some(ResizeEdge::Top),
        (false, true, true, false) => Some(ResizeEdge::TopRight),
        (false, true, false, false) => Some(ResizeEdge::Right),
        (false, true, false, true) => Some(ResizeEdge::BottomRight),
        (false, false, false, true) => Some(ResizeEdge::Bottom),
        (true, false, false, true) => Some(ResizeEdge::BottomLeft),
        (true, false, false, false) => Some(ResizeEdge::Left),
        _ => None,
    }
}

impl DecorationsDataSatellite {
    /// The border that is drawn.
    pub open spec fn border(self) -> int {
        border(self.maximized, self.tiled, self.resizable)
    }

    /// The border that can be dragged.
    pub open spec fn grip(self) -> int {
        grip(self.maximized, self.resizable)
    }

    /// The width of the frame.
    pub open spec fn full_width(self) -> int {
        self.width + 2 * self.border()
    }

    /// The height of the frame.
    pub open spec fn full_height(self) -> int {
        titlebar(self.draw_titlebar) + self.height + 2 * self.border()
    }

    /// Whether the frame fits the numbers that surfaces are measured in.
    pub open spec fn fits(self) -> bool {
        self.full_width() <= i32::MAX && self.full_height() <= i32::MAX && self.width >= 0
            && self.height >= 0
    }

    /// The border that is drawn.
    pub fn frame_border(&self) -> (width: i32)
        ensures
            width == self.border(),
    {
        frame_border_for(self.maximized, self.tiled, self.resizable)
    }

    /// The border that can be dragged.
    pub fn resize_border(&self) -> (width: i32)
        ensures
            width == self.grip(),
    {
        resize_border_for(self.maximized, self.resizable)
    }

    /// The width of the frame.
    pub fn frame_width(&self) -> (width: i32)
        requires
            self.fits(),
        ensures
            width == self.full_width(),
    {
        frame_width_for(self.width, self.maximized, self.tiled, self.resizable)
    }

    /// The height of the frame.
    pub fn frame_height(&self) -> (height: i32)
        requires
            self.fits(),
        ensures
            height == self.full_height(),
    {
        frame_height_for(
            self.height,
            self.maximized,
            self.tiled,
            self.resizable,
            self.draw_titlebar,
        )
    }

    /// The height of the title bar.
    pub fn titlebar_height(&self) -> (height: i32)
        ensures
            height == titlebar(self.draw_titlebar),
    {
        titlebar_height_for(self.draw_titlebar)
    }

    /// The strips around the window that take input on the frame surface.
    pub open spec fn frame_strips(self) -> Seq<Rect> {
        let inset = self.border() - self.grip();
        let offset = self.border();
        let visible_height = titlebar(self.draw_titlebar) + self.height;
        let hit_width = self.width + 2 * self.grip();
        if self.grip() > 0 && self.resize_input_enabled && self.full_width() > 0
            && self.full_height() > 0 {
            seq![
                Rect {
                    x: inset as i32,
                    y: inset as i32,
                    width: hit_width as i32,
                    height: self.grip() as i32,
                },
                Rect {
                    x: inset as i32,
                    y: offset as i32,
                    width: self.grip() as i32,
                    height: visible_height as i32,
                },
                Rect {
                    x: (offset + self.width) as i32,
                    y: offset as i32,
                    width: self.grip() as i32,
                    height: visible_height as i32,
                },
                Rect {
                    x: inset as i32,
                    y: (offset + visible_height) as i32,
                    width: hit_width as i32,
                    height: self.grip() as i32,
                },
            ]
        } else {
            Seq::empty()
        }
    }

    /// The part of the title bar that takes input.
    pub open spec fn titlebar_strip(self) -> Seq<Rect> {
        if self.draw_titlebar && self.full_width() > 0 && self.full_height() > 0 {
            seq![Rect { x: 0, y: 0, width: self.width, height: TITLEBAR_HEIGHT }]
        } else {
            Seq::empty()
        }
    }

    /// Works out where the decoration surfaces take input.
    pub fn input_regions(&self) -> (regions: InputRegions)
        requires
            self.fits(),
        ensures
            regions.frame@ == self.frame_strips(),
            regions.titlebar@ == self.titlebar_strip(),
    {
        let mut frame: Vec<Rect> = Vec::new();
        let mut titlebar_rects: Vec<Rect> = Vec::new();
        let frame_width: i32 = self.frame_width();
        let frame_height: i32 = self.frame_height();
        if frame_width <= 0 || frame_height <= 0 {
            return InputRegions { frame, titlebar: titlebar_rects };
        }
        let border: i32 = self.frame_border();
        let resize_border: i32 = self.resize_border();
        let titlebar_offset: i32 = titlebar_offset_for(self.maximized, self.tiled, self.resizable);
        let titlebar_height: i32 = self.titlebar_height();
        if resize_border > 0 && self.resize_input_enabled {
            let inset: i32 = border - resize_border;
            let visible_height: i32 = titlebar_height + self.height;
            let hit_width: i32 = self.width + resize_border * 2;
            frame.push(Rect { x: inset, y: inset, width: hit_width, height: resize_border });
            frame.push(
                Rect { x: inset, y: titlebar_offset, width: resize_border, height: visible_height },
            );
            frame.push(
                Rect {
                    x: titlebar_offset + self.width,
                    y: titlebar_offset,
                    width: resize_border,
                    height: visible_height,
                },
            );
            frame.push(
                Rect {
                    x: inset,
                    y: titlebar_offset + visible_height,
                    width: hit_width,
                    height: resize_border,
                },
            );
        }
        if self.draw_titlebar && titlebar_height > 0 {
            titlebar_rects.push(Rect { x: 0, y: 0, width: self.width, height: titlebar_height });
        }
        assert(frame@ =~= self.frame_strips());
        assert(titlebar_rects@ =~= self.titlebar_strip());
        InputRegions { frame, titlebar: titlebar_rects }
    }

    /// Where a position on one of the surfaces lies within the frame, in fixed point.
    pub fn surface_point_to_frame_point(&self, part: DecorationPart, surface_x: i32, surface_y: i32) -> (point: (
        i64,
        i64,
    ))
        ensures
            point.0 == surface_x + (if part is Titlebar {
                self.border() * FIXED_UNIT
            } else {
                0
            }),
            point.1 == surface_y + (if part is Titlebar {
                self.border() * FIXED_UNIT
            } else {
                0
            }),
    {
        match part {
            DecorationPart::Frame => (surface_x as i64, surface_y as i64),
            DecorationPart::Titlebar => {
                let border: i64 = self.frame_border() as i64 * FIXED_UNIT;
                (surface_x as i64 + border, surface_y as i64 + border)
            },
        }
    }

    /// Works out how the frame is drawn. `drawn_width` and `drawn_height` are its size in pixels.
    pub fn plan_frame(&self, drawn_width: i32, drawn_height: i32) -> (plan: FramePlan)
        requires
            self.fits(),
        ensures
            plan.x == -self.border(),
            plan.y == -(titlebar(self.draw_titlebar) + self.border()),
            plan.width == self.full_width(),
            plan.height == self.full_height(),
            plan.visible == (Rect {
                x: self.border() as i32,
                y: self.border() as i32,
                width: self.width,
                height: (titlebar(self.draw_titlebar) + self.height) as i32,
            }),
            plan.content == (if self.full_width() <= 0 || self.full_height() <= 0 || drawn_width <= 0
                || drawn_height <= 0 {
                None
            } else if self.maximized {
                Some(FrameContent::Empty)
            } else if self.tiled {
                Some(FrameContent::TiledRing)
            } else {
                Some(FrameContent::Ring { shadow: !self.resize_interaction_active })
            }),
    {
        let frame_border: i32 = self.frame_border();
        let titlebar_height: i32 = self.titlebar_height();
        let width: i32 = self.frame_width();
        let height: i32 = self.frame_height();
        let content = if width <= 0 || height <= 0 || drawn_width <= 0 || drawn_height <= 0 {
            None
        } else if self.maximized {
            Some(FrameContent::Empty)
        } else if self.tiled {
            Some(FrameContent::TiledRing)
        } else {
            Some(FrameContent::Ring { shadow: !self.resize_interaction_active })
        };
        FramePlan {
            x: -frame_border,
            y: -(titlebar_height + frame_border),
            width,
            height,
            visible: Rect {
                x: frame_border,
                y: frame_border,
                width: self.width,
                height: titlebar_height + self.height,
            },
            content,
        }
    }
}

/// Taking the grips and the title bar off a window's geometry gives back its contents.
pub proof fn law_content_size_inverts_window_geometry(
    width: i32,
    height: i32,
    maximized: bool,
    resizable: bool,
    draw_titlebar: bool,
)
    requires
        width >= 1,
        height >= 1,
    ensures
        at_least_one((width + 2 * grip(maximized, resizable)) - 2 * grip(maximized, resizable))
            == width,
        at_least_one(
            (titlebar(draw_titlebar) + height + 2 * grip(maximized, resizable)) - (titlebar(
                draw_titlebar,
            ) + 2 * grip(maximized, resizable)),
        ) == height,
{
}

/// The grip always lies within the border that is drawn.
pub proof fn law_grip_lies_within_the_border(maximized: bool, tiled: bool, resizable: bool)
    ensures
        0 <= grip(maximized, resizable) <= border(maximized, tiled, resizable),
{
}

/// A position that can be grabbed lies outside the window or on its outline.
pub proof fn law_edges_lie_around_the_window(
    width: int,
    height: int,
    frame_border: int,
    resize_border: int,
    x: int,
    y: int,
    allow_top: bool,
    allow_bottom: bool,
)
    requires
        frame_border * FIXED_UNIT < x < (width - frame_border) * FIXED_UNIT,
        frame_border * FIXED_UNIT < y < (height - frame_border) * FIXED_UNIT,
    ensures
        edge_at(width, height, frame_border, resize_border, x, y, allow_top, allow_bottom) is None,
{
}

/// The frame takes twelve units of grip where a window can be resized and is not maximized, sixteen
/// of shadow where it is neither maximized nor tiled, and twenty-five for a title bar.
pub proof fn law_what_the_frame_takes(
    maximized: bool,
    tiled: bool,
    resizable: bool,
    draw_titlebar: bool,
)
    ensures
        draw_titlebar ==> titlebar(draw_titlebar) == 25,
        !draw_titlebar ==> titlebar(draw_titlebar) == 0,
        resizable && !maximized ==> grip(maximized, resizable) == 12,
        !resizable || maximized ==> grip(maximized, resizable) == 0,
        !maximized && !tiled ==> border(maximized, tiled, resizable) == 16,
        maximized ==> border(maximized, tiled, resizable) == 0,
        tiled && !maximized && resizable ==> border(maximized, tiled, resizable) == 12,
        tiled && !resizable ==> border(maximized, tiled, resizable) == 0,
{
}

/// An edge is grabbed where its strip lies: the strips of the left and the top edge end where the
/// window starts, those of the right and the bottom edge start where it ends, and all are as wide
/// as the grip.
pub proof fn law_edges_are_grabbed_in_their_strips(
    width: int,
    height: int,
    frame_border: int,
    resize_border: int,
    x: int,
    y: int,
)
    requires
        0 < resize_border <= frame_border,
        2 * frame_border < width,
        2 * frame_border < height,
    ensures
        ({
            let left = (frame_border - resize_border) * 256 <= x <= frame_border * 256;
            let right = (width - frame_border) * 256 <= x <= (width - frame_border + resize_border)
                * 256;
            let top = (frame_border - resize_border) * 256 <= y <= frame_border * 256;
            let bottom = (height - frame_border) * 256 <= y <= (height - frame_border
                + resize_border) * 256;
            let edge = edge_at(width, height, frame_border, resize_border, x, y, true, true);
            &&& edge is Some <==> left || right || top || bottom
            &&& edge == Some(ResizeEdge::TopLeft) <==> left && top
            &&& edge == Some(ResizeEdge::TopRight) <==> right && top
            &&& edge == Some(ResizeEdge::BottomLeft) <==> left && bottom
            &&& edge == Some(ResizeEdge::BottomRight) <==> right && bottom
            &&& edge == Some(ResizeEdge::Left) <==> left && !top && !bottom
            &&& edge == Some(ResizeEdge::Right) <==> right && !top && !bottom
            &&& edge == Some(ResizeEdge::Top) <==> top && !left && !right
            &&& edge == Some(ResizeEdge::Bottom) <==> bottom && !left && !right
        }),
{
}

/// The strips that take input lie around the window and the title bar, one on each side, without
/// covering either; they take none where the window cannot be resized.
pub proof fn law_input_strips_lie_around(decorations: DecorationsDataSatellite, k: int)
    requires
        decorations.fits(),
        0 <= k < decorations.frame_strips().len(),
    ensures
        ({
            let strip = decorations.frame_strips()[k];
            let left = decorations.border();
            let top = decorations.border();
            let right = left + decorations.width;
            let bottom = top + titlebar(decorations.draw_titlebar) + decorations.height;
            &&& decorations.frame_strips().len() == 4
            &&& decorations.resize_input_enabled
            &&& strip.x + strip.width <= left || strip.x >= right || strip.y + strip.height <= top
                || strip.y >= bottom
            &&& left - decorations.grip() <= strip.x && strip.x + strip.width <= right
                + decorations.grip()
            &&& top - decorations.grip() <= strip.y && strip.y + strip.height <= bottom
                + decorations.grip()
            &&& k == 0 ==> strip.y + strip.height == top && strip.width == decorations.width + 2
                * decorations.grip()
            &&& k == 1 ==> strip.x + strip.width == left && strip.height == bottom - top
            &&& k == 2 ==> strip.x == right && strip.height == bottom - top
            &&& k == 3 ==> strip.y == bottom && strip.width == decorations.width + 2
                * decorations.grip()
        }),
        decorations.draw_titlebar ==> decorations.titlebar_strip().len() == 1
            && decorations.titlebar_strip()[0] == (Rect {
            x: 0,
            y: 0,
            width: decorations.width,
            height: 25,
        }),
        !decorations.draw_titlebar ==> decorations.titlebar_strip().len() == 0,
{
}

} // verus!
