use xwayland_satellite::decoration::{
    decorations_height, DecorationAction, DecorationButtonKind, DecorationPart,
    DecorationsDataSatellite, TITLEBAR_HEIGHT,
};
use xwayland_satellite::frame::{
    content_size_for_window_geometry, frame_border_for, frame_height_for, frame_width_for,
    geometry_border_for, resize_border_for, resize_edge_for_frame_rect, shadow_border_for,
    titlebar_height_for, titlebar_offset_for, window_geometry_for, FrameContent, Rect,
};
use xwayland_satellite::geometry::{
    requested_dims_from_mask, truncate_i16, ConfigWindowMask, WindowDims,
};
use xwayland_satellite::resize::{
    cursor_shape_for_edge, infer_resize_direction, merge_resize_directions,
    resize_axes_for_direction, resize_direction_from_axes, resize_direction_from_edge,
    resize_edge_from_direction, CursorShape, MoveResizeDirection, ResizeAxis, ResizeEdge,
};
use xwayland_satellite::role::ToplevelCapabilities;
use xwayland_satellite::shadow::{
    blur_alpha, box_blur_alpha_horizontal, box_blur_alpha_vertical,
    composite_premultiplied_with_coverage, composite_shadow_alpha, draw_pixmap_to_buffer, Pixel,
};
use xwayland_satellite::titlebar::{button_action, button_total_width, DrawDecision};

/// A position in the fixed point numbers that pointers move in.
fn fixed(position: f64) -> i64 {
    (position * 256.0) as i64
}

fn shown(width: i32, height: i32) -> DecorationsDataSatellite {
    let mut decorations = DecorationsDataSatellite::new(true, true, true);
    assert_eq!(
        decorations.draw_decorations(width, height),
        DrawDecision::Redraw { callback: None }
    );
    decorations.plan_titlebar(width, 25, 24).unwrap();
    decorations
}

fn dims(x: i16, y: i16, width: u16, height: u16) -> WindowDims {
    WindowDims {
        x,
        y,
        width,
        height,
    }
}

const DIRECTIONS: [(MoveResizeDirection, ResizeEdge); 8] = [
    (MoveResizeDirection::SizeTopLeft, ResizeEdge::TopLeft),
    (MoveResizeDirection::SizeTop, ResizeEdge::Top),
    (MoveResizeDirection::SizeTopRight, ResizeEdge::TopRight),
    (MoveResizeDirection::SizeRight, ResizeEdge::Right),
    (MoveResizeDirection::SizeBottomRight, ResizeEdge::BottomRight),
    (MoveResizeDirection::SizeBottom, ResizeEdge::Bottom),
    (MoveResizeDirection::SizeBottomLeft, ResizeEdge::BottomLeft),
    (MoveResizeDirection::SizeLeft, ResizeEdge::Left),
];

#[test]
fn directions_and_edges_name_each_other() {
    for (direction, edge) in DIRECTIONS {
        assert!(direction.is_edge_resize());
        assert_eq!(resize_edge_from_direction(direction), edge);
        assert_eq!(resize_direction_from_edge(edge), direction);
        let (horizontal, vertical) = resize_axes_for_direction(direction);
        assert_eq!(
            resize_direction_from_axes(horizontal, vertical),
            Some(direction)
        );
        assert_eq!(
            merge_resize_directions(direction, direction),
            Some(direction)
        );
        for (other, _) in DIRECTIONS {
            assert_eq!(
                merge_resize_directions(direction, other),
                merge_resize_directions(other, direction)
            );
        }
    }
    assert!(!MoveResizeDirection::Move.is_edge_resize());
    assert!(!MoveResizeDirection::Cancel.is_edge_resize());
    assert_eq!(resize_direction_from_axes(None, None), None);
    assert_eq!(
        resize_axes_for_direction(MoveResizeDirection::SizeTopRight),
        (Some(ResizeAxis::End), Some(ResizeAxis::Start))
    );
}

#[test]
fn resizes_are_merged_unless_they_contradict() {
    assert_eq!(
        merge_resize_directions(MoveResizeDirection::SizeTop, MoveResizeDirection::SizeLeft),
        Some(MoveResizeDirection::SizeTopLeft)
    );
    assert_eq!(
        merge_resize_directions(MoveResizeDirection::SizeBottomRight, MoveResizeDirection::SizeRight),
        Some(MoveResizeDirection::SizeBottomRight)
    );
    assert_eq!(merge_resize_directions(MoveResizeDirection::SizeTop, MoveResizeDirection::SizeBottom), None);
    assert_eq!(
        merge_resize_directions(MoveResizeDirection::SizeTopLeft, MoveResizeDirection::SizeTopRight),
        None
    );
}

#[test]
fn directions_are_inferred_from_the_edges_that_moved() {
    let from = dims(10, 20, 100, 200);
    let infer = |to| infer_resize_direction(from, to);
    assert_eq!(
        infer(dims(10, 20, 110, 200)),
        Some(MoveResizeDirection::SizeRight)
    );
    assert_eq!(
        infer(dims(0, 10, 110, 210)),
        Some(MoveResizeDirection::SizeTopLeft)
    );
    assert_eq!(
        infer(dims(10, 20, 90, 190)),
        Some(MoveResizeDirection::SizeBottomRight)
    );
    // A move, nothing at all, and both edges of an axis.
    assert_eq!(infer(dims(11, 20, 100, 200)), None);
    assert_eq!(infer(from), None);
    assert_eq!(infer(dims(5, 20, 110, 200)), None);
}

#[test]
fn edges_have_cursors() {
    assert_eq!(
        cursor_shape_for_edge(ResizeEdge::Top),
        CursorShape::NsResize
    );
    assert_eq!(
        cursor_shape_for_edge(ResizeEdge::Left),
        CursorShape::EwResize
    );
    assert_eq!(
        cursor_shape_for_edge(ResizeEdge::TopRight),
        CursorShape::NeswResize
    );
    assert_eq!(
        cursor_shape_for_edge(ResizeEdge::BottomRight),
        CursorShape::NwseResize
    );
}

#[test]
fn requests_fill_in_what_they_do_not_mention() {
    let current = dims(1, 2, 3, 4);
    let wanted = dims(10, 20, 30, 40);
    let mask = ConfigWindowMask {
        x: true,
        y: false,
        width: false,
        height: true,
    };
    let requested = requested_dims_from_mask(current, wanted, mask);
    assert_eq!(requested, dims(10, 2, 3, 40));
    assert_eq!(
        requested_dims_from_mask(requested, wanted, mask),
        requested
    );
    assert_eq!(truncate_i16(0x1_8000), i16::MIN);
    assert_eq!(truncate_i16(-1), -1);
}

#[test]
fn borders_of_frames() {
    assert_eq!(resize_border_for(false, true), 12);
    assert_eq!(resize_border_for(true, true), 0);
    assert_eq!(geometry_border_for(false, false), 0);
    assert_eq!(shadow_border_for(false, false), 16);
    assert_eq!(shadow_border_for(false, true), 0);
    assert_eq!(frame_border_for(false, false, true), 16);
    assert_eq!(frame_border_for(false, true, true), 12);
    assert_eq!(frame_border_for(true, false, true), 0);
    assert_eq!(titlebar_offset_for(false, true, false), 0);
    assert_eq!(titlebar_height_for(true), 25);
    assert_eq!(titlebar_height_for(false), 0);
    assert_eq!(frame_width_for(100, false, false, false), 132);
    assert_eq!(frame_height_for(100, false, true, true, true), 149);
}

#[test]
fn geometry_and_contents() {
    assert_eq!(
        window_geometry_for(100, 75, false, true, true),
        (-12, -37, 124, 124)
    );
    assert_eq!(
        content_size_for_window_geometry(124, 124, false, true, true),
        (100, 75)
    );
    assert_eq!(
        content_size_for_window_geometry(10, 10, false, true, true),
        (1, 1)
    );
    assert_eq!(window_geometry_for(5, 6, true, true, false), (0, 0, 5, 6));
}

#[test]
fn edges_of_a_frame() {
    let edge = |x: f64, y: f64| {
        resize_edge_for_frame_rect(132, 132, 16, 12, fixed(x), fixed(y), true, true)
    };
    assert_eq!(edge(4.0, 4.0), Some(ResizeEdge::TopLeft));
    assert_eq!(edge(3.9, 50.0), None);
    assert_eq!(edge(16.0, 50.0), Some(ResizeEdge::Left));
    assert_eq!(edge(16.1, 50.0), None);
    assert_eq!(edge(116.0, 50.0), Some(ResizeEdge::Right));
    assert_eq!(edge(128.0, 128.0), Some(ResizeEdge::BottomRight));
    assert_eq!(edge(128.1, 50.0), None);
    assert_eq!(edge(60.0, 10.0), Some(ResizeEdge::Top));
    assert_eq!(edge(60.0, 60.0), None);
    // No top where it is not allowed, and nothing without grips.
    assert_eq!(
        resize_edge_for_frame_rect(132, 132, 16, 12, fixed(60.0), fixed(10.0), false, true),
        None
    );
    assert_eq!(
        resize_edge_for_frame_rect(132, 132, 16, 0, fixed(16.0), fixed(50.0), true, true),
        None
    );
    // A frame so narrow that both sides are meant.
    assert_eq!(
        resize_edge_for_frame_rect(24, 132, 16, 12, fixed(12.0), fixed(60.0), true, true),
        None
    );
}

#[test]
fn input_is_taken_on_the_grips_and_the_title_bar() {
    let decorations = shown(100, 75);
    let rect = |x, y, width, height| Rect {
        x,
        y,
        width,
        height,
    };
    let regions = decorations.input_regions();
    assert_eq!(
        regions.frame,
        vec![
            rect(4, 4, 124, 12),
            rect(4, 16, 12, 100),
            rect(116, 16, 12, 100),
            rect(4, 116, 124, 12),
        ]
    );
    assert_eq!(regions.titlebar, vec![rect(0, 0, 100, 25)]);

    let mut decorations = decorations;
    assert!(decorations.set_resize_input_enabled(false));
    assert!(!decorations.set_resize_input_enabled(false));
    assert!(decorations.input_regions().frame.is_empty());
}

#[test]
fn frames_are_drawn_around_windows() {
    let mut decorations = shown(100, 75);
    let plan = decorations.plan_frame(132, 132);
    assert_eq!((plan.x, plan.y), (-16, -41));
    assert_eq!((plan.width, plan.height), (132, 132));
    assert_eq!(plan.content, Some(FrameContent::Ring { shadow: true }));
    decorations.set_resize_interaction_active(true);
    assert_eq!(
        decorations.plan_frame(132, 132).content,
        Some(FrameContent::Ring { shadow: false })
    );
    decorations.set_tiled(true);
    assert_eq!(
        decorations.plan_frame(132, 132).content,
        Some(FrameContent::TiledRing)
    );
    assert!(decorations.set_maximized(true));
    assert!(!decorations.set_maximized(true));
    assert_eq!(
        decorations.plan_frame(132, 132).content,
        Some(FrameContent::Empty)
    );
    assert_eq!(decorations.plan_frame(0, 0).content, None);
    assert_eq!(decorations_height(&Some(decorations)), TITLEBAR_HEIGHT);
    assert_eq!(decorations_height(&None), 0);
}

#[test]
fn buttons_are_laid_out_from_the_right() {
    let mut decorations = shown(300, 75);
    assert_eq!(button_total_width(0), 0);
    assert_eq!(button_total_width(1), 35);
    assert_eq!(button_total_width(3), 115);
    let buttons = decorations.buttons;
    assert_eq!(buttons.minimize.left, fixed(185.0));
    assert_eq!(buttons.maximize.left, fixed(225.0));
    assert_eq!(buttons.close.left, fixed(265.0));
    assert_eq!(buttons.close.right, fixed(289.0));
    assert_eq!(buttons.close.top, fixed(0.5));
    assert_eq!(buttons.close.bottom, fixed(24.5));
    // The edges between two buttons belong to neither.
    for x in 0..300 {
        let on = [buttons.minimize, buttons.maximize, buttons.close]
            .iter()
            .filter(|button| button.contains(fixed(x as f64), fixed(12.0)))
            .count();
        assert!(on <= 1);
    }

    let close_only = ToplevelCapabilities {
        maximize: false,
        minimize: false,
    };
    assert!(decorations.set_capabilities(close_only));
    assert!(!decorations.set_capabilities(close_only));
    let plan = decorations.plan_titlebar(300, 25, 24).unwrap();
    assert_eq!(plan.title_side_reservation, 35);
    assert_eq!(plan.title_width, 230);
    assert_eq!(plan.title_x(300, 100), 100);
    assert_eq!(plan.title_x(300, 400), 35);
    assert_eq!(decorations.buttons.close.left, fixed(265.0));
    assert_eq!(decorations.buttons.maximize.right, 0);
    assert_eq!(decorations.plan_titlebar(50, 25, 24).unwrap().title_width, 0);
}

/// The position of the middle of the closing button, on the title bar's surface.
const CLOSE: (i32, i32) = (277 * 256, 12 * 256);

#[test]
fn buttons_act_when_let_go() {
    let mut decorations = shown(300, 75);
    let titlebar = DecorationPart::Titlebar;
    let (motion, input_changed) =
        decorations.handle_surface_motion(titlebar, CLOSE.0, CLOSE.1, true, true);
    assert!(motion.buttons_changed);
    assert!(!input_changed);
    assert_eq!(motion.edge, None);
    assert_eq!(
        decorations.buttons.hovered_action(decorations.capabilities),
        Some(DecorationAction::Close)
    );
    assert_eq!(decorations.handle_press(), (None, true));
    assert!(decorations.buttons.close.active);
    assert_eq!(
        decorations.handle_release(),
        (Some(DecorationAction::Close), true)
    );
    assert_eq!(decorations.handle_release(), (None, false));
}

#[test]
fn a_button_left_does_nothing() {
    let mut decorations = shown(300, 75);
    let titlebar = DecorationPart::Titlebar;
    decorations.handle_surface_motion(titlebar, CLOSE.0, CLOSE.1, true, true);
    decorations.handle_press();
    decorations.handle_surface_motion(titlebar, 100 * 256, CLOSE.1, true, true);
    assert!(!decorations.buttons.close.active);
    // The press is not forgotten: back on the button it looks pressed again.
    decorations.handle_surface_motion(titlebar, CLOSE.0, CLOSE.1, true, true);
    assert!(decorations.buttons.close.active);
    decorations.handle_surface_motion(titlebar, 100 * 256, CLOSE.1, true, true);
    assert_eq!(decorations.handle_release(), (None, false));
}

#[test]
fn presses_elsewhere_move_or_resize() {
    let mut decorations = shown(300, 75);
    decorations.handle_surface_motion(DecorationPart::Titlebar, 100 * 256, 12 * 256, true, true);
    assert_eq!(
        decorations.handle_press(),
        (Some(DecorationAction::Move), false)
    );
    let (motion, _) =
        decorations.handle_surface_motion(DecorationPart::Frame, 10 * 256, 60 * 256, true, true);
    assert_eq!(motion.edge, Some(ResizeEdge::Left));
    assert_eq!(
        decorations.handle_press(),
        (Some(DecorationAction::Resize(ResizeEdge::Left)), false)
    );
    let (motion, input_changed) =
        decorations.handle_surface_motion(DecorationPart::Frame, 10 * 256, 60 * 256, true, false);
    assert_eq!(motion.edge, None);
    assert!(input_changed);
}

#[test]
fn leaving_lets_go() {
    let mut decorations = shown(300, 75);
    decorations.handle_surface_motion(DecorationPart::Titlebar, CLOSE.0, CLOSE.1, true, true);
    decorations.handle_press();
    assert!(decorations.handle_leave());
    assert!(!decorations.handle_leave());
    assert_eq!(decorations.pressed_button, None);
    assert_eq!(
        decorations.buttons.hovered_kind(decorations.capabilities),
        None
    );
    decorations.set_focused(true);
    decorations.handle_surface_motion(DecorationPart::Titlebar, CLOSE.0, CLOSE.1, true, true);
    decorations.set_focused(false);
    assert!(!decorations.buttons.close.hovered);
    assert_eq!(
        button_action(DecorationButtonKind::Maximize),
        DecorationAction::ToggleMaximized
    );
}

#[test]
fn resizing_draws_once_per_frame() {
    let mut decorations = shown(100, 75);
    decorations.set_resize_interaction_active(true);
    assert_eq!(
        decorations.draw_decorations(110, 75),
        DrawDecision::Redraw { callback: Some(1) }
    );
    assert_eq!(decorations.draw_decorations(120, 75), DrawDecision::Nothing);
    assert_eq!(decorations.width, 120);
    // A callback that nobody waits for.
    let outcome = decorations.handle_animation_frame(7, true);
    assert_eq!(outcome.draw, DrawDecision::Nothing);
    assert!(!outcome.tick);
    // The one that was asked for draws what was put off, and asks for another.
    let outcome = decorations.handle_animation_frame(1, true);
    assert_eq!(outcome.draw, DrawDecision::Redraw { callback: Some(2) });
    assert!(!outcome.tick);
    let outcome = decorations.handle_animation_frame(2, true);
    assert_eq!(outcome.draw, DrawDecision::Nothing);
    decorations.set_resize_interaction_active(false);
    assert_eq!(
        decorations.draw_decorations(120, 75),
        DrawDecision::Redraw { callback: None }
    );
}

#[test]
fn animations_ask_for_one_frame_at_a_time() {
    let mut decorations = shown(100, 75);
    assert_eq!(decorations.request_animation_frame(false), None);
    assert_eq!(decorations.request_animation_frame(true), Some(1));
    assert_eq!(decorations.request_animation_frame(true), None);
    let outcome = decorations.handle_animation_frame(1, true);
    assert!(outcome.tick);
    assert_eq!(decorations.request_animation_frame(true), Some(2));
    assert!(!decorations.handle_animation_frame(2, false).tick);
}

#[test]
fn full_screen_windows_are_not_decorated() {
    let mut decorations = shown(100, 75);
    decorations.handle_fullscreen(true);
    assert_eq!(
        decorations.draw_decorations(100, 75),
        DrawDecision::RemoveBuffers
    );
    assert_eq!(decorations.draw_decorations(100, 75), DrawDecision::Nothing);
    decorations.handle_fullscreen(false);
    assert_eq!(
        decorations.draw_decorations(100, 75),
        DrawDecision::Redraw { callback: None }
    );
    assert_eq!(decorations.draw_decorations(0, 75), DrawDecision::Nothing);
}

#[test]
fn outlines_are_blurred() {
    let src = vec![0, 0, 90, 0, 0];
    let mut dst = vec![7; 5];
    box_blur_alpha_horizontal(&src, &mut dst, 5, 1, 1);
    assert_eq!(dst, vec![0, 30, 30, 30, 0]);
    box_blur_alpha_vertical(&src, &mut dst, 1, 5, 1);
    assert_eq!(dst, vec![0, 30, 30, 30, 0]);
    // A column is not a row: there is nothing above or below.
    box_blur_alpha_vertical(&src, &mut dst, 5, 1, 1);
    assert_eq!(dst, vec![0, 0, 30, 0, 0]);
    box_blur_alpha_horizontal(&src, &mut dst, 5, 1, 0);
    assert_eq!(dst, src);
    // The edges take in less, but are divided by as much.
    let mut dst = vec![0; 4];
    box_blur_alpha_horizontal(&vec![50; 4], &mut dst, 2, 2, 9);
    assert_eq!(dst, vec![5, 5, 5, 5]);
    let mut dst = vec![0; 3];
    box_blur_alpha_horizontal(&vec![255; 3], &mut dst, 3, 1, 1);
    assert_eq!(dst, vec![170, 255, 170]);
    box_blur_alpha_vertical(&vec![255; 3], &mut dst, 1, 3, 1);
    assert_eq!(dst, vec![170, 255, 170]);

    let mut alpha = vec![255; 9];
    blur_alpha(&mut alpha, 3, 3, 1);
    assert!(alpha.iter().all(|value| *value < 255));
    assert_eq!(alpha[0], alpha[8]);
    assert!(alpha[4] > alpha[0]);
    let mut alpha = vec![1, 2, 3, 4];
    blur_alpha(&mut alpha, 2, 2, 0);
    assert_eq!(alpha, vec![1, 2, 3, 4]);
}

#[test]
fn a_short_line_takes_any_blur() {
    let src = vec![65535; 4];
    let mut dst = vec![7; 4];
    // All four values, divided by a window of 80001.
    box_blur_alpha_horizontal(&src, &mut dst, 4, 1, 40000);
    assert_eq!(dst, vec![3, 3, 3, 3]);
    box_blur_alpha_vertical(&src, &mut dst, 1, 4, 40000);
    assert_eq!(dst, vec![3, 3, 3, 3]);
    let mut alpha = vec![65535; 4];
    blur_alpha(&mut alpha, 2, 2, 40000);
    assert_eq!(alpha, vec![0, 0, 0, 0]);
    box_blur_alpha_horizontal(&src, &mut dst, 4, 1, 2147483647);
    assert_eq!(dst, vec![0, 0, 0, 0]);

    // The longest line whose sums fit with any blur, at its brightest.
    let src = vec![65535; 65537];
    let mut dst = vec![0; 65537];
    box_blur_alpha_horizontal(&src, &mut dst, 65537, 1, 65537);
    assert!(dst.iter().all(|value| *value == 32767));
    box_blur_alpha_vertical(&src, &mut dst, 1, 65537, 32768);
    assert_eq!(dst[32768], 65535);
    assert_eq!(dst[0], 32767);
}

const BLACK: Pixel = Pixel {
    red: 0,
    green: 0,
    blue: 0,
    alpha: 255,
};

fn gray(value: u8, alpha: u8) -> Pixel {
    Pixel {
        red: value,
        green: value,
        blue: value,
        alpha,
    }
}

#[test]
fn colours_are_laid_over_pixels() {
    let laid = |mut pixel: Pixel, color, coverage| {
        composite_premultiplied_with_coverage(&mut pixel, color, coverage);
        pixel
    };
    let white = gray(255, 255);
    assert_eq!(laid(white, BLACK, 0), white);
    assert_eq!(laid(white, BLACK, 255), BLACK);
    assert_eq!(laid(white, BLACK, 51), gray(204, 255));
    assert_eq!(laid(gray(0, 0), gray(0, 128), 128), gray(0, 64));
    // What is no colour at all leaves nothing.
    assert_eq!(laid(gray(0, 0), gray(200, 100), 255), gray(0, 0));
}

#[test]
fn shadows_are_laid_under_windows() {
    let mut pixels = vec![gray(0, 0), gray(255, 255), gray(9, 10)];
    composite_shadow_alpha(&mut pixels, &vec![255, 0], gray(0, 128));
    assert_eq!(pixels, vec![gray(0, 128), gray(255, 255), gray(9, 10)]);
    composite_shadow_alpha(&mut pixels, &vec![255, 255], gray(0, 0));
    assert_eq!(pixels, vec![gray(0, 128), gray(255, 255), gray(9, 10)]);
}

#[test]
fn buffers_hold_blue_first() {
    let pixel = Pixel {
        red: 1,
        green: 2,
        blue: 3,
        alpha: 4,
    };
    let mut buffer = vec![9; 10];
    draw_pixmap_to_buffer(&vec![pixel], &mut buffer);
    assert_eq!(buffer, vec![3, 2, 1, 4, 9, 9, 9, 9, 9, 9]);
    draw_pixmap_to_buffer(&vec![pixel; 5], &mut buffer);
    assert_eq!(buffer, vec![3, 2, 1, 4, 3, 2, 1, 4, 9, 9]);
}
