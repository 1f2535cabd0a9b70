use std::hint::black_box;

use codex_quota::config::{AnchorEdge, AppConfigV1};
use codex_quota::fixed::{DIP, UNIT};
use codex_quota::layout::{
    anchored_destination, expanded_destination, lerp, point_in_rounded_rect,
    point_is_outside_rounded_rect, position_from_config, ExpansionAlignment, Point, Rect,
    COLLAPSED_DIP, BALL_RADIUS_DIP, PANEL_WIDTH_DIP, center, clamp_axis, dip_to_px, point_in_ball, px_to_dip,
};
use codex_quota::motion::{
    animation_sample, animation_shape_rect, PanelAnimation, COLLAPSE_ANIMATION_MILLIS, EXPAND_ANIMATION_MILLIS, ease_out_cubic, phase_at, Tween, LABEL_SWEEP_MILLIS, LABEL_TWEEN_MILLIS, SPIN_PERIOD_MILLIS, SWEEP_MILLIS, TWEEN_MILLIS,
};
use codex_quota::time::{Duration, Instant};
use codex_quota::snap::{
    duration_for, SnapAnimation, Velocity, MAX_SLIDE_MILLIS, MIN_SLIDE_MILLIS,
};

fn at(millis: u64) -> Instant {
    Instant { nanos: Duration::from_millis(millis).nanos }
}

fn after(start: Instant, millis: u64) -> Instant {
    start.checked_add(Duration::from_millis(millis)).unwrap()
}

fn rect(left: i32, top: i32, right: i32, bottom: i32) -> Rect {
    Rect { left, top, right, bottom }
}

#[test]
fn layout_expanding_animation_starts_with_only_ball_content_visible() {
    let sample = animation_sample(true, 0);
    assert!(
        sample.expansion == 0
            && sample.ball_opacity == UNIT
            && sample.panel_opacity == 0
            && !sample.finished
    );
}

#[test]
fn layout_expanding_animation_finishes_with_only_panel_content_visible() {
    let sample = animation_sample(true, UNIT);
    assert!(
        sample.expansion == UNIT
            && sample.ball_opacity == 0
            && sample.panel_opacity == UNIT
            && sample.finished
    );
}

#[test]
fn layout_collapsing_animation_finishes_with_only_ball_content_visible() {
    let sample = animation_sample(false, UNIT);
    assert!(
        sample.expansion == 0
            && sample.ball_opacity == UNIT
            && sample.panel_opacity == 0
            && sample.finished
    );
}

#[test]
fn layout_panel_width_interpolation_reaches_midpoint_at_half_expansion() {
    assert_eq!(lerp(COLLAPSED_DIP, PANEL_WIDTH_DIP, UNIT / 2), 172 * DIP);
}

#[test]
fn layout_collapsed_animation_shape_stays_inside_fixed_right_anchored_canvas() {
    let animation = PanelAnimation {
        started_at: Instant { nanos: 0 },
        duration: Duration::from_millis(COLLAPSE_ANIMATION_MILLIS),
        anchor_rect: rect(1_431, 407, 1_707, 555),
        work_area: rect(0, 0, 1_920, 1_040),
        canvas_destination: Point { x: 1_431, y: 407 },
        ball_center_screen: Point { x: 1_679, y: 435 },
        expanding: false,
    };
    let shape = animation_shape_rect(
        animation,
        0,
        96,
        308 * DIP,
        AnchorEdge::Right,
        ExpansionAlignment::Start,
    );
    assert_eq!(
        (shape.left, shape.top, shape.right, shape.bottom),
        (1_651, 407, 1_707, 463)
    );
}

#[test]
fn layout_rounded_hit_test_excludes_transparent_corner() {
    assert!(!point_in_rounded_rect(0, 0, 100, 50, 16));
    assert!(point_in_rounded_rect(16, 2, 100, 50, 16));
}

#[test]
fn layout_point_beyond_card_requests_outside_collapse() {
    assert!(point_is_outside_rounded_rect(
        Point { x: 300, y: 80 },
        rect(0, 0, 276, 148),
        16,
    ));
}

#[test]
fn layout_point_inside_card_does_not_request_outside_collapse() {
    assert!(!point_is_outside_rounded_rect(
        Point { x: 146, y: 74 },
        rect(0, 0, 276, 148),
        16,
    ));
}

#[test]
fn layout_placement_is_clamped_inside_work_area() {
    let mut config = AppConfigV1::default();
    config.placement.offset_dip = 50_000 * DIP;
    let point = position_from_config(&config, rect(0, 0, 1920, 1040), 56, 96);
    assert_eq!(point, Point { x: 1864, y: 984 });
}

#[test]
fn layout_right_anchored_expansion_preserves_outer_edge() {
    let (destination, alignment) = expanded_destination(
        rect(1800, 100, 1856, 156),
        AnchorEdge::Right,
        276,
        148,
        rect(0, 0, 1920, 1040),
    );
    assert_eq!(
        (destination, alignment),
        (Point { x: 1580, y: 100 }, ExpansionAlignment::Start)
    );
}

#[test]
fn layout_top_anchored_expansion_flips_left_when_right_side_does_not_fit() {
    let (destination, alignment) = expanded_destination(
        rect(1860, 0, 1916, 56),
        AnchorEdge::Top,
        276,
        148,
        rect(0, 0, 1920, 1040),
    );
    assert_eq!(
        (destination, alignment),
        (Point { x: 1640, y: 0 }, ExpansionAlignment::End)
    );
}

#[test]
fn layout_collapse_restores_far_edge_after_leftward_expansion() {
    let destination = anchored_destination(
        rect(1640, 0, 1916, 148),
        AnchorEdge::Top,
        56,
        56,
        rect(0, 0, 1920, 1040),
        ExpansionAlignment::End,
    );
    assert_eq!(destination, Point { x: 1860, y: 0 });
}

#[test]
fn expanded_animation_shape_follows_the_dynamic_panel_height() {
    let animation = PanelAnimation {
        started_at: Instant { nanos: 0 },
        duration: Duration::from_millis(EXPAND_ANIMATION_MILLIS),
        anchor_rect: rect(1_431, 407, 1_487, 463),
        work_area: rect(0, 0, 1_920, 1_040),
        canvas_destination: Point { x: 1_431, y: 407 },
        ball_center_screen: Point { x: 1_459, y: 435 },
        expanding: true,
    };
    let compact = animation_shape_rect(
        animation,
        UNIT,
        96,
        227 * DIP,
        AnchorEdge::Right,
        ExpansionAlignment::Start,
    );
    let tall = animation_shape_rect(
        animation,
        UNIT,
        96,
        281 * DIP,
        AnchorEdge::Right,
        ExpansionAlignment::Start,
    );

    assert_eq!(compact.bottom - compact.top, dip_to_px(227 * DIP, 96));
    assert_eq!(tall.bottom - tall.top, dip_to_px(281 * DIP, 96));
    assert_eq!(tall.right - tall.left, compact.right - compact.left);
}

#[test]
fn collapsed_ball_hit_test_matches_the_drawn_radius() {
    let radius = dip_to_px(BALL_RADIUS_DIP, 96);
    assert_eq!(radius, 27);
    assert!(point_in_ball(1, 28, 56, 56, radius));
    assert!(!point_in_ball(0, 28, 56, 56, radius));
    assert!(point_in_ball(0, 28, 56, 56, 56 / 2));
}

#[test]
fn ring_tween_starts_at_the_old_value_and_settles_on_the_new_one() {
    let start = at(1_000);
    let animation = Tween::new(420_000_000, 80_000_000, start);

    let first = animation.sample(start);
    assert!(first.fraction == 420_000_000 && !first.finished);

    let middle = animation.sample(after(start, TWEEN_MILLIS / 2));
    assert!(middle.fraction < 420_000_000 && middle.fraction > 80_000_000);

    let settled = animation.sample(after(start, TWEEN_MILLIS));
    assert!(settled.fraction == 80_000_000 && settled.finished);

    let late = animation.sample(after(start, 5_000));
    assert_eq!(late.fraction, 80_000_000);
}

#[test]
fn ring_sweep_fills_from_zero_over_the_longer_sweep_duration() {
    let start = at(1_000);
    let sweep = Tween::sweep(650_000_000, start);

    assert_eq!(sweep.sample(start).fraction, 0);
    assert!(!sweep.sample(after(start, SWEEP_MILLIS / 2)).finished);

    let settled = sweep.sample(after(start, SWEEP_MILLIS));
    assert!(settled.fraction == 650_000_000 && settled.finished);
    assert!(!sweep.sample(after(start, TWEEN_MILLIS)).finished);
}

#[test]
fn label_rolls_are_shorter_than_the_arc_motion_they_accompany() {
    assert!(black_box(LABEL_TWEEN_MILLIS) < black_box(TWEEN_MILLIS));
    assert!(black_box(LABEL_SWEEP_MILLIS) < black_box(SWEEP_MILLIS));
}

#[test]
fn ring_tween_eases_out_so_it_is_past_halfway_at_midpoint() {
    let start = at(1_000);
    let animation = Tween::new(0, UNIT, start);

    let middle = animation.sample(after(start, TWEEN_MILLIS / 2)).fraction;

    assert!(middle > UNIT / 2);
}

#[test]
fn ease_out_cubic_pins_both_ends_and_clamps_out_of_range_input() {
    assert_eq!(ease_out_cubic(0), 0);
    assert_eq!(ease_out_cubic(UNIT), UNIT);
    assert_eq!(ease_out_cubic(-UNIT), 0);
    assert_eq!(ease_out_cubic(2 * UNIT), UNIT);
}

const STILL: Velocity = Velocity { x: 0, y: 0 };

/// Whole hundredths of a pixel per millisecond.
fn speed(x: i128, y: i128) -> Velocity {
    Velocity { x: x * 10_000_000, y: y * 10_000_000 }
}

fn part(start: Instant, whole: Duration, numerator: u128, denominator: u128) -> Instant {
    Instant { nanos: start.nanos + whole.nanos * numerator / denominator }
}

#[test]
fn snap_animation_slides_from_the_release_point_to_the_edge() {
    let start = at(1_000);
    let from = Point { x: 400, y: 220 };
    let to = Point { x: 0, y: 200 };
    let animation = SnapAnimation::new(from, to, STILL, start);

    let begin = animation.sample(start);
    assert_eq!(begin.destination, from);
    assert!(!begin.finished);

    let middle = animation.sample(part(start, animation.duration, 1, 2));
    assert_eq!(middle.destination.x, 200);
    assert!(middle.destination.x > to.x && middle.destination.y > to.y);

    let end = animation.sample(part(start, animation.duration, 1, 1));
    assert_eq!(end.destination, to);
    assert!(end.finished);

    let late = animation.sample(part(start, animation.duration, 4, 1));
    assert_eq!(late.destination, to);
    assert!(late.finished);
}

#[test]
fn snap_starts_at_the_release_speed() {
    let start = at(1_000);
    let from = Point { x: 900, y: 400 };
    let to = Point { x: 0, y: 400 };
    let moving = SnapAnimation::new(from, to, speed(-150, 0), start);
    let still = SnapAnimation::new(from, to, STILL, start);

    let step = |animation: SnapAnimation| {
        let sample = animation.sample(after(start, 16));
        (from.x - sample.destination.x) as f32
    };
    let expected = 1.5 * 16.0;
    assert!((step(moving) - expected).abs() <= 3.0);
    assert!(step(moving) > step(still) * 2.0);
}

#[test]
fn snap_never_overshoots_the_edge() {
    let start = at(1_000);
    let from = Point { x: 900, y: 400 };
    let to = Point { x: 0, y: 400 };

    for velocity in [
        speed(-150, 0),
        speed(-2_000, 0),
        speed(-50_000, 0),
        speed(800, 0),
        speed(20_000, 0),
        speed(0, 4_000),
    ] {
        let animation = SnapAnimation::new(from, to, velocity, start);
        for step in 0..=40 {
            let sample = animation.sample(part(start, animation.duration, step, 40));
            assert!(sample.destination.x >= to.x && sample.destination.x <= from.x);
            assert_eq!(sample.destination.y, from.y);
        }
    }
}

#[test]
fn snap_animation_reports_a_noop_when_it_is_already_at_the_edge() {
    let start = at(1_000);
    let point = Point { x: 32, y: 64 };

    assert!(SnapAnimation::new(point, point, STILL, start).is_noop());
    assert!(!SnapAnimation::new(point, Point { x: 33, y: 64 }, STILL, start).is_noop());
}

#[test]
fn snap_duration_grows_with_distance_and_stops_at_a_cap() {
    let origin = Point { x: 0, y: 0 };
    let near = duration_for(origin, Point { x: 40, y: 0 });
    let middle = duration_for(origin, Point { x: 400, y: 0 });
    let far = duration_for(origin, Point { x: 900, y: 0 });
    let diagonal = duration_for(origin, Point { x: 900, y: 900 });

    assert!(near < middle && middle < far);
    assert!(near >= Duration::from_millis(MIN_SLIDE_MILLIS));
    assert_eq!(far, Duration::from_millis(MAX_SLIDE_MILLIS));
    assert_eq!(diagonal, Duration::from_millis(MAX_SLIDE_MILLIS));
    assert!(near < Duration::from_millis(130));
}

#[test]
fn long_snap_moves_less_than_a_tenth_in_its_first_frame() {
    let start = at(1_000);
    let from = Point { x: 900, y: 400 };
    let to = Point { x: 0, y: 400 };
    let animation = SnapAnimation::new(from, to, STILL, start);

    let first = animation.sample(after(start, 16));
    let travelled = (from.x - first.destination.x) as f32 / (from.x - to.x) as f32;
    assert!(travelled < 0.03);
    assert!(!first.finished);
}

#[test]
fn phase_at_keeps_its_precision_after_a_million_periods() {
    let start = at(1_000);
    let mut epoch = start;
    let period = Duration::from_millis(SPIN_PERIOD_MILLIS);
    let late = Instant { nanos: start.nanos + period.nanos * 1_000_000 + period.nanos / 4 };

    let phase = phase_at(&mut epoch, late, period);

    assert!(phase.nanos.abs_diff(period.nanos / 4) < Duration::from_micros(1).nanos);
    assert!(late.saturating_duration_since(epoch) < period);
}

#[test]
fn pixels_round_half_away_and_survive_the_way_back() {
    assert_eq!(dip_to_px(DIP / 2, 96), 1);
    assert_eq!(dip_to_px(-DIP / 2, 96), -1);
    assert_eq!(dip_to_px(56 * DIP, 144), 84);
    assert_eq!(dip_to_px(i64::MAX, u32::MAX), i32::MAX);
    assert_eq!(px_to_dip(84, 144), 56 * DIP);
    assert_eq!(px_to_dip(1, 144), 666_667);
    assert_eq!(px_to_dip(5, 0), 480 * DIP);
    for dpi in [96, 120, 144, 192, 240] {
        for px in [-1_000, -1, 0, 1, 333, 1_921] {
            assert_eq!(dip_to_px(px_to_dip(px, dpi), dpi), px);
        }
    }
}

#[test]
fn an_axis_that_does_not_fit_starts_with_the_work_area() {
    assert_eq!(clamp_axis(50, 200, 0, 100), 0);
    assert_eq!(clamp_axis(50, 100, 0, 100), 0);
    assert_eq!(clamp_axis(50, 40, 0, 100), 50);
    assert_eq!(clamp_axis(90, 40, 0, 100), 60);
    assert_eq!(clamp_axis(-90, 40, 0, 100), 0);
}

#[test]
fn docking_puts_the_ball_against_each_edge() {
    let work = rect(0, 0, 1920, 1040);
    let mut config = AppConfigV1::default();
    config.placement.offset_dip = 100 * DIP;
    for (edge, x, y) in [
        (AnchorEdge::Left, 0, 100),
        (AnchorEdge::Right, 1864, 100),
        (AnchorEdge::Top, 100, 0),
        (AnchorEdge::Bottom, 100, 984),
    ] {
        config.placement.edge = edge;
        assert_eq!(position_from_config(&config, work, 56, 96), Point { x, y });
    }
    config.placement.offset_dip = -5 * DIP;
    assert_eq!(position_from_config(&config, work, 56, 96), Point { x: 0, y: 984 });
}

#[test]
fn collapsing_brings_the_ball_back_from_both_ends() {
    let work = rect(0, 0, 1920, 1040);
    for (ball, edge) in [
        (rect(1864, 100, 1920, 156), AnchorEdge::Right),
        (rect(1864, 980, 1920, 1036), AnchorEdge::Right),
        (rect(0, 980, 56, 1036), AnchorEdge::Left),
        (rect(1860, 0, 1916, 56), AnchorEdge::Top),
        (rect(30, 984, 86, 1040), AnchorEdge::Bottom),
    ] {
        let (at, alignment) = expanded_destination(ball, edge, 288, 227, work);
        let panel = rect(at.x, at.y, at.x + 288, at.y + 227);
        let back = anchored_destination(panel, edge, 56, 56, work, alignment);
        assert_eq!(back, Point { x: ball.left, y: ball.top });
    }
}

#[test]
fn centers_round_towards_the_corner() {
    assert_eq!(center(rect(10, 20, 21, 25)), Point { x: 15, y: 22 });
    assert_eq!(center(rect(-11, 0, 0, 0)), Point { x: -6, y: 0 });
}

#[test]
fn a_slide_keeps_a_safe_speed_and_never_turns_back() {
    let start = at(1_000);
    let from = Point { x: 900, y: 100 };
    let to = Point { x: 0, y: 130 };
    // 350 ms for 900 pixels allow for up to 7.714 px/ms.
    let slide = |x, y| SnapAnimation::new(from, to, speed(x, y), start);
    assert_eq!(slide(-150, 0).velocity, speed(-150, 0));
    assert_eq!(slide(150, 0).velocity, STILL);
    assert_eq!(slide(-2_000, 0).velocity.x, -7_714_285_714);

    for animation in [slide(-150, 10), slide(-2_000, -5), slide(800, 5_000)] {
        let mut previous = from;
        for step in 0..=100 {
            let here = animation.sample(part(start, animation.duration, step, 100)).destination;
            assert!(here.x <= previous.x && here.y >= previous.y, "{previous:?} {here:?}");
            previous = here;
        }
        assert_eq!(previous, to);
    }
}
