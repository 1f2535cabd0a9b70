use codex_quota::config::{AnchorEdge, AppConfigV1};
use codex_quota::fixed::{DIP, UNIT};
use codex_quota::layout::{
    anchored_destination, expanded_destination, lerp, point_in_rounded_rect,
    point_is_outside_rounded_rect, position_from_config, ExpansionAlignment, Point, Rect,
    COLLAPSED_DIP,
};
use codex_quota::motion::{
    animation_sample, animation_shape_rect, PanelAnimation, COLLAPSE_ANIMATION_MILLIS,
};
use codex_quota::time::{Duration, Instant};
use codex_quota::commands::{
    CMD_EXIT, CMD_REFRESH_10_MIN, CMD_REFRESH_1_MIN, CMD_REFRESH_30_MIN, CMD_REFRESH_5_MIN,
    WM_LBUTTONDOWN, WM_LBUTTONUP, WM_MBUTTONDOWN, WM_MOUSEMOVE, WM_RBUTTONDOWN, WM_RBUTTONUP,
    WM_XBUTTONDOWN,
};
use codex_quota::interaction::is_mouse_button_down;
use codex_quota::tray::{
    is_tray_context_event, panel_is_persistent, refresh_interval_for_command,
    should_suppress_tray_reopen, tray_event_action, TrayEventAction,
};

fn rect(left: i32, top: i32, right: i32, bottom: i32) -> Rect {
    Rect { left, top, right, bottom }
}

#[test]
fn mod_expanding_animation_starts_with_only_ball_content_visible() {
    let sample = animation_sample(true, 0);
    assert!(
        sample.expansion == 0
            && sample.ball_opacity == UNIT
            && sample.panel_opacity == 0
            && !sample.finished
    );
}

#[test]
fn mod_expanding_animation_finishes_with_only_panel_content_visible() {
    let sample = animation_sample(true, UNIT);
    assert!(
        sample.expansion == UNIT
            && sample.ball_opacity == 0
            && sample.panel_opacity == UNIT
            && sample.finished
    );
}

#[test]
fn mod_collapsing_animation_finishes_with_only_ball_content_visible() {
    let sample = animation_sample(false, UNIT);
    assert!(
        sample.expansion == 0
            && sample.ball_opacity == UNIT
            && sample.panel_opacity == 0
            && sample.finished
    );
}

#[test]
fn mod_panel_width_interpolation_reaches_midpoint_at_half_expansion() {
    assert_eq!(lerp(COLLAPSED_DIP, 276 * DIP, UNIT / 2), 166 * DIP);
}

#[test]
fn mod_collapsed_animation_shape_stays_inside_fixed_right_anchored_canvas() {
    let animation = PanelAnimation {
        started_at: Instant { nanos: 0 },
        duration: Duration::from_millis(COLLAPSE_ANIMATION_MILLIS),
        anchor_rect: rect(1_431, 407, 1_707, 555),
        work_area: rect(0, 0, 1_920, 1_040),
        canvas_destination: Point { x: 1_431, y: 407 },
        ball_center_screen: Point { x: 1_679, y: 435 },
        expanding: false,
    };
    let shape = animation_shape_rect(
        animation,
        0,
        96,
        148 * DIP,
        AnchorEdge::Right,
        ExpansionAlignment::Start,
    );
    assert_eq!(
        (shape.left, shape.top, shape.right, shape.bottom),
        (1_651, 407, 1_707, 463)
    );
}

#[test]
fn mod_rounded_hit_test_excludes_transparent_corner() {
    assert!(!point_in_rounded_rect(0, 0, 100, 50, 16));
    assert!(point_in_rounded_rect(16, 2, 100, 50, 16));
}

#[test]
fn mod_point_beyond_card_requests_outside_collapse() {
    assert!(point_is_outside_rounded_rect(
        Point { x: 300, y: 80 },
        rect(0, 0, 276, 148),
        16,
    ));
}

#[test]
fn mod_point_inside_card_does_not_request_outside_collapse() {
    assert!(!point_is_outside_rounded_rect(
        Point { x: 146, y: 74 },
        rect(0, 0, 276, 148),
        16,
    ));
}

#[test]
fn mod_placement_is_clamped_inside_work_area() {
    let mut config = AppConfigV1::default();
    config.placement.offset_dip = 50_000 * DIP;
    let point = position_from_config(&config, rect(0, 0, 1920, 1040), 56, 96);
    assert_eq!(point, Point { x: 1864, y: 984 });
}

#[test]
fn mod_right_anchored_expansion_preserves_outer_edge() {
    let (destination, alignment) = expanded_destination(
        rect(1800, 100, 1856, 156),
        AnchorEdge::Right,
        276,
        148,
        rect(0, 0, 1920, 1040),
    );
    assert_eq!(
        (destination, alignment),
        (Point { x: 1580, y: 100 }, ExpansionAlignment::Start)
    );
}

#[test]
fn mod_top_anchored_expansion_flips_left_when_right_side_does_not_fit() {
    let (destination, alignment) = expanded_destination(
        rect(1860, 0, 1916, 56),
        AnchorEdge::Top,
        276,
        148,
        rect(0, 0, 1920, 1040),
    );
    assert_eq!(
        (destination, alignment),
        (Point { x: 1640, y: 0 }, ExpansionAlignment::End)
    );
}

#[test]
fn mod_collapse_restores_far_edge_after_leftward_expansion() {
    let destination = anchored_destination(
        rect(1640, 0, 1916, 148),
        AnchorEdge::Top,
        56,
        56,
        rect(0, 0, 1920, 1040),
        ExpansionAlignment::End,
    );
    assert_eq!(destination, Point { x: 1860, y: 0 });
}

#[test]
fn mod_tray_refresh_commands_map_to_expected_intervals() {
    assert_eq!(
        refresh_interval_for_command(CMD_REFRESH_1_MIN),
        Some(Duration::from_secs(60))
    );
    assert_eq!(
        refresh_interval_for_command(CMD_REFRESH_5_MIN),
        Some(Duration::from_secs(5 * 60))
    );
    assert_eq!(
        refresh_interval_for_command(CMD_REFRESH_10_MIN),
        Some(Duration::from_secs(10 * 60))
    );
    assert_eq!(
        refresh_interval_for_command(CMD_REFRESH_30_MIN),
        Some(Duration::from_secs(30 * 60))
    );
    assert_eq!(refresh_interval_for_command(CMD_EXIT), None);
}

#[test]
fn mod_mouse_button_filter_accepts_only_button_down_events() {
    assert!(
        [
            WM_LBUTTONDOWN,
            WM_MBUTTONDOWN,
            WM_RBUTTONDOWN,
            WM_XBUTTONDOWN
        ]
        .into_iter()
        .all(is_mouse_button_down)
            && !is_mouse_button_down(WM_MOUSEMOVE)
    );
}

#[test]
fn mod_automatic_collapse_leaves_panel_persistent_unchecked() {
    assert!(!panel_is_persistent(true));
}

#[test]
fn mod_v4_tray_context_ignores_legacy_right_button_event() {
    assert!(!is_tray_context_event(WM_RBUTTONUP, true));
}

#[test]
fn mod_tray_left_click_is_ignored() {
    assert_eq!(
        (
            tray_event_action(WM_LBUTTONUP, true),
            tray_event_action(WM_LBUTTONUP, false)
        ),
        (TrayEventAction::Ignore, TrayEventAction::Ignore)
    );
}

#[test]
fn mod_immediate_tray_callback_after_menu_close_is_suppressed() {
    let closed = Instant { nanos: 7_000_000_000 };
    assert!(should_suppress_tray_reopen(
        closed,
        closed.checked_add(Duration::from_millis(10)).unwrap()
    ));
}
