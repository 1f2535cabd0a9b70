use codex_quota::commands::{
    WM_LBUTTONDOWN, WM_MBUTTONDOWN, WM_MOUSEMOVE, WM_RBUTTONDOWN, WM_XBUTTONDOWN,
};
use codex_quota::config::{AnchorEdge, AppConfigV1};
use codex_quota::fixed::DIP;
use codex_quota::interaction::{
    can_reach, is_mouse_button_down, outside_click_mouse_proc, Hit, HookStep, HoverStep, PressStep,
    ReleaseStep,
};
use codex_quota::layout::{position_from_config, Point, Rect};
use codex_quota::notify::NotifyState;
use codex_quota::overlay::ExpandStep;
use codex_quota::snap::{DragVelocity, Velocity};
use codex_quota::time::{Duration, Instant};
use codex_quota::window::AppWindow;

const PANEL_HEIGHT: i64 = 227 * DIP;

const WORK: Rect = Rect { left: 0, top: 0, right: 1920, bottom: 1040 };

fn at(millis: u64) -> Instant {
    Instant { nanos: Duration::from_millis(millis).nanos }
}

fn rect(left: i32, top: i32, right: i32, bottom: i32) -> Rect {
    Rect { left, top, right, bottom }
}

fn ball(x: i32, y: i32) -> Rect {
    rect(x, y, x + 56, y + 56)
}

/// A window whose ball is on screen.
fn shown() -> AppWindow {
    let mut window = AppWindow::new(AppConfigV1::default(), NotifyState::default());
    window.activate_overlay();
    window.overlay_ready();
    window.overlay_shown();
    window
}

#[test]
fn interaction_mouse_button_filter_accepts_only_button_down_events() {
    assert!(
        [
            WM_LBUTTONDOWN,
            WM_MBUTTONDOWN,
            WM_RBUTTONDOWN,
            WM_XBUTTONDOWN
        ]
        .into_iter()
        .all(is_mouse_button_down)
            && !is_mouse_button_down(WM_MOUSEMOVE)
    );
}

#[test]
fn drag_velocity_needs_two_samples() {
    let start = at(1_000);
    let mut velocity = DragVelocity::default();
    velocity.sample(Point { x: 100, y: 100 }, start);
    assert_eq!(velocity.release_velocity(start), Velocity { x: 0, y: 0 });
    velocity.reset();
    assert_eq!(velocity.release_velocity(start), Velocity { x: 0, y: 0 });
}

#[test]
fn drag_velocity_forgets_a_stale_release() {
    let start = at(1_000);
    let mut velocity = DragVelocity::default();
    velocity.sample(Point { x: 100, y: 100 }, start);
    velocity.sample(Point { x: 90, y: 100 }, at(1_010));

    let moving = velocity.release_velocity(at(1_012));
    assert!((moving.x as f64 / 1e9 + 0.35).abs() < 0.01 && moving.y == 0);
    assert_eq!(
        velocity.release_velocity(at(1_200)),
        Velocity { x: 0, y: 0 }
    );
}

#[test]
fn a_click_outside_the_panel_collapses_it() {
    let panel = Some((rect(100, 100, 388, 327), 0));
    let click = |x, y| outside_click_mouse_proc(0, WM_LBUTTONDOWN, Point { x, y }, panel);
    assert!(click(50, 200));
    assert!(click(100, 100));
    assert!(!click(200, 200));
    assert!(!outside_click_mouse_proc(-1, WM_LBUTTONDOWN, Point { x: 0, y: 0 }, panel));
    assert!(!outside_click_mouse_proc(0, WM_MOUSEMOVE, Point { x: 0, y: 0 }, panel));
    assert!(!outside_click_mouse_proc(0, WM_LBUTTONDOWN, Point { x: 0, y: 0 }, None));
}

#[test]
fn clicks_outside_are_watched_only_while_the_panel_stands() {
    let mut window = shown();
    window.set_animations_enabled(false);
    assert_eq!(window.update_outside_click_hook(), HookStep::Keep);
    assert_eq!(window.set_expanded(true), ExpandStep::Jump);
    assert_eq!(window.update_outside_click_hook(), HookStep::Install);
    window.install_outside_click_hook(false);
    assert_eq!(window.update_outside_click_hook(), HookStep::Install);
    window.install_outside_click_hook(true);
    assert_eq!(window.update_outside_click_hook(), HookStep::Keep);
    window.config.collapse_on_outside_click = false;
    assert_eq!(window.update_outside_click_hook(), HookStep::Remove);
    assert_eq!(window.update_outside_click_hook(), HookStep::Keep);
    assert!(!window.remove_outside_click_hook());
}

#[test]
fn a_click_toggles_and_a_drag_slides_to_the_edge() {
    let mut window = shown();
    assert_eq!(window.end_drag(at(0)), ReleaseStep::Nothing);
    assert_eq!(window.begin_drag(), PressStep::Ready);
    window.hold(Point { x: 110, y: 110 }, ball(100, 100));
    assert_eq!(window.update_drag(Point { x: 113, y: 108 }, 4, 4, at(5)), None);
    assert_eq!(window.end_drag(at(10)), ReleaseStep::Toggle);

    window.begin_drag();
    window.hold(Point { x: 110, y: 110 }, ball(100, 100));
    assert_eq!(
        window.update_drag(Point { x: 120, y: 110 }, 4, 4, at(20)),
        Some(Point { x: 110, y: 100 })
    );
    assert_eq!(
        window.update_drag(Point { x: 111, y: 110 }, 4, 4, at(30)),
        Some(Point { x: 101, y: 100 })
    );
    assert!(!window.ring_animations_allowed());
    match window.end_drag(at(35)) {
        ReleaseStep::Snap(velocity) => {
            assert_eq!(velocity, Velocity { x: -315_000_000, y: 0 });
        }
        other => panic!("{other:?}"),
    }
    assert!(!window.dragging && !window.pointer_down);
}

#[test]
fn docking_takes_the_nearest_edge_and_is_remembered() {
    for (window_rect, edge, target, offset) in [
        (ball(40, 300), AnchorEdge::Left, (0, 300), 300),
        (ball(1_800, 300), AnchorEdge::Right, (1_864, 300), 300),
        (ball(700, 20), AnchorEdge::Top, (700, 0), 700),
        (ball(700, 1_000), AnchorEdge::Bottom, (700, 984), 700),
        (ball(-30, -30), AnchorEdge::Left, (0, 0), 0),
        (ball(1_900, 2_000), AnchorEdge::Right, (1_864, 984), 984),
    ] {
        let mut window = shown();
        let to = window.place_at_edge(window_rect, WORK, "DISPLAY1".to_owned());
        assert_eq!((to.x, to.y), target);
        assert_eq!(window.config.placement.edge, edge);
        assert_eq!(window.config.placement.monitor_device, "DISPLAY1");
        assert_eq!(window.config.placement.offset_dip, offset * DIP);
        assert_eq!(position_from_config(&window.config, WORK, 56, 96), to);
    }
}

#[test]
fn a_slide_runs_only_where_it_can_be_seen() {
    let from = Point { x: 400, y: 220 };
    let to = Point { x: 0, y: 220 };
    let still = Velocity { x: 0, y: 0 };
    let mut window = shown();
    assert!(!window.start_snap(from, from, still, at(0)));
    window.set_animations_enabled(false);
    assert!(!window.start_snap(from, to, still, at(0)));
    window.set_animations_enabled(true);
    assert!(window.start_snap(from, to, still, at(0)));

    let first = window.render_snap_frame(at(0), PANEL_HEIGHT).unwrap();
    assert_eq!(first.frame.destination, from);
    assert_eq!((first.frame.width, first.frame.height), (56, 56));
    let last = window.render_snap_frame(at(10_000), PANEL_HEIGHT).unwrap();
    assert!(last.finished);
    assert_eq!(last.frame.destination, to);
    assert_eq!(window.render_snap_frame(at(10_001), PANEL_HEIGHT), None);

    assert!(window.start_snap(from, to, still, at(0)));
    assert_eq!(window.begin_drag(), PressStep::Land(to));
    assert_eq!(window.finish_snap(), None);
}

#[test]
fn a_moving_panel_cannot_be_taken_hold_of() {
    let mut window = shown();
    assert_eq!(window.set_expanded(true), ExpandStep::Animate);
    window.start_animation(true, ball(1_864, 100), WORK, PANEL_HEIGHT, at(0));
    assert_eq!(window.begin_drag(), PressStep::Refused);
}

#[test]
fn the_pointer_highlights_the_ball_it_is_on() {
    let mut window = shown();
    let over = Some((Point { x: 128, y: 128 }, ball(100, 100)));
    let corner = Some((Point { x: 101, y: 101 }, ball(100, 100)));
    assert_eq!(window.handle_mouse_move(corner), HoverStep::Same);
    assert_eq!(window.handle_mouse_move(over), HoverStep::Entered);
    assert_eq!(window.handle_mouse_move(over), HoverStep::Same);
    assert_eq!(window.handle_mouse_move(None), HoverStep::Left);
    window.handle_mouse_move(over);
    assert!(window.handle_mouse_leave());
    assert!(!window.handle_mouse_leave());
}

#[test]
fn hits_follow_what_is_drawn() {
    let mut window = shown();
    let place = ball(100, 100);
    let hit = |window: &AppWindow, x, y, shape| {
        window.hit_test(Some((Point { x, y }, shape)), at(0), PANEL_HEIGHT)
    };
    assert_eq!(window.hit_test(None, at(0), PANEL_HEIGHT), Hit::Client);
    assert_eq!(hit(&window, 101, 128, place), Hit::Client);
    assert_eq!(hit(&window, 100, 128, place), Hit::Transparent);

    window.set_animations_enabled(false);
    window.set_expanded(true);
    let panel = rect(100, 100, 388, 327);
    assert_eq!(hit(&window, 100, 100, panel), Hit::Transparent);
    assert_eq!(hit(&window, 120, 101, panel), Hit::Client);

    let mut moving = shown();
    moving.set_expanded(true);
    moving.start_animation(true, ball(100, 100), WORK, PANEL_HEIGHT, at(0));
    assert_eq!(hit(&moving, 128, 128, place), Hit::Client);
    assert_eq!(hit(&moving, 200, 200, place), Hit::Transparent);
    let end = moving.hit_test(Some((Point { x: 200, y: 200 }, place)), at(160), PANEL_HEIGHT);
    assert_eq!(end, Hit::Client);
}

#[test]
fn a_new_resolution_scales_the_window_in_place() {
    let mut window = shown();
    window.handle_dpi_changed(144);
    assert_eq!(window.dpi, 144);
    let frame = window.place_for_dpi(rect(1_836, 100, 1_920, 184), WORK, PANEL_HEIGHT);
    assert_eq!((frame.width, frame.height), (84, 84));
    assert_eq!(frame.destination, Point { x: 1_836, y: 100 });
    window.handle_dpi_changed(72);
    assert_eq!(window.dpi, 96);
}

#[test]
fn places_out_of_reach_are_told_apart() {
    let origin = Point { x: 0, y: 0 };
    assert!(can_reach(origin, ball(100, 100)));
    assert!(!can_reach(Point { x: 1, y: 0 }, rect(i32::MIN, 0, 0, 0)));
    assert!(!can_reach(origin, rect(-1, 0, i32::MAX, 0)));

    let mut window = shown();
    assert!(window.can_draw_frame(at(0), PANEL_HEIGHT));
    assert!(window.can_test(origin, ball(100, 100), at(0), PANEL_HEIGHT));
    assert_eq!(window.set_expanded(true), ExpandStep::Animate);
    window.start_animation(true, ball(1_864, 100), WORK, PANEL_HEIGHT, at(0));
    assert!(window.can_draw_frame(at(80), PANEL_HEIGHT));
    assert!(window.can_test(origin, ball(1_864, 100), at(80), PANEL_HEIGHT));
    let far = Point { x: i32::MIN, y: 0 };
    assert!(!window.can_test(far, rect(i32::MIN, 0, i32::MIN + 56, 56), at(80), PANEL_HEIGHT));
    if let Some(animation) = window.animation.as_mut() {
        animation.canvas_destination = far;
    }
    assert!(!window.can_draw_frame(at(80), PANEL_HEIGHT));
}
