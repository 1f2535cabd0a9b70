use codex_quota::commands::{
    CMD_AUTOSTART, CMD_COLOR_STYLE_VIVID, CMD_COPY_PANEL, CMD_EXIT, CMD_FOLLOW_CODEX,
    CMD_NOTIFY_OVERFLOW, CMD_NOTIFY_RESET, CMD_PANEL_PERSISTENT, CMD_REFRESH, CMD_REFRESH_10_MIN,
    CMD_RESET_COUNTDOWN, CMD_SHOW, CMD_TEST_NOTIFY_RESET, CMD_TOKEN_UNIT_EN, CMD_TOPMOST,
    CMD_USAGE, PBT_APMRESUMEAUTOMATIC, TIMER_ANIMATION, TIMER_REDRAW, TIMER_RING,
    WM_APP_COLLAPSE, WM_APP_EXPAND, WM_APP_PRESENCE_CHANGED, WM_APP_SHOW, WM_APP_TRAY,
    WM_APP_UPDATED, WM_CLOSE, WM_COMMAND, WM_DESTROY, WM_DISPLAYCHANGE, WM_DPICHANGED,
    WM_LBUTTONDOWN, WM_LBUTTONUP, WM_MOUSEACTIVATE, WM_MOUSELEAVE, WM_MOUSEMOVE, WM_NCDESTROY,
    WM_NCHITTEST, WM_POWERBROADCAST, WM_SETTINGCHANGE, WM_TIMER,
};
use codex_quota::config::{AnchorEdge, AppConfigV1, ColorStyle, UnitStyle};
use codex_quota::fixed::{DIP, UNIT};
use codex_quota::layout::{ExpansionAlignment, Point, Rect};
use codex_quota::notify::{Notification, NotifyState};
use codex_quota::overlay::{panel_height, still_frame, ExpandStep, RenderStep, RingStep, Visual};
use codex_quota::quota::{AppState, ConnectionStatus, QuotaSnapshot, QuotaWindow};
use codex_quota::snap::Velocity;
use codex_quota::time::{Duration, Instant, SystemTime};
use codex_quota::window::{
    initial_frame, keep_dpi, ActivateStep, AppWindow, CommandStep, FollowStep, InitStep, Message,
    PresenceStep, VisibilityStep,
};

const PANEL_HEIGHT: i64 = 227 * DIP;

const WORK: Rect = Rect { left: 0, top: 0, right: 1920, bottom: 1040 };

const BALL: Rect = Rect { left: 1864, top: 100, right: 1920, bottom: 156 };

fn at(millis: u64) -> Instant {
    Instant { nanos: Duration::from_millis(millis).nanos }
}

fn fresh() -> AppWindow {
    AppWindow::new(AppConfigV1::default(), NotifyState::default())
}

fn shown() -> AppWindow {
    let mut window = fresh();
    window.activate_overlay();
    window.overlay_ready();
    window.overlay_shown();
    window
}

#[test]
fn the_first_window_holds_the_ball_where_it_was_docked() {
    let mut config = AppConfigV1::default();
    config.placement.offset_dip = 100 * DIP;
    let frame = initial_frame(&config, WORK);
    assert_eq!(frame.destination, Point { x: 1_864, y: 100 });
    assert_eq!((frame.width, frame.height), (56, 56));
}

#[test]
fn a_window_waits_for_codex_only_if_it_follows_it() {
    let mut window = fresh();
    assert_eq!(window.initialize(120, false, 77), InitStep::Activate);
    assert_eq!((window.dpi, window.animations_enabled, window.taskbar_created), (120, false, 77));
    window.config.follow_codex = true;
    assert_eq!(window.initialize(10, true, 0), InitStep::Watch);
    assert_eq!(window.dpi, keep_dpi(10));
    assert_eq!(keep_dpi(10), 96);
}

#[test]
fn the_overlay_starts_with_the_ball_and_leaves_nothing_behind() {
    let mut window = fresh();
    assert_eq!(window.activate_overlay(), ActivateStep::Prepare { side: 56 });
    window.overlay_ready();
    assert_eq!(window.activate_overlay(), ActivateStep::AlreadyActive);
    window.overlay_shown();
    window.set_expanded(true);
    window.start_animation(true, BALL, WORK, PANEL_HEIGHT, at(0));
    window.hold(Point { x: 0, y: 0 }, BALL);
    assert!(window.deactivate_overlay());
    assert!(!window.visible && !window.expanded && !window.overlay_active);
    assert!(window.animation.is_none() && !window.pointer_down && !window.hook_installed);
    assert!(window.notifier.observed_at.is_none());
    assert!(!window.deactivate_overlay());
    assert_eq!(window.render(), RenderStep::Nothing);
    assert_eq!(window.set_expanded(true), ExpandStep::Nothing);
}

#[test]
fn a_fresh_state_is_shown_the_configured_way() {
    let mut window = fresh();
    window.config.quota_refresh_interval_secs = 120;
    window.config.token_unit = UnitStyle::En;
    window.config.color_style = ColorStyle::Vivid;
    window.config.show_reset_countdown = true;
    let state = window.reset_state();
    assert_eq!(state.quota_refresh_interval, Duration::from_secs(120));
    assert_eq!(state.token_unit, UnitStyle::En);
    assert_eq!(state.color_style, ColorStyle::Vivid);
    assert!(state.show_reset_countdown && state.snapshot.is_none());
    assert!(matches!(state.status, ConnectionStatus::Connecting));
}

#[test]
fn only_the_present_watcher_is_listened_to() {
    let mut window = fresh();
    let first = match window.set_follow_codex(true) {
        FollowStep::Watch { generation } => generation,
        other => panic!("{other:?}"),
    };
    assert!(!window.config.follow_codex);
    assert_eq!(window.handle_presence_changed(true, first), PresenceStep::Ignore);
    window.follow_codex_started();
    assert_eq!(window.handle_presence_changed(true, first), PresenceStep::Activate);
    assert_eq!(window.handle_presence_changed(true, first.wrapping_sub(1)), PresenceStep::Ignore);
    assert_eq!(window.handle_presence_changed(false, first), PresenceStep::Ignore);
    window.presence_applied(true);
    assert_eq!(window.handle_presence_changed(true, first), PresenceStep::Ignore);
    assert_eq!(window.handle_presence_changed(false, first), PresenceStep::Deactivate);

    let second = window.start_presence_watcher();
    assert_ne!(first, second);
    assert_eq!(window.handle_presence_changed(true, first), PresenceStep::Ignore);
    assert_eq!(window.handle_presence_changed(true, second), PresenceStep::Activate);
    assert_eq!(window.set_follow_codex(true), FollowStep::Unchanged);
    assert_eq!(window.set_follow_codex(false), FollowStep::Activate);
    assert_eq!(window.handle_presence_changed(true, second), PresenceStep::Ignore);
    window.presence_generation = u32::MAX;
    assert_eq!(window.start_presence_watcher(), 1);
}

#[test]
fn following_hides_the_overlay_until_codex_is_seen() {
    let mut window = shown();
    window.set_follow_codex(true);
    assert!(window.follow_codex_started());
    assert!(window.config.follow_codex && !window.overlay_active);
}

#[test]
fn only_a_hidden_ball_appears() {
    let mut window = fresh();
    assert_eq!(window.show(), VisibilityStep::Nothing);
    assert_eq!(window.toggle_visibility(), VisibilityStep::Nothing);
    let mut window = shown();
    assert_eq!(window.show(), VisibilityStep::Show { appears: false });
    assert_eq!(window.toggle_visibility(), VisibilityStep::Hide);
    assert!(!window.visible);
    assert_eq!(window.toggle_visibility(), VisibilityStep::Show { appears: true });
    let (from, to) = (Point { x: 400, y: 0 }, Point { x: 0, y: 0 });
    assert!(window.start_snap(from, to, Velocity { x: 0, y: 0 }, at(0)));
    assert_eq!(window.toggle_visibility(), VisibilityStep::FinishFirst);
    assert_eq!(window.finish_snap(), Some(to));
    assert_eq!(window.toggle_visibility(), VisibilityStep::Hide);
}

#[test]
fn expanding_grows_out_of_the_ball_and_collapsing_returns_to_it() {
    let mut window = shown();
    assert_eq!(window.toggle_expanded(), ExpandStep::Animate);
    window.start_animation(true, BALL, WORK, PANEL_HEIGHT, at(0));
    assert_eq!(window.render(), RenderStep::AnimationFrame);
    assert_eq!(window.set_expanded(false), ExpandStep::FinishFirst);

    let first = window.render_animation_frame(at(0), PANEL_HEIGHT).unwrap();
    assert_eq!(first.frame.destination, Point { x: 1_632, y: 100 });
    assert_eq!((first.frame.width, first.frame.height), (288, 227));
    assert_eq!((first.visual.expansion, first.visual.ball_opacity), (0, UNIT));
    assert_eq!(
        (first.visual.ball_center_x, first.visual.ball_center_y),
        (260 * DIP, 28 * DIP)
    );
    assert_eq!(first.visual.shape_bounds.left, 232 * DIP);
    assert_eq!(first.visual.shape_bounds.bottom, 56 * DIP);
    let last = window.render_animation_frame(at(160), PANEL_HEIGHT).unwrap();
    assert!(last.finished && last.visual.shape_bounds.left == 0);
    assert_eq!(last.visual.shape_bounds.bottom, 227 * DIP);
    assert!(window.finish_animation());
    assert!(!window.finish_animation());
    assert_eq!(window.render_animation_frame(at(161), PANEL_HEIGHT), None);

    let panel = Rect { left: 1_632, top: 100, right: 1_920, bottom: 327 };
    assert_eq!(window.set_expanded(false), ExpandStep::Animate);
    window.start_animation(false, panel, WORK, PANEL_HEIGHT, at(200));
    let back = window.render_animation_frame(at(330), PANEL_HEIGHT).unwrap();
    assert!(back.finished && back.visual.ball_opacity == UNIT);
    assert_eq!(back.visual.ball_center_x, 260 * DIP);
    window.finish_animation();
    let frame = window.resize_for_state(panel, WORK, PANEL_HEIGHT);
    assert_eq!(frame.destination, Point { x: 1_864, y: 100 });
}

#[test]
fn a_panel_that_changes_its_height_chooses_its_end_anew() {
    let mut window = shown();
    window.set_animations_enabled(false);
    assert_eq!(window.set_expanded(true), ExpandStep::Jump);
    assert_eq!(window.render_at(), Visual::Expanded);
    let low = Rect { left: 1_864, top: 980, right: 1_920, bottom: 1_036 };
    let frame = window.resize_for_state(low, WORK, PANEL_HEIGHT);
    assert_eq!(frame.destination, Point { x: 1_632, y: 809 });
    assert_eq!(window.expansion_alignment, ExpansionAlignment::End);
    let same = Rect { left: 1_632, top: 809, right: 1_920, bottom: 1_036 };
    assert_eq!(window.resize_for_state(same, WORK, PANEL_HEIGHT), frame);
    assert_eq!(window.desired_size(PANEL_HEIGHT), (288, 227));
    assert_eq!(still_frame(same), frame);
}

#[test]
fn the_frame_timer_is_touched_only_when_its_interval_changes() {
    let mut window = shown();
    assert_eq!(window.render_at(), Visual::Collapsed);
    assert_eq!(window.sync_ring_frames(None), RingStep::Keep);
    assert_eq!(window.sync_ring_frames(Some(10)), RingStep::Start(10));
    assert_eq!(window.sync_ring_frames(Some(10)), RingStep::Keep);
    assert_eq!(window.sync_ring_frames(Some(100)), RingStep::Start(100));
    window.set_animations_enabled(false);
    assert_eq!(window.sync_ring_frames(Some(100)), RingStep::Stop);
    window.set_animations_enabled(true);
    window.sync_ring_frames(Some(100));
    window.stop_ring_frames();
    assert_eq!(window.ring_frame_millis, None);
}

#[test]
fn without_a_state_the_panel_has_its_compact_height() {
    assert_eq!(panel_height(None), 227 * DIP);
    let state = AppState { today_overflow_tokens: Some(1), ..AppState::default() };
    assert_eq!(panel_height(Some(&state)), 254 * DIP);
}

fn state_at(resets_hours: i128, received_secs: i128) -> AppState {
    let hours = |count: i128| SystemTime { nanos: count * 3_600_000_000_000 };
    AppState {
        snapshot: Some(QuotaSnapshot {
            limit_id: "codex".to_owned(),
            primary: QuotaWindow {
                used_percent: 1_000_000,
                window_duration: Duration::from_secs(5 * 3_600),
                resets_at: hours(resets_hours),
            },
            secondary: None,
            received_at: SystemTime { nanos: received_secs * 1_000_000_000 },
        }),
        ..AppState::default()
    }
}

#[test]
fn a_new_state_is_announced_by_the_settings() {
    let now = |secs: i128| SystemTime { nanos: secs * 1_000_000_000 };
    let mut window = shown();
    assert!(window.check_notifications(None, now(0)).is_none());
    window.check_notifications(Some(&state_at(5, 0)), now(0));
    let outcome = window.check_notifications(Some(&state_at(10, 60)), now(60)).unwrap();
    assert_eq!(
        outcome.notifications,
        vec![Notification::Reset { window: "5h".to_owned(), remaining_percent: 99_000_000 }]
    );
    window.config.notify_on_reset = false;
    let silent = window.check_notifications(Some(&state_at(15, 120)), now(120)).unwrap();
    assert!(silent.notifications.is_empty());
}

#[test]
fn a_lost_place_on_top_is_noticed() {
    let mut window = fresh();
    assert!(window.ensure_topmost(0));
    assert!(window.ensure_topmost(0x80));
    assert!(!window.ensure_topmost(0x88));
    window.config.always_on_top = false;
    assert!(!window.ensure_topmost(0));
}

#[test]
fn the_tray_icon_is_removed_once() {
    let mut window = fresh();
    assert!(!window.remove_tray_icon());
    window.add_tray_icon(true);
    assert!(window.tray_added && window.tray.uses_v4);
    assert!(window.remove_tray_icon());
    assert!(!window.tray.uses_v4);
    window.add_tray_icon(true);
    window.handle_taskbar_created();
    assert!(!window.tray_added);
}

#[test]
fn commands_turn_switches_and_take_over_choices() {
    let mut window = fresh();
    assert_eq!(window.command(CMD_TOPMOST, false), CommandStep::ApplyTopmost);
    assert!(!window.config.always_on_top);
    assert_eq!(window.command(CMD_TOPMOST, false), CommandStep::ApplyTopmost);
    assert!(window.config.always_on_top);
    assert_eq!(window.command(CMD_NOTIFY_RESET, false), CommandStep::Save);
    assert_eq!(window.command(CMD_NOTIFY_OVERFLOW, false), CommandStep::Save);
    assert!(!window.config.notify_on_reset && !window.config.notify_on_overflow);
    assert_eq!(window.command(CMD_PANEL_PERSISTENT, false), CommandStep::UpdateHook);
    assert!(!window.config.collapse_on_outside_click);
    assert_eq!(window.command(CMD_REFRESH_10_MIN, false), CommandStep::IntervalChanged);
    assert_eq!(window.config.quota_refresh_interval_secs, 600);
    assert_eq!(window.command(CMD_TOKEN_UNIT_EN, false), CommandStep::AppearanceChanged);
    assert_eq!(window.config.token_unit, UnitStyle::En);
    assert_eq!(window.command(CMD_COLOR_STYLE_VIVID, false), CommandStep::AppearanceChanged);
    assert_eq!(window.config.color_style, ColorStyle::Vivid);
    assert_eq!(window.command(CMD_RESET_COUNTDOWN, false), CommandStep::AppearanceChanged);
    assert!(window.config.show_reset_countdown);
    assert_eq!(
        window.command(CMD_AUTOSTART, false),
        CommandStep::SetAutostart { enabled: true }
    );
    assert!(!window.config.start_with_windows);
    window.autostart_applied(true);
    assert!(window.config.start_with_windows);
    assert_eq!(window.config.placement.edge, AnchorEdge::Right);
}

#[test]
fn other_commands_leave_the_settings_alone() {
    let mut window = fresh();
    for (command, step) in [
        (CMD_SHOW, CommandStep::ToggleVisibility),
        (CMD_REFRESH, CommandStep::Refresh),
        (CMD_COPY_PANEL, CommandStep::CopyPanel),
        (CMD_USAGE, CommandStep::OpenUsage),
        (CMD_FOLLOW_CODEX, CommandStep::SetFollowCodex { enabled: true }),
        (CMD_EXIT, CommandStep::Exit),
        (CMD_TEST_NOTIFY_RESET, CommandStep::Nothing),
        (0, CommandStep::Nothing),
    ] {
        assert_eq!(window.command(command, false), step);
    }
    assert_eq!(
        window.command(CMD_TEST_NOTIFY_RESET, true),
        CommandStep::TestNotification
    );
    window.config.follow_codex = true;
    assert_eq!(window.command(CMD_SHOW, false), CommandStep::Nothing);
}

#[test]
fn messages_mean_what_the_window_can_do() {
    let mut window = shown();
    window.taskbar_created = 0xc123;
    for (message, wparam, lparam, meaning) in [
        (WM_APP_TRAY, 0, 0x1_007b, Message::Tray { event: 0x7b }),
        (0xc123, 0, 0, Message::TaskbarCreated),
        (WM_APP_UPDATED, 0, 0, Message::Updated { resizes: false }),
        (WM_APP_SHOW, 0, 0, Message::Show),
        (WM_APP_EXPAND, 0, 0, Message::ShowExpanded),
        (WM_APP_COLLAPSE, 0, 0, Message::Collapse),
        (
            WM_APP_PRESENCE_CHANGED,
            1,
            7,
            Message::Presence { present: true, generation: 7 },
        ),
        (WM_COMMAND, 0x1_03e9, 0, Message::Command { command: 1001 }),
        (WM_LBUTTONDOWN, 0, 0, Message::ButtonDown),
        (WM_MOUSEMOVE, 0, 0, Message::PointerMoved),
        (WM_MOUSELEAVE, 0, 0, Message::PointerLeft),
        (WM_LBUTTONUP, 0, 0, Message::ButtonUp),
        (WM_NCHITTEST, 0, 0, Message::HitTest),
        (WM_MOUSEACTIVATE, 0, 0, Message::MouseActivate),
        (WM_DPICHANGED, 0x90_0090, 0, Message::DpiChanged { dpi: 144, places: true }),
        (WM_DISPLAYCHANGE, 0, 0, Message::DisplayChanged),
        (WM_SETTINGCHANGE, 0, 0, Message::SettingChanged),
        (WM_POWERBROADCAST, PBT_APMRESUMEAUTOMATIC, 0, Message::Resumed),
        (WM_POWERBROADCAST, 4, 0, Message::Default),
        (WM_TIMER, TIMER_REDRAW, 0, Message::Redraw),
        (WM_TIMER, TIMER_ANIMATION, 0, Message::AnimationFrame),
        (WM_TIMER, TIMER_RING, 0, Message::RingFrame),
        (WM_TIMER, 9, 0, Message::Default),
        (WM_CLOSE, 0, 0, Message::ToggleVisibility),
        (WM_DESTROY, 0, 0, Message::Destroy),
        (WM_NCDESTROY, 0, 0, Message::Destroyed),
        (0, 0, 0, Message::Default),
    ] {
        assert_eq!(window.window_proc(message, wparam, lparam), meaning);
    }
    let slide = (Point { x: 400, y: 0 }, Point { x: 0, y: 0 });
    window.start_snap(slide.0, slide.1, Velocity { x: 0, y: 0 }, at(0));
    assert_eq!(window.window_proc(WM_TIMER, TIMER_ANIMATION, 0), Message::SnapFrame);
    window.finish_snap();
    window.set_animations_enabled(false);
    window.set_expanded(true);
    assert_eq!(
        window.window_proc(WM_APP_UPDATED, 0, 0),
        Message::Updated { resizes: true }
    );
}

#[test]
fn without_the_overlay_and_while_following_most_messages_rest() {
    let mut window = fresh();
    window.config.follow_codex = true;
    for (message, wparam) in [
        (WM_APP_UPDATED, 0),
        (WM_APP_SHOW, 0),
        (WM_CLOSE, 0),
        (WM_DISPLAYCHANGE, 0),
        (WM_TIMER, TIMER_ANIMATION),
        (WM_TIMER, TIMER_RING),
    ] {
        assert_eq!(window.window_proc(message, wparam, 0), Message::Nothing);
    }
    assert_eq!(window.window_proc(0, 0, 0), Message::Default);
    assert_eq!(
        window.window_proc(WM_DPICHANGED, 120, 0),
        Message::DpiChanged { dpi: 120, places: false }
    );
}
