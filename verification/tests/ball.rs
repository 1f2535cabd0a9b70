use codex_quota::ball::{
    arc_shape, ball_scale, draw_ball, draw_ball_content, draw_transition, inset_background,
    pulse_dims_track, resize_plan, surface_bytes, ArcShape, QuotaArc, ResizePlan, TransitionPlan,
};
use codex_quota::fixed::{DIP, UNIT};
use codex_quota::panel::{Area, Brush};
use codex_quota::quota::{
    AppState, ConnectionStatus, QuotaPull, QuotaSnapshot, QuotaWindow, PERCENT,
};
use codex_quota::ring::{PointerState, RingState};
use codex_quota::time::{Duration, Instant, SystemTime};

const WALL: SystemTime = SystemTime { nanos: 0 };

fn at(millis: u128) -> Instant {
    Instant { nanos: 1_000_000_000_000 + millis * 1_000_000 }
}

fn remaining(percent: i64) -> AppState {
    AppState {
        snapshot: Some(QuotaSnapshot {
            limit_id: "codex".to_owned(),
            primary: QuotaWindow {
                used_percent: 100 * PERCENT - percent * PERCENT,
                window_duration: Duration::from_secs(5 * 3600),
                resets_at: SystemTime { nanos: 3_600_000_000_000 },
            },
            secondary: None,
            received_at: WALL,
        }),
        status: ConnectionStatus::Online,
        ..AppState::default()
    }
}

#[test]
fn a_ball_that_has_settled_shows_its_quota() {
    let mut ring = RingState::new(at(0));
    let mut pointer = PointerState::new();
    draw_ball(&mut ring, &mut pointer, &remaining(50), false, false, at(0), WALL);
    let frame =
        draw_ball(&mut ring, &mut pointer, &remaining(50), false, false, at(2_000), WALL);

    assert_eq!(frame.background_radius, 27 * DIP);
    assert_eq!(frame.background_hover_opacity, 0);
    assert_eq!(frame.content.label, "50");
    assert_eq!(frame.content.arc, Some(QuotaArc { share: UNIT / 2, brush: Brush::Healthy }));
    assert_eq!(frame.content.ring_radius, 23 * DIP);
    assert_eq!(frame.content.track_opacity, UNIT);
    assert_eq!(frame.content.track_hover_opacity, 0);
    assert_eq!(frame.content.pulse, None);
    assert_eq!(frame.content.spinner, None);
}

#[test]
fn a_pressed_ball_shrinks_and_a_hovered_one_lights_up() {
    let mut ring = RingState::new(at(0));
    let mut pointer = PointerState::new();
    draw_ball(&mut ring, &mut pointer, &remaining(50), true, true, at(0), WALL);
    let frame = draw_ball(&mut ring, &mut pointer, &remaining(50), true, true, at(2_000), WALL);

    assert_eq!(frame.background_radius, 25_380_000);
    assert_eq!(frame.background_hover_opacity, UNIT);
    assert_eq!(frame.content.ring_radius, 21_620_000);
    assert_eq!(frame.content.spin_radius, 17_860_000);
    assert_eq!(frame.content.track_opacity, 0);
    assert_eq!(frame.content.track_hover_opacity, UNIT);
    assert_eq!(ball_scale(0), UNIT);
    assert_eq!(ball_scale(UNIT), 940_000_000);
}

#[test]
fn drawing_moves_the_answer_to_the_pointer_on() {
    let mut ring = RingState::new(at(0));
    let mut pointer = PointerState::new();
    draw_ball(&mut ring, &mut pointer, &remaining(50), true, false, at(0), WALL);
    assert!(pointer.hover.target && pointer.hover.tweening() && !pointer.press.tweening());
    let halfway = draw_ball(&mut ring, &mut pointer, &remaining(50), true, false, at(75), WALL);
    assert_eq!(pointer.hover.value, halfway.background_hover_opacity);
    assert!(0 < pointer.hover.value && pointer.hover.value < UNIT && pointer.tweening());
    let lit = draw_ball(&mut ring, &mut pointer, &remaining(50), true, false, at(150), WALL);
    assert_eq!((lit.background_hover_opacity, pointer.hover.value), (UNIT, UNIT));
    assert!(!pointer.tweening() && pointer.enabled);
}

#[test]
fn the_pulse_dims_the_arc_or_else_the_track() {
    assert!(!pulse_dims_track(Some(QuotaArc { share: 1, brush: Brush::Critical })));
    assert!(pulse_dims_track(None));
}

#[test]
fn an_exhausted_or_unknown_ball_has_no_arc_and_does_not_pulse() {
    let mut ring = RingState::new(at(0));
    let zero = draw_ball_content(&mut ring, &remaining(0), UNIT, UNIT, 0, at(0), WALL);
    assert_eq!((zero.label.as_str(), zero.arc, zero.pulse), ("0", None, None));
    let unknown = draw_ball_content(&mut ring, &AppState::default(), UNIT, UNIT, 0, at(1), WALL);
    assert_eq!((unknown.label.as_str(), unknown.arc, unknown.pulse), ("--", None, None));
}

#[test]
fn a_low_ball_pulses() {
    let mut ring = RingState::new(at(0));
    draw_ball_content(&mut ring, &remaining(10), UNIT, UNIT, 0, at(0), WALL);
    let low = draw_ball_content(&mut ring, &remaining(10), UNIT, UNIT, 0, at(2_000), WALL);
    assert_eq!(low.arc, Some(QuotaArc { share: UNIT / 10, brush: Brush::Critical }));
    // The pulse takes 1.4 s.
    assert_eq!(low.pulse, Some(Duration::from_millis(600)));
}

#[test]
fn a_forced_refresh_clears_the_ball_and_spins() {
    let mut ring = RingState::new(at(0));
    draw_ball_content(&mut ring, &remaining(50), UNIT, UNIT, 0, at(0), WALL);
    let forced = AppState { quota_pull: QuotaPull::Forced, ..remaining(50) };
    let pulled = draw_ball_content(&mut ring, &forced, UNIT, UNIT, 0, at(2_000), WALL);
    assert_eq!(pulled.arc, None);
    // A turn of the spinner takes 1.6 s.
    assert_eq!(pulled.spinner, Some(UNIT / 4));

    // The new value sweeps in from zero.
    let back = draw_ball_content(&mut ring, &remaining(50), UNIT, UNIT, 0, at(2_001), WALL);
    assert_eq!(back.arc, None);
    let grown = draw_ball_content(&mut ring, &remaining(50), UNIT, UNIT, 0, at(4_000), WALL);
    assert_eq!(grown.arc, Some(QuotaArc { share: UNIT / 2, brush: Brush::Healthy }));
}

#[test]
fn a_fading_ball_keeps_its_opacity_within_bounds() {
    let mut ring = RingState::new(at(0));
    let half = draw_ball_content(&mut ring, &remaining(50), UNIT / 2, UNIT, UNIT / 4, at(0), WALL);
    assert_eq!(half.opacity, UNIT / 2);
    assert_eq!(half.track_opacity, 375_000_000);
    assert_eq!(half.track_hover_opacity, 125_000_000);
    let over = draw_ball_content(&mut ring, &remaining(50), 2 * UNIT, UNIT, -1, at(1), WALL);
    assert_eq!((over.opacity, over.track_hover_opacity), (UNIT, 0));
}

#[test]
fn arcs_are_drawn_by_their_length() {
    assert_eq!(arc_shape(UNIT), ArcShape::FullCircle);
    assert_eq!(arc_shape(999_000_000), ArcShape::FullCircle);
    assert_eq!(arc_shape(998_999_999), ArcShape::Large);
    assert_eq!(arc_shape(500_000_001), ArcShape::Large);
    assert_eq!(arc_shape(500_000_000), ArcShape::Small);
    assert_eq!(arc_shape(0), ArcShape::Small);
}

#[test]
fn a_transition_draws_only_what_can_be_seen() {
    assert_eq!(
        draw_transition(0, UNIT, 0),
        TransitionPlan { corner_radius: 28 * DIP, draws_ball: true, draws_panel: false }
    );
    assert_eq!(
        draw_transition(UNIT / 2, 0, 0),
        TransitionPlan { corner_radius: 22 * DIP, draws_ball: false, draws_panel: false }
    );
    assert_eq!(
        draw_transition(UNIT, 0, UNIT),
        TransitionPlan { corner_radius: 16 * DIP, draws_ball: false, draws_panel: true }
    );
}

#[test]
fn the_background_lies_half_a_pixel_inside() {
    assert_eq!(
        inset_background(Area { left: 0, top: DIP, right: 10 * DIP, bottom: 20 * DIP }),
        Area { left: DIP / 2, top: 3 * DIP / 2, right: 19 * DIP / 2, bottom: 39 * DIP / 2 }
    );
}

#[test]
fn only_what_has_changed_is_made_anew() {
    let plan = |width, height, dpi| resize_plan((56, 56, 96), width, height, dpi);
    let made = |new_surface, new_device_resources| ResizePlan {
        new_surface,
        new_device_resources,
    };
    assert_eq!(plan(56, 56, 96), made(false, false));
    assert_eq!(plan(57, 56, 96), made(true, false));
    assert_eq!(plan(56, 57, 96), made(true, false));
    assert_eq!(plan(56, 56, 120), made(false, true));
    assert_eq!(surface_bytes(56, 56), 12_544);
    assert_eq!(surface_bytes(-1, 56), 0);
}
