use codex_quota::fixed::UNIT;
use codex_quota::motion::{
    HOVER_TWEEN_MILLIS, LABEL_SWEEP_MILLIS, LABEL_TWEEN_MILLIS, PRESS_TWEEN_MILLIS,
    PULSE_PERIOD_MILLIS, RELEASE_TWEEN_MILLIS, RING_PULSE_FRAME_MILLIS, RING_SPIN_FRAME_MILLIS,
    RING_TWEEN_FRAME_MILLIS, SPIN_PERIOD_MILLIS, SWEEP_MILLIS, TWEEN_MILLIS,
};
use codex_quota::ring::{animation_frame_interval, faster_interval, PointerState, RingState};
use codex_quota::time::{Duration, Instant};

const PULSE_MIN_OPACITY: f32 = 0.35;

fn at(millis: u64) -> Instant {
    Instant { nanos: Duration::from_millis(millis).nanos }
}

fn after(start: Instant, millis: u64) -> Instant {
    start.checked_add(Duration::from_millis(millis)).unwrap()
}

fn share(value: f64) -> i64 {
    (value * 1e9).round() as i64
}

/// Opacity of a pulsing arc at a phase of its cycle.
fn opacity(phase: Duration) -> f32 {
    let period = Duration::from_millis(PULSE_PERIOD_MILLIS).nanos as f32;
    let wave = 0.5 + 0.5 * (std::f32::consts::TAU * phase.nanos as f32 / period).cos();
    PULSE_MIN_OPACITY + (1.0 - PULSE_MIN_OPACITY) * wave
}

fn pulse_factor(ring: &mut RingState, now: Instant, wanted: bool) -> f32 {
    ring.pulse_phase(now, wanted).map_or(1.0, opacity)
}

#[test]
fn first_known_value_sweeps_in_from_zero() {
    let start = at(1_000);
    let mut ring = RingState::new(start);

    ring.retarget(Some(share(0.4)), start);
    assert_eq!(ring.fraction(start), Some(share(0.0)));
    assert_eq!(ring.frame_interval(start), Some(RING_TWEEN_FRAME_MILLIS));

    let swept = after(start, SWEEP_MILLIS);
    assert_eq!(ring.fraction(swept).unwrap_or_default(), share(0.4));
    assert_eq!(ring.frame_interval(swept), None);
}

#[test]
fn value_reappearing_after_unknown_snaps_without_a_sweep() {
    let start = at(1_000);
    let mut ring = RingState::new(start);
    ring.retarget(Some(share(0.4)), start);
    let swept = after(start, SWEEP_MILLIS);
    assert_eq!(ring.fraction(swept).unwrap_or_default(), share(0.4));
    ring.retarget(None, swept);
    let restored = after(swept, 1_000);
    ring.retarget(Some(share(0.3)), restored);
    assert_eq!(ring.fraction(restored), Some(share(0.3)));
    assert_eq!(ring.frame_interval(restored), None);
}

#[test]
fn appearance_makes_the_next_value_sweep_again() {
    let start = at(1_000);
    let mut ring = RingState::new(start);
    ring.retarget(Some(share(0.4)), start);
    let swept = after(start, SWEEP_MILLIS);
    assert_eq!(ring.fraction(swept).unwrap_or_default(), share(0.4));

    ring.expect_appearance();
    ring.retarget(Some(share(0.4)), swept);

    assert_eq!(ring.fraction(swept), Some(share(0.0)));
    let reswept = after(swept, SWEEP_MILLIS);
    assert_eq!(ring.fraction(reswept).unwrap_or_default(), share(0.4));
}

#[test]
fn disabled_animations_also_skip_the_appearance_sweep() {
    let start = at(1_000);
    let mut ring = RingState::new(start);
    ring.set_enabled(false);

    ring.retarget(Some(share(0.4)), start);

    assert_eq!(ring.fraction(start), Some(share(0.4)));
    assert_eq!(ring.frame_interval(start), None);
}

#[test]
fn changed_value_tweens_and_stops_asking_for_frames_when_settled() {
    let start = at(1_000);
    let mut ring = RingState::new(start);
    ring.retarget(Some(share(0.4)), start);
    let swept = after(start, SWEEP_MILLIS);
    assert_eq!(ring.fraction(swept).unwrap_or_default(), share(0.4));

    ring.retarget(Some(share(0.1)), swept);

    let first = ring.fraction(swept).unwrap_or_default();
    assert_eq!(first, share(0.4));
    assert_eq!(ring.frame_interval(swept), Some(RING_TWEEN_FRAME_MILLIS));

    let settled = after(swept, TWEEN_MILLIS);
    let value = ring.fraction(settled).unwrap_or_default();
    assert_eq!(value, share(0.1));
    assert_eq!(ring.frame_interval(settled), None);
}

#[test]
fn retargeting_mid_tween_restarts_from_the_interpolated_value() {
    let start = at(1_000);
    let mut ring = RingState::new(start);
    ring.retarget(Some(share(0.5)), start);
    let swept = after(start, SWEEP_MILLIS);
    assert_eq!(ring.fraction(swept).unwrap_or_default(), share(0.5));
    ring.retarget(Some(share(0.1)), swept);
    let middle = after(swept, TWEEN_MILLIS / 2);
    let interpolated = ring.fraction(middle).unwrap_or_default();
    assert!(
        interpolated < share(0.5) && interpolated > share(0.1)
    );

    ring.retarget(Some(share(0.9)), middle);

    let restarted = ring.fraction(middle).unwrap_or_default();
    assert_eq!(restarted, interpolated);
    let settled = ring.fraction(after(middle, TWEEN_MILLIS)).unwrap_or_default();
    assert_eq!(settled, share(0.9));
}

#[test]
fn unknown_or_zero_target_drops_the_arc_without_tweening() {
    let start = at(1_000);
    let mut ring = RingState::new(start);
    ring.retarget(Some(share(0.3)), start);
    let later = after(start, 10);

    ring.retarget(None, later);

    assert_eq!(ring.fraction(later), None);
    assert_eq!(ring.frame_interval(later), None);
}

#[test]
fn disabling_animations_snaps_to_the_target() {
    let start = at(1_000);
    let mut ring = RingState::new(start);
    ring.retarget(Some(share(0.6)), start);
    let later = after(start, 20);
    ring.retarget(Some(share(0.2)), later);

    ring.set_enabled(false);

    assert_eq!(ring.fraction(later), Some(share(0.2)));
    assert_eq!(ring.frame_interval(later), None);
    assert!((pulse_factor(&mut ring, later, true) - 1.0).abs() < f32::EPSILON);
}

#[test]
fn pulse_runs_only_while_enabled_and_requested() {
    let start = at(1_000);
    let mut ring = RingState::new(start);

    assert!((pulse_factor(&mut ring, start, false) - 1.0).abs() < f32::EPSILON);
    assert_eq!(ring.frame_interval(start), None);

    assert!((pulse_factor(&mut ring, start, true) - 1.0).abs() < 1e-6);
    assert_eq!(ring.frame_interval(start), Some(RING_PULSE_FRAME_MILLIS));

    let dim = pulse_factor(&mut ring, after(start, PULSE_PERIOD_MILLIS / 2), true);
    assert!((dim - PULSE_MIN_OPACITY).abs() < 1e-6);

    ring.set_enabled(false);
    assert!((pulse_factor(&mut ring, start, true) - 1.0).abs() < f32::EPSILON);
    assert_eq!(ring.frame_interval(start), None);
}

#[test]
fn label_rolls_on_its_own_shorter_duration_while_the_arc_keeps_sweeping() {
    let start = at(1_000);
    let mut ring = RingState::new(start);

    ring.retarget(Some(share(0.5)), start);
    assert_eq!(ring.label_fraction(start), Some(share(0.0)));
    let rolled = after(start, LABEL_SWEEP_MILLIS);
    assert_eq!(ring.label_fraction(rolled), None);
    let arc = ring.fraction(rolled).unwrap_or_default();
    assert!(arc > share(0.0) && arc < share(0.5));
    assert_eq!(ring.frame_interval(rolled), Some(RING_TWEEN_FRAME_MILLIS));

    let settled = after(start, SWEEP_MILLIS);
    assert_eq!(ring.fraction(settled).unwrap_or_default(), share(0.5));
    assert_eq!(ring.frame_interval(settled), None);
}

#[test]
fn label_rolls_from_the_value_it_currently_shows_when_the_target_changes() {
    let start = at(1_000);
    let mut ring = RingState::new(start);
    ring.retarget(Some(share(0.5)), start);
    let swept = after(start, SWEEP_MILLIS);
    assert_eq!(ring.fraction(swept).unwrap_or_default(), share(0.5));

    ring.retarget(Some(share(0.1)), swept);

    assert_eq!(ring.label_fraction(swept), Some(share(0.5)));
    let rolled = after(swept, LABEL_TWEEN_MILLIS);
    assert_eq!(ring.label_fraction(rolled), None);
    let arc = ring.fraction(rolled).unwrap_or_default();
    assert!(arc < share(0.5) && arc > share(0.1));
    assert_eq!(ring.frame_interval(rolled), Some(RING_TWEEN_FRAME_MILLIS));
    let settled = after(swept, TWEEN_MILLIS);
    assert_eq!(ring.fraction(settled).unwrap_or_default(), share(0.1));
    assert_eq!(ring.frame_interval(settled), None);
}

#[test]
fn label_does_not_roll_when_the_target_becomes_unknown() {
    let start = at(1_000);
    let mut ring = RingState::new(start);
    ring.retarget(Some(share(0.4)), start);
    let swept = after(start, SWEEP_MILLIS);

    ring.retarget(None, swept);

    assert_eq!(ring.label_fraction(swept), None);
    assert_eq!(ring.frame_interval(swept), None);
}

#[test]
fn disabling_animations_stops_the_label_roll_too() {
    let start = at(1_000);
    let mut ring = RingState::new(start);
    ring.retarget(Some(share(0.5)), start);

    ring.set_enabled(false);

    assert_eq!(ring.label_fraction(start), None);
    assert_eq!(ring.fraction(start), Some(share(0.5)));
}

#[test]
fn pulse_phase_survives_long_running_reanchoring() {
    let start = at(1_000);
    let mut ring = RingState::new(start);
    let late = after(start, PULSE_PERIOD_MILLIS * 1_000_000 + PULSE_PERIOD_MILLIS / 4);

    let value = pulse_factor(&mut ring, late, true);

    assert!(
        (value - opacity(Duration::from_millis(PULSE_PERIOD_MILLIS / 4))).abs() < 1e-6
    );
}

#[test]
fn tween_frame_rate_wins_while_a_tween_and_pulse_overlap() {
    let start = at(1_000);
    let mut ring = RingState::new(start);
    ring.retarget(Some(share(0.2)), start);
    let later = after(start, 10);
    ring.retarget(Some(share(0.05)), later);
    assert!(pulse_factor(&mut ring, later, true) > 0.99);
    assert_eq!(ring.frame_interval(later), Some(RING_TWEEN_FRAME_MILLIS));
}

#[test]
fn hover_tween_fades_in_and_stops_asking_for_frames() {
    let start = at(1_000);
    let mut pointer = PointerState::new();

    pointer.set_targets(true, false, start);
    assert_eq!(pointer.sample(start).0, 0);
    assert!(pointer.tweening());

    let middle = pointer.sample(after(start, HOVER_TWEEN_MILLIS / 2)).0;
    assert!(middle > share(0.5));

    let settled = pointer.sample(after(start, HOVER_TWEEN_MILLIS)).0;
    assert_eq!(settled, UNIT);
    assert!(!pointer.tweening());
}

#[test]
fn hover_tween_fades_out_from_wherever_it_was() {
    let start = at(1_000);
    let mut pointer = PointerState::new();
    pointer.set_targets(true, false, start);
    let halfway = after(start, HOVER_TWEEN_MILLIS / 2);
    let value = pointer.sample(halfway).0;
    assert!(value > share(0.5) && value < UNIT);

    pointer.set_targets(false, false, halfway);
    assert_eq!(pointer.sample(halfway).0, value);
    assert_eq!(pointer.sample(after(halfway, HOVER_TWEEN_MILLIS)).0, 0);
}

#[test]
fn press_scales_in_faster_than_it_releases() {
    let start = at(1_000);
    let mut pointer = PointerState::new();

    pointer.set_targets(false, true, start);
    assert_eq!(pointer.sample(after(start, PRESS_TWEEN_MILLIS)).1, UNIT);

    let released = after(start, PRESS_TWEEN_MILLIS);
    pointer.set_targets(false, false, released);
    let mid_release = pointer.sample(after(released, PRESS_TWEEN_MILLIS)).1;
    assert!(mid_release > 0);
    assert_eq!(pointer.sample(after(released, RELEASE_TWEEN_MILLIS)).1, 0);
}

#[test]
fn disabled_animations_jump_the_pointer_state_to_its_target() {
    let start = at(1_000);
    let mut pointer = PointerState::new();
    pointer.set_enabled(false);

    pointer.set_targets(true, true, start);
    let (hover, press) = pointer.sample(start);
    assert_eq!(hover, UNIT);
    assert_eq!(press, UNIT);
    assert!(!pointer.tweening());
}

#[test]
fn spinner_rotates_while_pulling_and_stops_asking_for_frames() {
    let start = at(1_000);
    let mut ring = RingState::new(start);
    assert_eq!(ring.spin_phase(start, false), None);
    assert_eq!(ring.frame_interval(start), None);

    let phase = ring.spin_phase(start, true).unwrap();
    assert_eq!(phase, 0);
    assert_eq!(ring.frame_interval(start), Some(RING_SPIN_FRAME_MILLIS));

    let half = ring
        .spin_phase(after(start, SPIN_PERIOD_MILLIS / 2), true)
        .unwrap();
    assert_eq!(half, share(0.5));
    assert_eq!(ring.spin_phase(after(start, SPIN_PERIOD_MILLIS), false), None);
    assert_eq!(ring.frame_interval(after(start, SPIN_PERIOD_MILLIS)), None);
}

#[test]
fn exhausted_never_pulses_and_never_asks_for_frames() {
    let start = at(1_000);
    let mut ring = RingState::new(start);

    for offset in [
        0,
        PULSE_PERIOD_MILLIS / 2,
        PULSE_PERIOD_MILLIS,
        6 * 3_600_000,
    ] {
        let now = after(start, offset);
        assert!((pulse_factor(&mut ring, now, false) - 1.0).abs() < f32::EPSILON);
        assert_eq!(ring.frame_interval(now), None);
    }
}

#[test]
fn a_resweep_starts_from_zero_without_a_gap() {
    let start = at(1_000);
    let mut ring = RingState::new(start);
    ring.retarget(Some(share(0.4)), start);
    let swept = after(start, SWEEP_MILLIS);
    assert_eq!(ring.fraction(swept), Some(share(0.4)));
    ring.expect_resweep();
    ring.retarget(None, swept);
    assert_eq!(ring.fraction(swept), None);
    ring.retarget(Some(share(0.4)), swept);
    assert_eq!(ring.fraction(swept), Some(0));
}

#[test]
fn the_faster_of_two_intervals_drives_the_timer() {
    assert_eq!(faster_interval(Some(10), Some(100)), Some(10));
    assert_eq!(faster_interval(Some(100), Some(10)), Some(10));
    assert_eq!(faster_interval(None, Some(100)), Some(100));
    assert_eq!(faster_interval(Some(100), None), Some(100));
    assert_eq!(faster_interval(None, None), None);

    let start = at(1_000);
    let ring = RingState::new(start);
    let mut pointer = PointerState::new();
    assert_eq!(animation_frame_interval(&ring, &pointer, start), None);
    pointer.set_targets(true, false, start);
    assert_eq!(
        animation_frame_interval(&ring, &pointer, start),
        Some(RING_TWEEN_FRAME_MILLIS)
    );
}
