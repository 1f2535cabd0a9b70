use codex_quota::commands::{CMD_TEST_NOTIFY_BALANCE, CMD_TEST_NOTIFY_RESET};
use codex_quota::notify::{
    blind_gap_limit, format_credits, period_key, reset_windows, test_notification_for_command,
    window_reset, window_separator, Notification, NotificationSwitches, Notifier, NotifyState,
};
use codex_quota::quota::{QuotaSnapshot, QuotaWindow};
use codex_quota::time::{Duration, SystemTime};

// Times and spans are counted in whole seconds.
const HOUR: i128 = 3_600;
const FIVE_HOURS: i128 = 5 * HOUR;
const WEEK: i128 = 7 * 24 * HOUR;

fn mins(count: i128) -> i128 {
    count * 60
}

fn hours(count: i128) -> i128 {
    count * HOUR
}

fn base() -> i128 {
    hours(500_000)
}

fn time(secs: i128) -> SystemTime {
    SystemTime { nanos: secs * 1_000_000_000 }
}

fn span(secs: i128) -> Duration {
    Duration::from_secs(secs as u64)
}

fn millionths(value: f64) -> i64 {
    (value * 1e6).round() as i64
}

fn credits(value: f64) -> i64 {
    millionths(value)
}

fn reset(window: &str, remaining_percent: f64) -> Notification {
    Notification::Reset {
        window: window.to_owned(),
        remaining_percent: millionths(remaining_percent),
    }
}

fn overflow(amount: f64) -> Notification {
    Notification::Overflow { credits: credits(amount) }
}

fn window(used_percent: f64, duration: i128, resets_at: i128) -> QuotaWindow {
    QuotaWindow {
        used_percent: millionths(used_percent),
        window_duration: span(duration),
        resets_at: time(resets_at),
    }
}

fn snapshot(short: QuotaWindow, long: Option<QuotaWindow>, received_at: i128) -> QuotaSnapshot {
    QuotaSnapshot {
        limit_id: "codex".to_owned(),
        primary: short,
        secondary: long,
        received_at: time(received_at),
    }
}

fn weekly(resets_at: i128) -> QuotaWindow {
    window(0.0, WEEK, resets_at)
}

fn switches() -> NotificationSwitches {
    NotificationSwitches { reset: true, overflow: true }
}

fn observe(
    notifier: &mut Notifier,
    state: &mut NotifyState,
    snapshot: &QuotaSnapshot,
    amount: Option<f64>,
) -> Vec<Notification> {
    observe_with(notifier, state, snapshot, amount, switches())
}

fn observe_with(
    notifier: &mut Notifier,
    state: &mut NotifyState,
    snapshot: &QuotaSnapshot,
    amount: Option<f64>,
    switches: NotificationSwitches,
) -> Vec<Notification> {
    notifier
        .observe(
            state,
            Some(snapshot),
            amount.map(credits),
            switches,
            span(mins(5)),
            snapshot.received_at,
        )
        .notifications
}

fn observe_at(
    notifier: &mut Notifier,
    state: &mut NotifyState,
    snapshot: &QuotaSnapshot,
    amount: Option<f64>,
    now: i128,
) -> Vec<Notification> {
    notifier
        .observe(
            state,
            Some(snapshot),
            amount.map(credits),
            switches(),
            span(mins(5)),
            time(now),
        )
        .notifications
}

#[test]
fn five_hour_rollover_notifies() {
    let start = base();
    let mut notifier = Notifier::default();
    let mut state = NotifyState::default();
    let weekly_reset = start + WEEK;
    let noticed = start + mins(5);

    observe(
        &mut notifier,
        &mut state,
        &snapshot(
            window(80.0, FIVE_HOURS, start + FIVE_HOURS),
            Some(weekly(weekly_reset)),
            start,
        ),
        Some(0.0),
    );
    let notifications = observe(
        &mut notifier,
        &mut state,
        &snapshot(
            window(1.0, FIVE_HOURS, start + FIVE_HOURS * 2),
            Some(weekly(weekly_reset)),
            noticed,
        ),
        Some(0.0),
    );

    assert_eq!(
        notifications,
        vec![reset("5h", 99.0)]
    );
}

#[test]
fn weekly_rollover_notifies() {
    let start = base();
    let mut notifier = Notifier::default();
    let mut state = NotifyState::default();
    let noticed = start + mins(5);

    observe(
        &mut notifier,
        &mut state,
        &snapshot(
            window(10.0, FIVE_HOURS, start + FIVE_HOURS),
            Some(window(90.0, WEEK, start + WEEK)),
            start,
        ),
        Some(0.0),
    );
    let notifications = observe(
        &mut notifier,
        &mut state,
        &snapshot(
            window(10.0, FIVE_HOURS, start + FIVE_HOURS),
            Some(window(0.0, WEEK, start + WEEK * 2)),
            noticed,
        ),
        Some(0.0),
    );

    assert_eq!(
        notifications,
        vec![reset("周", 100.0)]
    );
}

#[test]
fn a_five_hour_rollover_does_not_notify_while_the_weekly_window_is_exhausted() {
    let start = base();
    let mut notifier = Notifier::default();
    let mut state = NotifyState::default();
    let weekly_reset = start + WEEK;

    observe(
        &mut notifier,
        &mut state,
        &snapshot(
            window(45.0, FIVE_HOURS, start + FIVE_HOURS),
            Some(window(100.0, WEEK, weekly_reset)),
            start,
        ),
        Some(0.0),
    );
    let notifications = observe(
        &mut notifier,
        &mut state,
        &snapshot(
            window(0.0, FIVE_HOURS, start + FIVE_HOURS * 2),
            Some(window(100.0, WEEK, weekly_reset)),
            start + mins(5),
        ),
        Some(0.0),
    );

    assert!(
        notifications.is_empty()
    );
}

#[test]
fn the_rollover_that_restores_capacity_still_notifies() {
    let start = base();
    let mut notifier = Notifier::default();
    let mut state = NotifyState::default();
    let weekly_reset = start + WEEK;
    let short = || window(0.0, FIVE_HOURS, start + FIVE_HOURS * 2);

    observe(
        &mut notifier,
        &mut state,
        &snapshot(
            window(45.0, FIVE_HOURS, start + FIVE_HOURS),
            Some(window(100.0, WEEK, weekly_reset)),
            start,
        ),
        Some(0.0),
    );
    assert!(
        observe(
            &mut notifier,
            &mut state,
            &snapshot(
                short(),
                Some(window(100.0, WEEK, weekly_reset)),
                start + mins(5),
            ),
            Some(0.0),
        )
        .is_empty()
    );
    let notifications = observe(
        &mut notifier,
        &mut state,
        &snapshot(
            short(),
            Some(window(0.0, WEEK, weekly_reset + WEEK)),
            start + mins(10),
        ),
        Some(0.0),
    );

    assert_eq!(
        notifications,
        vec![reset("周", 100.0)]
    );
}

#[test]
fn a_weekly_rollover_does_not_notify_while_the_five_hour_window_is_exhausted() {
    let start = base();
    let mut notifier = Notifier::default();
    let mut state = NotifyState::default();
    let weekly_reset = start + mins(5);
    let short = window(100.0, FIVE_HOURS, start + FIVE_HOURS);

    observe(
        &mut notifier,
        &mut state,
        &snapshot(short.clone(), Some(window(90.0, WEEK, weekly_reset)), start),
        Some(0.0),
    );
    let notifications = observe(
        &mut notifier,
        &mut state,
        &snapshot(
            short,
            Some(window(0.0, WEEK, weekly_reset + WEEK)),
            start + mins(10),
        ),
        Some(0.0),
    );
    assert!(
        notifications.is_empty()
    );
    let notifications = observe(
        &mut notifier,
        &mut state,
        &snapshot(
            window(0.0, FIVE_HOURS, start + FIVE_HOURS * 2),
            Some(window(0.0, WEEK, weekly_reset + WEEK)),
            start + mins(15),
        ),
        Some(0.0),
    );

    assert_eq!(
        notifications,
        vec![reset("5h", 100.0)]
    );
}

#[test]
fn rolling_both_windows_in_one_frame_notifies_for_both() {
    let start = base();
    let mut notifier = Notifier::default();
    let mut state = NotifyState::default();

    observe(
        &mut notifier,
        &mut state,
        &snapshot(
            window(45.0, FIVE_HOURS, start + FIVE_HOURS),
            Some(window(100.0, WEEK, start + WEEK)),
            start,
        ),
        Some(0.0),
    );
    let notifications = observe(
        &mut notifier,
        &mut state,
        &snapshot(
            window(0.0, FIVE_HOURS, start + FIVE_HOURS * 2),
            Some(window(0.0, WEEK, start + WEEK * 2)),
            start + mins(5),
        ),
        Some(0.0),
    );

    assert_eq!(
        notifications,
        vec![
            reset("5h", 100.0),
            reset("周", 100.0),
        ]
    );
}

#[test]
fn a_single_window_account_still_notifies_on_a_rollover() {
    let start = base();
    let mut notifier = Notifier::default();
    let mut state = NotifyState::default();
    observe(
        &mut notifier,
        &mut state,
        &snapshot(window(80.0, FIVE_HOURS, start + FIVE_HOURS), None, start),
        Some(0.0),
    );
    let notifications = observe(
        &mut notifier,
        &mut state,
        &snapshot(
            window(1.0, FIVE_HOURS, start + FIVE_HOURS * 2),
            None,
            start + mins(5),
        ),
        Some(0.0),
    );

    assert_eq!(
        notifications,
        vec![reset("5h", 99.0)]
    );
}

#[test]
fn an_expired_blocking_window_does_not_suppress_the_reset() {
    let start = base();
    let mut notifier = Notifier::default();
    let mut state = NotifyState::default();
    let stale_weekly = window(100.0, WEEK, start + mins(3));

    observe(
        &mut notifier,
        &mut state,
        &snapshot(
            window(45.0, FIVE_HOURS, start + FIVE_HOURS),
            Some(stale_weekly.clone()),
            start,
        ),
        Some(0.0),
    );
    let notifications = observe(
        &mut notifier,
        &mut state,
        &snapshot(
            window(0.0, FIVE_HOURS, start + FIVE_HOURS * 2),
            Some(stale_weekly),
            start + mins(8),
        ),
        Some(0.0),
    );

    assert_eq!(
        notifications,
        vec![reset("5h", 100.0)]
    );
}

#[test]
fn account_switch_without_a_boundary_jump_does_not_notify() {
    let start = base();
    let mut notifier = Notifier::default();
    let mut state = NotifyState::default();

    observe(
        &mut notifier,
        &mut state,
        &snapshot(
            window(80.0, FIVE_HOURS, start + FIVE_HOURS),
            Some(weekly(start + WEEK)),
            start,
        ),
        Some(0.0),
    );
    let notifications = observe(
        &mut notifier,
        &mut state,
        &snapshot(
            window(3.0, FIVE_HOURS, start + FIVE_HOURS),
            Some(weekly(start + WEEK)),
            start + HOUR,
        ),
        Some(0.0),
    );

    assert!(
        notifications.is_empty()
    );
}

#[test]
fn a_changed_window_length_is_not_a_rollover() {
    let start = base();
    let mut notifier = Notifier::default();
    let mut state = NotifyState::default();

    observe(
        &mut notifier,
        &mut state,
        &snapshot(
            window(80.0, FIVE_HOURS, start + FIVE_HOURS),
            Some(weekly(start + WEEK)),
            start,
        ),
        Some(0.0),
    );
    let notifications = observe(
        &mut notifier,
        &mut state,
        &snapshot(
            window(1.0, hours(10), start + FIVE_HOURS * 2),
            Some(weekly(start + WEEK)),
            start + FIVE_HOURS,
        ),
        Some(0.0),
    );

    assert!(
        notifications.is_empty()
    );
}

#[test]
fn a_long_blind_gap_is_not_backfilled() {
    let start = base();
    let mut notifier = Notifier::default();
    let mut state = NotifyState::default();

    observe(
        &mut notifier,
        &mut state,
        &snapshot(
            window(100.0, FIVE_HOURS, start + FIVE_HOURS),
            Some(weekly(start + WEEK)),
            start,
        ),
        Some(0.0),
    );
    let notifications = observe(
        &mut notifier,
        &mut state,
        &snapshot(
            window(1.0, FIVE_HOURS, start + FIVE_HOURS * 2),
            Some(weekly(start + WEEK)),
            start + hours(3),
        ),
        Some(0.0),
    );

    assert!(
        notifications.is_empty()
    );
}

#[test]
fn the_first_observation_never_notifies() {
    let start = base();
    let mut notifier = Notifier::default();
    let mut state = NotifyState::default();

    let notifications = observe(
        &mut notifier,
        &mut state,
        &snapshot(
            window(1.0, FIVE_HOURS, start + FIVE_HOURS),
            Some(weekly(start + WEEK)),
            start,
        ),
        Some(0.0),
    );

    assert!(notifications.is_empty());
}

#[test]
fn a_refresh_interval_longer_than_the_floor_still_observes() {
    let start = base();
    let mut notifier = Notifier::default();
    let mut state = NotifyState::default();
    let long_interval = mins(30);

    notifier.observe(
        &mut state,
        Some(&snapshot(
            window(80.0, FIVE_HOURS, start + FIVE_HOURS),
            Some(weekly(start + WEEK)),
            start,
        )),
        Some(credits(0.0)),
        switches(),
        span(long_interval),
        time(start),
    );
    let noticed = start + mins(50);
    let outcome = notifier.observe(
        &mut state,
        Some(&snapshot(
            window(1.0, FIVE_HOURS, start + FIVE_HOURS * 2),
            Some(weekly(start + WEEK)),
            noticed,
        )),
        Some(credits(0.0)),
        switches(),
        span(long_interval),
        time(noticed),
    );

    assert_eq!(outcome.notifications.len(), 1);
}

#[test]
fn unreliable_overflow_data_neither_notifies_nor_consumes_the_period() {
    let start = base();
    let mut notifier = Notifier::default();
    let mut state = NotifyState::default();
    let first = snapshot(
        window(10.0, FIVE_HOURS, start + FIVE_HOURS),
        Some(weekly(start + WEEK)),
        start,
    );
    let second = snapshot(
        window(9.0, FIVE_HOURS, start + FIVE_HOURS),
        Some(weekly(start + WEEK)),
        start + mins(1),
    );

    observe(&mut notifier, &mut state, &first, Some(0.0));
    assert!(observe(&mut notifier, &mut state, &second, None).is_empty());
    let notifications = observe(&mut notifier, &mut state, &second, Some(1.0));

    assert_eq!(
        notifications,
        vec![overflow(1.0)]
    );
}

#[test]
fn overflow_notifies_once_per_period() {
    let start = base();
    let mut notifier = Notifier::default();
    let mut state = NotifyState::default();
    let period = Some(weekly(start + WEEK));
    let first = snapshot(
        window(10.0, FIVE_HOURS, start + FIVE_HOURS),
        period.clone(),
        start,
    );
    let second = snapshot(
        window(9.0, FIVE_HOURS, start + FIVE_HOURS),
        period,
        start + mins(1),
    );

    observe(&mut notifier, &mut state, &first, Some(0.0));
    assert_eq!(
        observe(&mut notifier, &mut state, &second, Some(1.5)).len(),
        1
    );
    assert!(
        observe(&mut notifier, &mut state, &second, Some(5.0)).is_empty()
    );
}

#[test]
fn overflow_at_startup_is_not_backfilled() {
    let start = base();
    let mut notifier = Notifier::default();
    let mut state = NotifyState::default();
    let snapshot = snapshot(
        window(10.0, FIVE_HOURS, start + FIVE_HOURS),
        Some(weekly(start + WEEK)),
        start,
    );
    let notifications = observe(&mut notifier, &mut state, &snapshot, Some(5.0));

    assert!(
        notifications.is_empty()
    );
}

#[test]
fn overflow_rearms_in_a_new_period() {
    let start = base();
    let mut notifier = Notifier::default();
    let mut state = NotifyState::default();
    let first = snapshot(
        window(10.0, FIVE_HOURS, start + FIVE_HOURS),
        Some(weekly(start + WEEK)),
        start,
    );
    let second = snapshot(
        window(9.0, FIVE_HOURS, start + FIVE_HOURS),
        Some(weekly(start + WEEK)),
        start + mins(1),
    );
    let next_period = snapshot(
        window(0.0, FIVE_HOURS, start + FIVE_HOURS * 2),
        Some(weekly(start + WEEK * 2)),
        start + mins(2),
    );

    observe(&mut notifier, &mut state, &first, Some(0.0));
    assert_eq!(
        observe(&mut notifier, &mut state, &second, Some(1.5)).len(),
        1
    );
    let rolled = observe(&mut notifier, &mut state, &next_period, Some(0.0));
    assert!(
        !rolled.is_empty()
            && rolled
                .iter()
                .all(|item| matches!(item, Notification::Reset { .. }))
    );

    let notifications = observe(&mut notifier, &mut state, &next_period, Some(2.5));

    assert_eq!(notifications, vec![overflow(2.5)]);
}

#[test]
fn a_disabled_switch_consumes_the_event_without_notifying() {
    let start = base();
    let mut notifier = Notifier::default();
    let mut state = NotifyState::default();
    let first = snapshot(
        window(10.0, FIVE_HOURS, start + FIVE_HOURS),
        Some(weekly(start + WEEK)),
        start,
    );
    let second = snapshot(
        window(9.0, FIVE_HOURS, start + FIVE_HOURS),
        Some(weekly(start + WEEK)),
        start + mins(1),
    );
    let off = NotificationSwitches {
        reset: true,
        overflow: false,
    };

    observe(&mut notifier, &mut state, &first, Some(0.0));
    let outcome = notifier.observe(
        &mut state,
        Some(&second),
        Some(credits(1.5)),
        off,
        span(mins(5)),
        second.received_at,
    );
    assert!(outcome.notifications.is_empty());
    assert!(
        outcome.state_dirty
    );
    assert!(observe(&mut notifier, &mut state, &second, Some(5.0)).is_empty());
}

#[test]
fn a_disabled_reset_switch_suppresses_the_reset_notification() {
    let start = base();
    let mut notifier = Notifier::default();
    let mut state = NotifyState::default();
    let off = NotificationSwitches {
        reset: false,
        overflow: true,
    };

    observe_with(
        &mut notifier,
        &mut state,
        &snapshot(
            window(80.0, FIVE_HOURS, start + FIVE_HOURS),
            Some(weekly(start + WEEK)),
            start,
        ),
        Some(0.0),
        off,
    );
    let notifications = observe_with(
        &mut notifier,
        &mut state,
        &snapshot(
            window(1.0, FIVE_HOURS, start + FIVE_HOURS * 2),
            Some(weekly(start + WEEK)),
            start + FIVE_HOURS,
        ),
        Some(0.0),
        off,
    );

    assert!(notifications.is_empty());
}

#[test]
fn a_persisted_period_key_prevents_a_repeat_after_a_cache_rebuild() {
    let start = base();
    let mut notifier = Notifier::default();
    let mut state = NotifyState {
        notified_overflow_period: period_key(&snapshot(
            window(10.0, FIVE_HOURS, start + FIVE_HOURS),
            Some(weekly(start + WEEK)),
            start,
        )),
        ..NotifyState::default()
    };
    let current = snapshot(
        window(10.0, FIVE_HOURS, start + FIVE_HOURS),
        Some(weekly(start + WEEK)),
        start,
    );
    observe(&mut notifier, &mut state, &current, Some(0.0));

    assert!(observe(&mut notifier, &mut state, &current, Some(3.0)).is_empty());
}

#[test]
fn without_a_long_window_the_overflow_notification_stays_off() {
    let start = base();
    let mut notifier = Notifier::default();
    let mut state = NotifyState::default();
    let snapshot = snapshot(window(10.0, FIVE_HOURS, start + FIVE_HOURS), None, start);

    observe(&mut notifier, &mut state, &snapshot, Some(0.0));

    assert!(observe(&mut notifier, &mut state, &snapshot, Some(5.0)).is_empty());
}

#[test]
fn a_long_observation_gap_disarms_the_overflow_baseline() {
    let start = base();
    let mut notifier = Notifier::default();
    let mut state = NotifyState::default();
    let window_snapshot = |received_at: i128| {
        snapshot(
            window(10.0, FIVE_HOURS, start + FIVE_HOURS),
            Some(weekly(start + WEEK)),
            received_at,
        )
    };

    observe(
        &mut notifier,
        &mut state,
        &window_snapshot(start),
        Some(0.0),
    );
    let after_sleep = start + hours(3);
    assert!(
        observe(
            &mut notifier,
            &mut state,
            &window_snapshot(after_sleep),
            Some(5.0)
        )
        .is_empty()
    );
    let resumed = after_sleep + mins(1);
    observe(
        &mut notifier,
        &mut state,
        &window_snapshot(resumed),
        Some(5.0),
    );
    let armed = resumed + mins(1);
    observe(
        &mut notifier,
        &mut state,
        &window_snapshot(armed),
        Some(0.0),
    );
    let spent = armed + mins(1);
    let notifications = observe(
        &mut notifier,
        &mut state,
        &window_snapshot(spent),
        Some(6.0),
    );

    assert_eq!(
        notifications,
        vec![overflow(6.0)]
    );
}

#[test]
fn a_long_observation_gap_keeps_a_published_stale_snapshot_from_backfilling() {
    let start = base();
    let mut notifier = Notifier::default();
    let mut state = NotifyState::default();
    let before_sleep = snapshot(
        window(10.0, FIVE_HOURS, start + FIVE_HOURS),
        Some(weekly(start + WEEK)),
        start,
    );

    observe(&mut notifier, &mut state, &before_sleep, Some(0.0));
    let wake = start + hours(3);
    assert!(
        observe_at(&mut notifier, &mut state, &before_sleep, Some(5.0), wake).is_empty()
    );
    let fresh = snapshot(
        window(10.0, FIVE_HOURS, start + FIVE_HOURS),
        Some(weekly(start + WEEK)),
        wake,
    );
    assert!(
        observe_at(
            &mut notifier,
            &mut state,
            &fresh,
            Some(5.0),
            wake + mins(1),
        )
        .is_empty()
    );
}

#[test]
fn a_stale_zero_reading_cannot_rearm_the_overflow_baseline() {
    let start = base();
    let mut notifier = Notifier::default();
    let mut state = NotifyState::default();
    let before_sleep = snapshot(
        window(10.0, FIVE_HOURS, start + FIVE_HOURS),
        Some(weekly(start + WEEK)),
        start,
    );

    observe(&mut notifier, &mut state, &before_sleep, Some(0.0));
    let wake = start + hours(3);
    assert!(observe_at(&mut notifier, &mut state, &before_sleep, Some(0.0), wake).is_empty());
    let fresh = snapshot(
        window(10.0, FIVE_HOURS, start + FIVE_HOURS),
        Some(weekly(start + WEEK)),
        wake + mins(1),
    );
    assert!(
        observe_at(
            &mut notifier,
            &mut state,
            &fresh,
            Some(5.0),
            wake + mins(1),
        )
        .is_empty()
    );
    let rearmed = wake + mins(2);
    observe_at(&mut notifier, &mut state, &fresh, Some(0.0), rearmed);
    let spent = wake + mins(3);
    let notifications = observe_at(&mut notifier, &mut state, &fresh, Some(5.0), spent);

    assert_eq!(notifications, vec![overflow(5.0)]);
}

#[test]
fn a_stale_reading_invalidates_the_overflow_baseline() {
    let start = base();
    let mut notifier = Notifier::default();
    let mut state = NotifyState::default();
    let weekly_window = || Some(weekly(start + WEEK));
    let short_window = || window(10.0, FIVE_HOURS, start + FIVE_HOURS);
    let outdated = snapshot(
        short_window(),
        weekly_window(),
        start - hours(3),
    );
    observe(
        &mut notifier,
        &mut state,
        &snapshot(short_window(), weekly_window(), start),
        Some(0.0),
    );
    for minutes in [10, 20] {
        let now = start + mins(minutes);
        assert!(
            observe_at(&mut notifier, &mut state, &outdated, Some(0.0), now).is_empty()
        );
    }
    let recovered = start + mins(21);
    assert!(
        observe_at(
            &mut notifier,
            &mut state,
            &snapshot(short_window(), weekly_window(), recovered),
            Some(5.0),
            recovered,
        )
        .is_empty()
    );
    let rearm_at = recovered + mins(1);
    observe_at(
        &mut notifier,
        &mut state,
        &snapshot(short_window(), weekly_window(), rearm_at),
        Some(0.0),
        rearm_at,
    );
    let spent = rearm_at + mins(1);
    let notifications = observe_at(
        &mut notifier,
        &mut state,
        &snapshot(short_window(), weekly_window(), spent),
        Some(5.0),
        spent,
    );

    assert_eq!(notifications, vec![overflow(5.0)]);
}

#[test]
fn resetting_the_notifier_drops_the_previous_snapshot() {
    let start = base();
    let mut notifier = Notifier::default();
    let mut state = NotifyState::default();
    observe(
        &mut notifier,
        &mut state,
        &snapshot(
            window(80.0, FIVE_HOURS, start + FIVE_HOURS),
            Some(weekly(start + WEEK)),
            start,
        ),
        Some(0.0),
    );

    notifier.reset();
    let notifications = observe(
        &mut notifier,
        &mut state,
        &snapshot(
            window(1.0, FIVE_HOURS, start + FIVE_HOURS * 2),
            Some(weekly(start + WEEK)),
            start + FIVE_HOURS,
        ),
        Some(0.0),
    );

    assert!(
        notifications.is_empty()
    );
}

#[test]
fn balloon_text_carries_the_window_and_the_amount() {
    let five_hour = reset("5h", 99.4);
    assert_eq!(
        five_hour.balloon_text("本周"),
        ("额度已重置", "5h 窗口已重置，当前剩余 99%".to_owned())
    );
    let weekly = reset("周", 100.0);
    assert_eq!(weekly.balloon_text("本周").1, "周窗口已重置，当前剩余 100%");

    let (title, body) = overflow(310.25).balloon_text("本周");
    assert_eq!(title, "已开始动用余额");
    assert_eq!(body, "本周已扣 310.25 credits（约 $12.41）");
}
#[test]
fn overflow_balloon_uses_the_panel_period_wording() {
    let overflow = overflow(1.0);
    assert_eq!(
        overflow.balloon_text("本周").1,
        "本周已扣 1 credits（约 $0.04）"
    );
    assert_eq!(
        overflow.balloon_text("本月").1,
        "本月已扣 1 credits（约 $0.04）"
    );
    assert_eq!(
        overflow.balloon_text("本期").1,
        "本期已扣 1 credits（约 $0.04）"
    );
}

#[test]
fn credits_drop_the_ledger_decimals_but_keep_cents() {
    assert_eq!(format_credits(credits(310.0)), "310");
    assert_eq!(format_credits(credits(310.249_999_999_999_94)), "310.25");
    assert_eq!(format_credits(credits(0.5)), "0.50");
}

#[test]
fn window_separator_only_follows_latin_names() {
    assert_eq!(window_separator("5h"), " ");
    assert_eq!(window_separator("3天"), "");
    assert_eq!(window_separator("周"), "");
    assert_eq!(window_separator("月"), "");
    assert_eq!(window_separator("2周"), "");
}
#[test]
fn only_the_two_test_commands_map_to_test_notifications() {
    assert_eq!(
        test_notification_for_command(CMD_TEST_NOTIFY_RESET),
        Some(reset("5h", 99.0))
    );
    assert_eq!(
        test_notification_for_command(CMD_TEST_NOTIFY_BALANCE),
        Some(overflow(310.25))
    );
    assert_eq!(test_notification_for_command(0), None);
    assert_eq!(test_notification_for_command(1001), None);
}

#[test]
fn a_windowless_period_key_is_none_and_a_weekly_one_is_the_reset_time() {
    let start = base();
    let only = window(50.0, FIVE_HOURS, start + FIVE_HOURS);
    assert_eq!(period_key(&snapshot(only.clone(), None, start)), None);

    let expected =
        i64::try_from(start + WEEK).unwrap();
    assert_eq!(
        period_key(&snapshot(only, Some(weekly(start + WEEK)), start)),
        Some(expected)
    );
}

#[test]
fn the_blind_gap_is_two_refresh_intervals_but_never_short() {
    assert_eq!(blind_gap_limit(span(mins(5))), span(mins(15)));
    assert_eq!(blind_gap_limit(span(mins(30))), span(mins(60)));
}

#[test]
fn only_a_boundary_that_moves_by_one_window_is_a_reset() {
    let start = base();
    let before = window(50.0, FIVE_HOURS, start + FIVE_HOURS);
    assert!(window_reset(&before, &window(0.0, FIVE_HOURS, start + FIVE_HOURS * 2)));
    assert!(!window_reset(&before, &before));
    assert!(!window_reset(&before, &window(0.0, WEEK, start + FIVE_HOURS * 2)));
    let old = snapshot(before, Some(weekly(start + WEEK)), start);
    let new = snapshot(
        window(0.0, FIVE_HOURS, start + FIVE_HOURS * 2),
        Some(weekly(start + WEEK)),
        start + mins(1),
    );
    let windows = reset_windows(&old, &new);
    assert_eq!(windows.len(), 1);
    assert_eq!(windows[0].window_duration, span(FIVE_HOURS));
    assert!(reset_windows(&old, &old).is_empty());
}

#[test]
fn a_negative_amount_keeps_its_sign() {
    assert_eq!(format_credits(credits(-0.5)), "-0.50");
    assert_eq!(format_credits(0), "0");
}
