use codex_quota::config::UnitStyle;
use codex_quota::fixed::DIP;
use codex_quota::presentation::{
    ball_is_pulling, ball_quota, display_period_total_token_estimate, display_period_total_value,
    display_windows, format_calendar_time, format_compact_countdown, format_local_timestamp,
    format_reset_column, format_token_count, format_token_usage, format_usd, panel_height_dip,
    panel_title, period_label, period_labels, plan_type_color, plan_type_label,
    quota_window_label, today_overflow_visible, CalendarTime, PlanColor,
    COMPACT_PANEL_HEIGHT_DIP,
};
use codex_quota::quota::{
    AppState, ConnectionStatus, QuotaColor, QuotaPull, QuotaSnapshot, QuotaWindow,
};
use codex_quota::time::{Duration, SystemTime};

// Times and spans are counted in whole seconds.
const EPOCH: i128 = 0;

const LOCAL: Option<CalendarTime> = Some(CalendarTime {
    year: 2026,
    month: 11,
    day: 5,
    hour: 9,
    minute: 7,
    second: 30,
});

fn mins(count: i128) -> i128 {
    count * 60
}

fn hours(count: i128) -> i128 {
    count * 3_600
}

fn time(secs: i128) -> SystemTime {
    SystemTime { nanos: secs * 1_000_000_000 }
}

fn span(secs: i128) -> Duration {
    Duration::from_secs(secs as u64)
}

fn millionths(value: f64) -> i64 {
    (value * 1e6).round() as i64
}

fn countdown(secs: i128) -> String {
    format_compact_countdown(span(secs))
}

fn window(duration: i128) -> QuotaWindow {
    quota_window(10.0, duration)
}

#[test]
fn overflow_rows_stay_hidden_until_usage_or_cost_is_nonzero() {
    assert!(!today_overflow_visible(&AppState::default()));

    let zero = AppState {
        today_overflow_tokens: Some(0),
        today_overflow_cost: Some(millionths(0.0)),
        ..AppState::default()
    };
    assert!(!today_overflow_visible(&zero));

    let tokens_only = AppState {
        today_overflow_tokens: Some(100),
        ..AppState::default()
    };
    assert!(today_overflow_visible(&tokens_only));
    let cost_only = AppState {
        today_overflow_tokens: Some(0),
        today_overflow_cost: Some(millionths(0.4)),
        ..AppState::default()
    };
    assert!(today_overflow_visible(&cost_only));
}

#[test]
fn panel_height_shrinks_with_hidden_overflow_rows() {
    assert!(panel_height_dip(&AppState::default()) == 227 * DIP);

    let one_overflow_row = AppState {
        current_period_overflow_tokens: Some(200),
        ..AppState::default()
    };
    assert!(panel_height_dip(&one_overflow_row) == 254 * DIP);

    let both_overflow_rows = AppState {
        today_overflow_tokens: Some(1),
        current_period_overflow_cost: Some(millionths(0.4)),
        ..AppState::default()
    };
    assert!(panel_height_dip(&both_overflow_rows) == 281 * DIP);
}

#[test]
fn compact_panel_height_constant_matches_the_six_row_panel() {
    assert_eq!(COMPACT_PANEL_HEIGHT_DIP, 227 * DIP);
    assert_eq!(COMPACT_PANEL_HEIGHT_DIP, panel_height_dip(&AppState::default()));
}

#[test]
fn calendar_time_omits_year_and_seconds() {
    let value = format_calendar_time(&CalendarTime {
        year: 2026,
        month: 8,
        day: 6,
        hour: 0,
        minute: 1,
        second: 2,
    });
    assert_eq!(value, "08/06 00:01");
}

#[test]
fn token_count_below_ten_thousand_stays_unscaled() {
    assert_eq!(format_token_count(4_280, UnitStyle::Zh), "4280");
}

#[test]
fn token_count_uses_ten_thousand_unit() {
    assert_eq!(format_token_count(42_803_000, UnitStyle::Zh), "4280.3万");
}
#[test]
fn today_usage_has_no_unit_suffix() {
    assert_eq!(
        format_token_usage(Some(42_803_000), UnitStyle::Zh),
        "4280.3万"
    );
    assert_eq!(format_token_usage(Some(42_803_000), UnitStyle::En), "42.8M");
    assert_eq!(format_token_usage(None, UnitStyle::Zh), "--");
    assert_eq!(format_token_usage(None, UnitStyle::En), "--");
}

#[test]
fn usd_format_drops_cents_at_hundred_dollars_and_above() {
    assert_eq!(format_usd(Some(millionths(1.234))), "$1.23");
    assert_eq!(format_usd(Some(millionths(45.67))), "$45.67");
    assert_eq!(format_usd(Some(millionths(1145.67))), "$1146");
    assert_eq!(format_usd(Some(millionths(12345.6))), "$12346");
    assert_eq!(format_usd(Some(millionths(0.004))), "$0.00");
    assert_eq!(format_usd(Some(millionths(-0.0))), "$0.00");
    assert_eq!(format_usd(Some(millionths(0.0))), "$0.00");
    assert_eq!(format_usd(None), "--");
}

#[test]
fn token_count_uses_hundred_million_unit() {
    assert_eq!(format_token_count(128_000_000, UnitStyle::Zh), "1.3亿");
}

#[test]
fn token_count_omits_zero_decimal() {
    assert_eq!(format_token_count(100_000_000, UnitStyle::Zh), "1亿");
}

#[test]
fn zero_token_count_remains_zero() {
    assert_eq!(format_token_count(0, UnitStyle::Zh), "0");
}
#[test]
fn western_token_units_step_at_each_thousand() {
    assert_eq!(format_token_count(999, UnitStyle::En), "999");
    assert_eq!(format_token_count(1_000, UnitStyle::En), "1K");
    assert_eq!(format_token_count(1_240, UnitStyle::En), "1.2K");
    assert_eq!(format_token_count(516_200, UnitStyle::En), "516.2K");
    assert_eq!(format_token_count(999_999, UnitStyle::En), "1000K");
    assert_eq!(format_token_count(1_000_000, UnitStyle::En), "1M");
    assert_eq!(format_token_count(516_200_000, UnitStyle::En), "516.2M");
    assert_eq!(format_token_count(1_000_000_000, UnitStyle::En), "1B");
    assert_eq!(format_token_count(0, UnitStyle::En), "0");
}
#[test]
fn chinese_token_units_step_at_ten_thousand() {
    assert_eq!(format_token_count(9_999, UnitStyle::Zh), "9999");
    assert_eq!(format_token_count(10_000, UnitStyle::Zh), "1万");
    assert_eq!(format_token_count(99_999_999, UnitStyle::Zh), "10000万");
    assert_eq!(format_token_count(516_200_000, UnitStyle::Zh), "5.2亿");
}
#[test]
fn reset_countdown_uses_two_units_without_seconds() {
    let minutes = |count: i128| mins(count);
    assert_eq!(
        countdown(minutes(1_440) + minutes(360)),
        "1d6h"
    );
    assert_eq!(countdown(minutes(1_440)), "1d");
    assert_eq!(
        countdown(minutes(9 * 1_440 + 23 * 60)),
        "9d23h"
    );
    assert_eq!(countdown(minutes(10 * 1_440)), "10d");
    assert_eq!(
        countdown(minutes(31 * 1_440 + 23 * 60)),
        "31d"
    );
    assert_eq!(countdown(minutes(6 * 60 + 30)), "6h30m");
    assert_eq!(countdown(minutes(60 + 30)), "1h30m");
    assert_eq!(countdown(minutes(6 * 60)), "6h");
    assert_eq!(countdown(minutes(6)), "6m");
    assert_eq!(countdown(59), "<1m");
    assert_eq!(countdown(0), "<1m");
}
#[test]
fn reset_column_appends_the_countdown_only_when_asked() {
    let now = hours(480_000);
    let window = QuotaWindow {
        used_percent: millionths(40.0),
        window_duration: span(hours(5)),
        resets_at: time(now + hours(30)),
    };
    let plain = format_reset_column(&window, time(now), false, LOCAL);
    assert!(!plain.contains('('));
    let with_countdown = format_reset_column(&window, time(now), true, LOCAL);
    assert_eq!(with_countdown, format!("{plain} (1d6h)"));
}
#[test]
fn period_label_follows_the_long_term_window() {
    let window = |count: i128| QuotaWindow {
        used_percent: millionths(40.0),
        window_duration: span(hours(count)),
        resets_at: time(EPOCH + hours(1_000)),
    };
    assert_eq!(period_label(Some(&window(24 * 7)), None), "本周");
    assert_eq!(period_label(Some(&window(24 * 30)), None), "本月");
    assert_eq!(period_label(Some(&window(24 * 14)), None), "本2周");
    assert_eq!(period_label(Some(&window(24 * 3)), None), "本3天");
    assert_eq!(period_label(Some(&window(24 * 90)), None), "本90天");
    assert_eq!(period_label(Some(&window(5)), None), "本期");
}
#[test]
fn period_label_falls_back_the_same_way_as_the_window_label() {
    assert_eq!(period_label(None, Some("free")), "本月");
    assert_eq!(period_label(None, Some("plus")), "本周");
    assert_eq!(period_label(None, None), "本周");
    assert_eq!(quota_window_label(None, Some("free"), false), "月额度");
    assert_eq!(quota_window_label(None, Some("plus"), false), "周额度");
}
#[test]
fn period_label_agrees_with_the_window_label_for_every_duration() {
    for count in [5, 24, 24 * 3, 24 * 7, 24 * 14, 24 * 30, 24 * 31, 24 * 90] {
        let window = QuotaWindow {
            used_percent: millionths(40.0),
            window_duration: span(hours(count)),
            resets_at: time(EPOCH + hours(1_000)),
        };
        let window_label = window.window_label();
        let period = period_label(Some(&window), None);
        let stem = window_label
            .strip_suffix("额度")
            .unwrap();
        if stem == "5h" {
            assert_eq!(period, "本期", "{count}h");
        } else {
            assert_eq!(period, format!("本{stem}"), "{count}h");
        }
    }
}
#[test]
fn period_row_labels_carry_the_full_row_name() {
    let window = |count: i128| QuotaWindow {
        used_percent: millionths(40.0),
        window_duration: span(hours(count)),
        resets_at: time(EPOCH + hours(1_000)),
    };

    let weekly = period_labels(Some(&window(24 * 7)), None);
    assert_eq!(weekly.usage, "本周使用");
    assert_eq!(weekly.overflow, "本周超额");
    assert_eq!(weekly.estimate, "本周估值");

    let monthly = period_labels(Some(&window(24 * 30)), None);
    assert_eq!(monthly.usage, "本月使用");
    assert_eq!(monthly.overflow, "本月超额");
    assert_eq!(monthly.estimate, "本月估值");

    assert_eq!(period_labels(Some(&window(5)), None).usage, "本期使用");
    assert_eq!(period_labels(None, Some("free")).usage, "本月使用");
    assert_eq!(period_labels(None, Some("plus")).usage, "本周使用");
}
#[test]
fn reset_column_matches_the_requested_shape() {
    let now = hours(480_000);
    let column = |remaining: i128| {
        format_reset_column(
            &QuotaWindow {
                used_percent: millionths(40.0),
                window_duration: span(hours(5)),
                resets_at: time(now + remaining),
            },
            time(now),
            true,
            LOCAL,
        )
    };
    assert!(column(hours(30)).ends_with(" (1d6h)"));
    assert!(column(hours(6)).ends_with(" (6h)"));
    assert!(column(mins(90)).ends_with(" (1h30m)"));
    assert!(column(mins(6)).ends_with(" (6m)"));
}

#[test]
fn plan_type_uses_friendly_pro_label() {
    assert_eq!(plan_type_label("pro"), "Pro");
}

#[test]
fn online_title_includes_plan_without_quota_suffix() {
    let state = AppState {
        status: ConnectionStatus::Online,
        plan_type: Some("plus".to_owned()),
        ..AppState::default()
    };

    assert_eq!(panel_title(&state), ("Codex", Some("plus")));
}

#[test]
fn usage_based_business_plan_uses_short_label() {
    assert_eq!(
        plan_type_label("self_serve_business_usage_based"),
        "Business"
    );
}

#[test]
fn plus_plan_uses_blue_accent() {
    assert_eq!(plan_type_color("plus"), PlanColor::Plus);
}

#[test]
fn enterprise_alias_uses_enterprise_accent() {
    assert_eq!(plan_type_color("ent26"), PlanColor::Enterprise);
}

#[test]
fn unrecognized_plan_uses_unknown_accent() {
    assert_eq!(plan_type_color("future_plan"), PlanColor::Unknown);
}

#[test]
fn lone_long_window_leaves_short_term_slot_empty() {
    let snapshot = QuotaSnapshot {
        limit_id: "codex".to_owned(),
        primary: window(hours(168)),
        secondary: None,
        received_at: time(EPOCH),
    };
    let (short_term, long_term) = snapshot.active_windows(time(EPOCH));
    assert!(short_term.is_none() && long_term.is_some());
}

#[test]
fn shorter_window_is_classified_as_five_hour_quota() {
    let snapshot = QuotaSnapshot {
        limit_id: "codex".to_owned(),
        primary: window(hours(168)),
        secondary: Some(window(hours(5))),
        received_at: time(EPOCH),
    };
    let (short_term, long_term) = snapshot.active_windows(time(EPOCH));
    assert!(
        short_term.is_some_and(|value| value.window_duration == span(hours(5)))
            && long_term
                .is_some_and(|value| value.window_duration == span(hours(168)))
    );
}

#[test]
fn free_plan_uses_monthly_fallback_for_missing_long_window() {
    assert_eq!(quota_window_label(None, Some("free"), false), "月额度");
}

fn quota_window(used_percent: f64, duration: i128) -> QuotaWindow {
    QuotaWindow {
        used_percent: millionths(used_percent),
        window_duration: span(duration),
        resets_at: time(EPOCH + hours(1)),
    }
}

fn expired_quota_window(used_percent: f64, duration: i128) -> QuotaWindow {
    QuotaWindow {
        used_percent: millionths(used_percent),
        window_duration: span(duration),
        resets_at: time(EPOCH - hours(1)),
    }
}

fn ball_snapshot(primary: QuotaWindow, secondary: Option<QuotaWindow>) -> AppState {
    AppState {
        snapshot: Some(QuotaSnapshot {
            limit_id: "codex".to_owned(),
            primary,
            secondary,
            received_at: time(EPOCH),
        }),
        ..AppState::default()
    }
}

#[test]
fn ball_tracks_primary_window_while_not_blocked() {
    let state = ball_snapshot(
        quota_window(0.0, hours(5)),
        Some(quota_window(60.0, hours(168))),
    );

    assert_eq!(
        ball_quota(&state, time(EPOCH)),
        ("100".to_owned(), millionths(100.0), QuotaColor::Healthy)
    );
}

#[test]
fn ball_reads_zero_while_any_active_window_is_exhausted() {
    let state = ball_snapshot(
        quota_window(85.0, hours(5)),
        Some(quota_window(100.0, hours(168))),
    );

    assert_eq!(
        ball_quota(&state, time(EPOCH)),
        ("0".to_owned(), millionths(0.0), QuotaColor::Critical)
    );
}

#[test]
fn ball_reads_zero_when_the_only_window_is_exhausted() {
    let state = ball_snapshot(quota_window(100.0, hours(168)), None);

    assert_eq!(
        ball_quota(&state, time(EPOCH)),
        ("0".to_owned(), millionths(0.0), QuotaColor::Critical)
    );
}

#[test]
fn ball_falls_back_to_the_long_window_while_short_is_expired() {
    let state = ball_snapshot(
        expired_quota_window(50.0, hours(5)),
        Some(quota_window(70.0, hours(168))),
    );

    assert_eq!(
        ball_quota(&state, time(EPOCH)),
        ("30".to_owned(), millionths(30.0), QuotaColor::Warning)
    );
}

#[test]
fn ball_reads_unknown_without_active_windows() {
    let state = ball_snapshot(expired_quota_window(50.0, hours(5)), None);

    assert_eq!(
        ball_quota(&state, time(EPOCH)),
        ("--".to_owned(), millionths(0.0), QuotaColor::Unknown)
    );
    assert_eq!(
        ball_quota(&AppState::default(), time(EPOCH)),
        ("--".to_owned(), millionths(0.0), QuotaColor::Unknown)
    );
}

#[test]
fn manual_refresh_clears_the_ball_so_only_the_spinner_speaks() {
    let now = hours(480_000);
    let state = AppState {
        snapshot: Some(QuotaSnapshot {
            limit_id: "codex".to_owned(),
            primary: QuotaWindow {
                used_percent: millionths(38.0),
                window_duration: span(hours(5)),
                resets_at: time(now + hours(4)),
            },
            secondary: None,
            received_at: time(now),
        }),
        ..AppState::default()
    };
    assert_eq!(ball_quota(&state, time(now)).0, "62");
    let forced = AppState {
        quota_pull: QuotaPull::Forced,
        ..state.clone()
    };
    assert_eq!(
        ball_quota(&forced, time(now)),
        ("--".to_owned(), millionths(0.0), QuotaColor::Unknown)
    );
    let automatic = AppState {
        quota_pull: QuotaPull::Automatic,
        ..state.clone()
    };
    assert_eq!(ball_quota(&automatic, time(now)).0, "62");
}

#[test]
fn ball_spinner_only_covers_pulls_that_are_worth_showing() {
    let with = |status, pull| AppState {
        status,
        quota_pull: pull,
        ..AppState::default()
    };
    assert!(!ball_is_pulling(
        &with(ConnectionStatus::Online, QuotaPull::Idle),
        QuotaColor::Unknown
    ));
    assert!(!ball_is_pulling(
        &with(ConnectionStatus::Online, QuotaPull::Idle),
        QuotaColor::Healthy
    ));
    for color in [
        QuotaColor::Healthy,
        QuotaColor::Warning,
        QuotaColor::Critical,
        QuotaColor::Unknown,
    ] {
        assert!(ball_is_pulling(
            &with(ConnectionStatus::Online, QuotaPull::Forced),
            color
        ));
    }
    assert!(ball_is_pulling(
        &with(ConnectionStatus::Online, QuotaPull::Automatic),
        QuotaColor::Unknown
    ));
    assert!(!ball_is_pulling(
        &with(ConnectionStatus::Online, QuotaPull::Automatic),
        QuotaColor::Healthy
    ));
    assert!(!ball_is_pulling(
        &with(ConnectionStatus::Online, QuotaPull::Automatic),
        QuotaColor::Critical
    ));
}
#[test]
fn ball_spins_while_starting_up_before_the_first_pull() {
    let starting = AppState {
        status: ConnectionStatus::Connecting,
        quota_pull: QuotaPull::Idle,
        ..AppState::default()
    };
    assert!(
        ball_is_pulling(&starting, QuotaColor::Unknown)
    );
    assert!(!ball_is_pulling(&starting, QuotaColor::Healthy));
    let pulling = AppState {
        quota_pull: QuotaPull::Automatic,
        ..starting
    };
    assert!(ball_is_pulling(&pulling, QuotaColor::Unknown));
}

#[test]
fn ball_and_panel_withhold_percentages_while_the_snapshot_is_stale() {
    let state = ball_snapshot(quota_window(0.0, hours(5)), None);
    let now = EPOCH + mins(31);

    assert_eq!(
        ball_quota(&state, time(now)),
        ("--".to_owned(), millionths(0.0), QuotaColor::Unknown)
    );
    assert_eq!(display_windows(&state, time(now)), (None, None));
}

#[test]
fn cached_period_estimate_disappears_when_snapshot_becomes_stale() {
    let mut state = ball_snapshot(quota_window(10.0, hours(168)), None);
    state.period_total_value_estimate = Some(millionths(100.0));
    assert_eq!(display_period_total_value(&state, time(EPOCH)), Some(millionths(100.0)));
    assert_eq!(
        display_period_total_value(&state, time(EPOCH + mins(31))),
        None,
    );
}

#[test]
fn cached_period_estimate_disappears_when_long_window_expires() {
    let mut long_term = quota_window(10.0, hours(168));
    long_term.resets_at = time(EPOCH + mins(1));
    let mut state = ball_snapshot(quota_window(10.0, hours(5)), Some(long_term));
    state.period_total_value_estimate = Some(millionths(100.0));
    assert_eq!(display_period_total_value(&state, time(EPOCH)), Some(millionths(100.0)));
    assert_eq!(
        display_period_total_value(&state, time(EPOCH + mins(1))),
        None,
    );
}

#[test]
fn cached_period_estimate_requires_a_long_window() {
    let mut state = ball_snapshot(quota_window(10.0, hours(5)), None);
    state.period_total_value_estimate = Some(millionths(100.0));
    assert_eq!(display_period_total_value(&state, time(EPOCH)), None);
    state.snapshot = None;
    assert_eq!(display_period_total_value(&state, time(EPOCH)), None);
}
#[test]
fn period_token_estimate_scales_period_usage_to_a_full_window() {
    let mut state = ball_snapshot(quota_window(10.0, hours(168)), None);
    state.current_period_tokens = Some(3_000_000);

    assert_eq!(
        display_period_total_token_estimate(&state, time(EPOCH)),
        Some(30_000_000)
    );
    state.snapshot.as_mut().unwrap().primary.used_percent = millionths(0.5);
    assert_eq!(
        display_period_total_token_estimate(&state, time(EPOCH)),
        None
    );
    state.snapshot.as_mut().unwrap().primary.used_percent = millionths(10.0);
    state.current_period_tokens = Some(0);
    assert_eq!(
        display_period_total_token_estimate(&state, time(EPOCH)),
        None
    );
    state.current_period_tokens = None;
    assert_eq!(
        display_period_total_token_estimate(&state, time(EPOCH)),
        None
    );
}
#[test]
fn period_token_estimate_needs_a_fresh_long_window() {
    let mut state = ball_snapshot(quota_window(10.0, hours(168)), None);
    state.current_period_tokens = Some(3_000_000);
    assert!(display_period_total_token_estimate(&state, time(EPOCH)).is_some());

    assert_eq!(
        display_period_total_token_estimate(&state, time(EPOCH + mins(31))),
        None
    );

    let mut short_only = ball_snapshot(quota_window(10.0, hours(5)), None);
    short_only.current_period_tokens = Some(3_000_000);
    assert_eq!(
        display_period_total_token_estimate(&short_only, time(EPOCH)),
        None
    );
}
#[test]
fn period_token_estimate_stands_without_a_price_table() {
    let mut state = ball_snapshot(quota_window(10.0, hours(168)), None);
    state.current_period_tokens = Some(3_000_000);
    state.current_period_cost = None;
    state.period_total_value_estimate = None;

    assert_eq!(display_period_total_value(&state, time(EPOCH)), None);
    assert_eq!(
        display_period_total_token_estimate(&state, time(EPOCH)),
        Some(30_000_000)
    );
}

#[test]
fn window_duration_overrides_plan_fallback_label() {
    let monthly = window(hours(24 * 30));
    assert_eq!(
        quota_window_label(Some(&monthly), Some("plus"), false),
        "月额度"
    );
}

#[test]
fn a_time_the_calendar_does_not_know_is_left_out() {
    assert_eq!(format_local_timestamp(LOCAL), "11/05 09:07");
    assert_eq!(format_local_timestamp(None), "--");
    let window = QuotaWindow {
        used_percent: 0,
        window_duration: span(hours(5)),
        resets_at: time(hours(1)),
    };
    assert_eq!(format_reset_column(&window, time(0), true, None), "-- (1h)");
    assert_eq!(format_reset_column(&window, time(hours(1)), true, LOCAL), "11/05 09:07");
    assert_eq!(format_reset_column(&window, time(hours(2)), true, LOCAL), "11/05 09:07");
}

#[test]
fn money_switches_to_whole_dollars_at_a_hundred() {
    assert_eq!(format_usd(Some(millionths(99.99))), "$99.99");
    assert_eq!(format_usd(Some(millionths(100.0))), "$100");
    assert_eq!(format_usd(Some(millionths(-1.5))), "$0.00");
}

#[test]
fn titles_say_how_the_link_stands() {
    let with = |status| AppState {
        status,
        plan_type: Some("plus".to_owned()),
        ..AppState::default()
    };
    assert_eq!(panel_title(&with(ConnectionStatus::Connecting)).0, "正在连接 Codex");
    assert_eq!(panel_title(&with(ConnectionStatus::Connecting)).1, None);
    assert_eq!(
        panel_title(&with(ConnectionStatus::Reconnecting { attempt: 2 })).1,
        None
    );
    assert_eq!(
        panel_title(&with(ConnectionStatus::Error { message: "x".to_owned() })).1,
        None
    );
}

#[test]
fn plans_have_names_and_unknown_ones_keep_theirs() {
    for (plan, label) in [
        ("free", "Free"),
        ("go", "Go"),
        ("plus", "Plus"),
        ("prolite", "Pro Lite"),
        ("team", "Team"),
        ("business", "Business"),
        ("ent26", "Enterprise"),
        ("edu", "Edu"),
        ("unknown", "未知方案"),
        ("future_plan", "future_plan"),
    ] {
        assert_eq!(plan_type_label(plan), label);
    }
    assert_eq!(plan_type_color("go"), PlanColor::Neutral);
    assert_eq!(plan_type_color("prolite"), PlanColor::Pro);
    assert_eq!(plan_type_color("edu"), PlanColor::Edu);
    assert_eq!(plan_type_color("team"), PlanColor::Business);
}
