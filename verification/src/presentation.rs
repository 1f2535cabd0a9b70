//! The words and numbers that the ball and the panel show.
use vstd::prelude::*;

use crate::config::UnitStyle;
use crate::fixed;
use crate::fixed::round_div;
use crate::quota::{
    AppState, ConnectionStatus, QuotaColor, QuotaPull, QuotaWindow, DOLLAR, PERCENT,
};
use crate::quota;
use crate::text;
use crate::text::{
    decimal_string, push_decimal, push_hundredths, push_two_digits, round_half_even, same,
};
use crate::time::{Duration, SystemTime};

verus! {

/// The accent of a plan's badge.
#[derive(Clone, Copy, Debug, PartialEq, Eq, Structural)]
pub enum PlanColor {
    Neutral,
    Plus,
    Pro,
    Business,
    Enterprise,
    Edu,
    Unknown,
}

/// Whether the plan is the free one.
pub open spec fn is_free(plan_type: Option<&str>) -> bool {
    plan_type is Some && plan_type->0@ == "free"@
}

fn plan_is_free(plan_type: Option<&str>) -> (free: bool)
    ensures
        free == is_free(plan_type),
{
    match plan_type {
        Some(plan) => same(plan, "free"),
        None => false,
    }
}

/// Name of a quota row: the window's own name, or what the plan would have.
pub open spec fn row_name(
    window: Option<&QuotaWindow>,
    is_free: bool,
    short_term: bool,
) -> Seq<char> {
    match window {
        Some(w) => quota::window_name(w.hours()) + "额度"@,
        None => if short_term {
            "5h额度"@
        } else if is_free {
            "月额度"@
        } else {
            "周额度"@
        },
    }
}

pub fn quota_window_label(
    window: Option<&QuotaWindow>,
    plan_type: Option<&str>,
    short_term: bool,
) -> (label: String)
    ensures
        label@ == row_name(window, is_free(plan_type), short_term),
{
    match window {
        Some(w) => w.window_label(),
        None => if short_term {
            "5h额度".to_owned()
        } else if plan_is_free(plan_type) {
            "月额度".to_owned()
        } else {
            "周额度".to_owned()
        },
    }
}

/// Name of the current period: the long-term window's name after `本`. A five-hour window has
/// no such form and reads `本期`; without a window the plan decides.
pub open spec fn period_name(window: Option<&QuotaWindow>, is_free: bool) -> Seq<char> {
    match window {
        Some(w) => if quota::window_name(w.hours()) == "5h"@ {
            "本期"@
        } else {
            "本"@ + quota::window_name(w.hours())
        },
        None => if is_free {
            "本月"@
        } else {
            "本周"@
        },
    }
}

pub fn period_label(window: Option<&QuotaWindow>, plan_type: Option<&str>) -> (label: String)
    ensures
        label@ == period_name(window, is_free(plan_type)),
{
    match window {
        Some(w) => {
            let short = w.window_short_label();
            if same(short.as_str(), "5h") {
                "本期".to_owned()
            } else {
                let mut label = "本".to_owned();
                label.append(short.as_str());
                label
            }
        },
        None => if plan_is_free(plan_type) {
            "本月".to_owned()
        } else {
            "本周".to_owned()
        },
    }
}

/// The quota row and the period rows name the same window: with the same stem for every
/// duration, but for the five-hour window, whose period is simply the current one; and without
/// a window both follow the plan.
pub proof fn law_period_and_quota_rows_agree(window: Option<&QuotaWindow>, is_free: bool)
    ensures
        window is Some ==> ({
            let stem = quota::window_name(window->0.hours());
            &&& row_name(window, is_free, false) == stem + "额度"@
            &&& period_name(window, is_free) == "本"@ + stem || (stem == "5h"@ && period_name(window, is_free) == "本期"@)
        }),
        window is None ==> exists|stem: Seq<char>|
            #![trigger stem + "额度"@]
            row_name(window, is_free, false) == stem + "额度"@ && period_name(window, is_free)
                == "本"@ + stem,
{
    reveal_strlit("额度");
    reveal_strlit("月额度");
    reveal_strlit("周额度");
    reveal_strlit("本");
    reveal_strlit("本月");
    reveal_strlit("本周");
    if window is None {
        let stem = if is_free {
            seq!['月']
        } else {
            seq!['周']
        };
        assert(row_name(window, is_free, false) =~= stem + "额度"@);
        assert(period_name(window, is_free) =~= "本"@ + stem);
    }
}

/// The three row names of the current period.
pub struct PeriodLabels {
    pub usage: String,
    pub overflow: String,
    pub estimate: String,
}

pub fn period_labels(window: Option<&QuotaWindow>, plan_type: Option<&str>) -> (labels:
    PeriodLabels)
    ensures
        labels.usage@ == period_name(window, is_free(plan_type)) + "使用"@,
        labels.overflow@ == period_name(window, is_free(plan_type)) + "超额"@,
        labels.estimate@ == period_name(window, is_free(plan_type)) + "估值"@,
{
    let mut usage = period_label(window, plan_type);
    let mut overflow = usage.clone();
    let mut estimate = usage.clone();
    usage.append("使用");
    overflow.append("超额");
    estimate.append("估值");
    PeriodLabels { usage, overflow, estimate }
}

/// The windows whose percentages may be shown: none of a stale snapshot.
pub open spec fn shown_windows(state: &AppState, now: SystemTime) -> (
    Option<&QuotaWindow>,
    Option<&QuotaWindow>,
) {
    if state.stale(now) || state.snapshot is None {
        (None, None)
    } else {
        state.snapshot->0.active(now)
    }
}

pub fn display_windows(state: &AppState, now: SystemTime) -> (windows: (
    Option<&QuotaWindow>,
    Option<&QuotaWindow>,
))
    ensures
        windows == shown_windows(state, now),
{
    if state.is_stale(now) {
        return (None, None);
    }
    match &state.snapshot {
        Some(snapshot) => snapshot.active_windows(now),
        None => (None, None),
    }
}

pub fn display_period_total_value(state: &AppState, now: SystemTime) -> (value: Option<i64>)
    ensures
        value == (if shown_windows(state, now).1 is Some {
            state.period_total_value_estimate
        } else {
            None
        }),
{
    let (_, long_term) = display_windows(state, now);
    match long_term {
        Some(_) => state.period_total_value_estimate,
        None => None,
    }
}

/// The tokens that a full window would hold: this period's tokens divided by the share of the
/// window they used. Below 1 % used, or without tokens, there is no meaningful estimate.
pub open spec fn full_window_tokens(used_percent: int, tokens: int) -> Option<int> {
    if used_percent >= PERCENT && tokens > 0 {
        Some(
            fixed::clamped(
                fixed::nearest(tokens * (100 * PERCENT), used_percent),
                0,
                u64::MAX as int,
            ),
        )
    } else {
        None
    }
}

/// The token estimate to show: only with a fresh long-term window and known usage.
pub open spec fn shown_token_estimate(state: &AppState, now: SystemTime) -> Option<int> {
    match (shown_windows(state, now).1, state.current_period_tokens) {
        (Some(window), Some(tokens)) => full_window_tokens(
            window.used_percent as int,
            tokens as int,
        ),
        _ => None,
    }
}

pub fn display_period_total_token_estimate(state: &AppState, now: SystemTime) -> (estimate: Option<
    u64,
>)
    ensures
        estimate is Some <==> shown_token_estimate(state, now) is Some,
        estimate is Some ==> estimate->0 == shown_token_estimate(state, now)->0,
{
    let (_, long_term) = display_windows(state, now);
    let used_percent: i64 = match long_term {
        Some(window) => window.used_percent,
        None => return None,
    };
    let tokens: u64 = match state.current_period_tokens {
        Some(tokens) => tokens,
        None => return None,
    };
    if used_percent < PERCENT || tokens == 0 {
        return None;
    }
    let scaled: i128 = tokens as i128 * 100_000_000;
    let full: i128 = round_div(scaled, used_percent as i128);
    proof {
        fixed::law_nearest_is_monotonic(0, scaled as int, used_percent as int);
        fixed::law_nearest_of_a_multiple(0, used_percent as int);
    }
    if full > u64::MAX as i128 {
        Some(u64::MAX)
    } else {
        Some(full as u64)
    }
}

/// Top of the first row.
pub const FIRST_ROW_TOP_DIP: i64 = 42_000_000;

/// Distance between two rows.
pub const ROW_STEP_DIP: i64 = 27_000_000;

/// Rows that are always there: two quotas, today's and the period's usage, the estimate and
/// the time of the update.
pub const BASE_PANEL_ROWS: i64 = 6;

/// Space below the top of the last row.
pub const PANEL_BOTTOM_PADDING_DIP: i64 = 50_000_000;

/// Height of a panel without overflow rows.
pub const COMPACT_PANEL_HEIGHT_DIP: i64 = FIRST_ROW_TOP_DIP + (BASE_PANEL_ROWS - 1) * ROW_STEP_DIP
    + PANEL_BOTTOM_PADDING_DIP;

/// An overflow row is shown once tokens or money have overflowed; unknown counts as none.
pub open spec fn overflows(tokens: Option<u64>, cost: Option<i64>) -> bool {
    (tokens is Some && tokens->0 > 0) || (cost is Some && cost->0 > 0)
}

fn overflow_visible(tokens: Option<u64>, cost: Option<i64>) -> (visible: bool)
    ensures
        visible == overflows(tokens, cost),
{
    let by_tokens = match tokens {
        Some(value) => value > 0,
        None => false,
    };
    let by_cost = match cost {
        Some(value) => value > 0,
        None => false,
    };
    by_tokens || by_cost
}

pub fn today_overflow_visible(state: &AppState) -> (visible: bool)
    ensures
        visible == overflows(state.today_overflow_tokens, state.today_overflow_cost),
{
    overflow_visible(state.today_overflow_tokens, state.today_overflow_cost)
}

pub fn period_overflow_visible(state: &AppState) -> (visible: bool)
    ensures
        visible == overflows(
            state.current_period_overflow_tokens,
            state.current_period_overflow_cost,
        ),
{
    overflow_visible(state.current_period_overflow_tokens, state.current_period_overflow_cost)
}

/// Number of rows the panel shows.
pub open spec fn panel_rows(state: &AppState) -> int {
    BASE_PANEL_ROWS + (if overflows(state.today_overflow_tokens, state.today_overflow_cost) {
        1int
    } else {
        0
    }) + (if overflows(
        state.current_period_overflow_tokens,
        state.current_period_overflow_cost,
    ) {
        1int
    } else {
        0
    })
}

/// Height of a panel with this many rows.
pub open spec fn height_of_rows(rows: int) -> int {
    FIRST_ROW_TOP_DIP + (rows - 1) * ROW_STEP_DIP + PANEL_BOTTOM_PADDING_DIP
}

pub fn panel_height_dip(state: &AppState) -> (height: i64)
    ensures
        height == height_of_rows(panel_rows(state)),
        COMPACT_PANEL_HEIGHT_DIP <= height <= COMPACT_PANEL_HEIGHT_DIP + 2 * ROW_STEP_DIP,
{
    let mut rows: i64 = BASE_PANEL_ROWS;
    if today_overflow_visible(state) {
        rows = rows + 1;
    }
    if period_overflow_visible(state) {
        rows = rows + 1;
    }
    FIRST_ROW_TOP_DIP + (rows - 1) * ROW_STEP_DIP + PANEL_BOTTOM_PADDING_DIP
}

/// What the ball shows: a number, the share of the ring that is filled, and the colour.
/// It reads `--` during a manual refresh and while no fresh window is known, and `0` while any
/// active window has nothing left.
pub open spec fn ball_reading(state: &AppState, now: SystemTime) -> (Seq<char>, int, QuotaColor) {
    let (short_term, long_term) = shown_windows(state, now);
    if state.quota_pull == QuotaPull::Forced || (short_term is None && long_term is None) {
        ("--"@, 0, QuotaColor::Unknown)
    } else if state.snapshot->0.blocked(now) {
        ("0"@, 0, QuotaColor::Critical)
    } else {
        let window = if short_term is Some {
            *short_term->0
        } else {
            *long_term->0
        };
        (
            text::decimal(text::nearest_even(window.remaining() as nat, PERCENT as nat)),
            window.remaining(),
            window.color_of(),
        )
    }
}

pub fn ball_quota(state: &AppState, now: SystemTime) -> (reading: (String, i64, QuotaColor))
    ensures
        (reading.0@, reading.1 as int, reading.2) == ball_reading(state, now),
        0 <= reading.1 <= 100 * PERCENT,
{
    if state.quota_pull == QuotaPull::Forced {
        return ("--".to_owned(), 0, QuotaColor::Unknown);
    }
    let (short_term, long_term) = display_windows(state, now);
    let window = match short_term {
        Some(window) => window,
        None => match long_term {
            Some(window) => window,
            None => return ("--".to_owned(), 0, QuotaColor::Unknown),
        },
    };
    let blocked = match &state.snapshot {
        Some(snapshot) => snapshot.is_blocked(now),
        None => false,
    };
    if blocked {
        return ("0".to_owned(), 0, QuotaColor::Critical);
    }
    let remaining: i64 = window.remaining_percent();
    (decimal_string(round_half_even(remaining as u128, PERCENT as u128)), remaining, window.color())
}

/// A ball that shows no quota has an empty ring, and one that shows some tells the truth about
/// an active window of a fresh snapshot.
pub proof fn law_ball_never_shows_stale_quota(state: &AppState, now: SystemTime)
    ensures
        state.stale(now) || state.snapshot is None || state.quota_pull == QuotaPull::Forced
            ==> ball_reading(state, now) == ("--"@, 0int, QuotaColor::Unknown),
        ball_reading(state, now).1 > 0 ==> ({
            &&& state.snapshot is Some
            &&& !state.stale(now)
            &&& !state.snapshot->0.blocked(now)
        }),
{
}

/// Whichever window has run out, the ball of a fresh snapshot reads zero.
pub proof fn law_any_exhausted_window_empties_the_ball(state: &AppState, now: SystemTime)
    requires
        state.snapshot is Some,
        !state.stale(now),
        state.quota_pull != QuotaPull::Forced,
        ({
            let (short_term, long_term) = state.snapshot->0.active(now);
            ||| short_term is Some && short_term->0.is_exhausted()
            ||| long_term is Some && long_term->0.is_exhausted()
        }),
    ensures
        ball_reading(state, now) == ("0"@, 0int, QuotaColor::Critical),
{
}

/// Whether the ball shows the indeterminate arc. A manual refresh always does; an automatic
/// one, and starting up, only while the ball has nothing else to show.
pub open spec fn pulling(pull: QuotaPull, status: ConnectionStatus, color: QuotaColor) -> bool {
    ||| pull == QuotaPull::Forced
    ||| (color == QuotaColor::Unknown && (pull == QuotaPull::Automatic || status is Connecting))
}

pub fn ball_is_pulling(state: &AppState, color: QuotaColor) -> (spins: bool)
    ensures
        spins == pulling(state.quota_pull, state.status, color),
{
    if color != QuotaColor::Unknown {
        return state.quota_pull == QuotaPull::Forced;
    }
    match state.quota_pull {
        QuotaPull::Forced | QuotaPull::Automatic => true,
        QuotaPull::Idle => match &state.status {
            ConnectionStatus::Connecting => true,
            _ => false,
        },
    }
}

/// The panel's headline.
pub open spec fn headline(status: ConnectionStatus) -> Seq<char> {
    match status {
        ConnectionStatus::Connecting => "正在连接 Codex"@,
        ConnectionStatus::Online => "Codex"@,
        ConnectionStatus::Reconnecting { .. } => "正在重新连接"@,
        ConnectionStatus::Error { .. } => "Codex 暂不可用"@,
    }
}

pub fn panel_title(state: &AppState) -> (title: (&str, Option<&str>))
    ensures
        title.0@ == headline(state.status),
        title.1 is Some <==> (state.status is Online && state.plan_type is Some),
        title.1 is Some ==> title.1->0@ == state.plan_type->0@,
{
    match &state.status {
        ConnectionStatus::Connecting => ("正在连接 Codex", None),
        ConnectionStatus::Online => (
            "Codex",
            match &state.plan_type {
                Some(plan) => Some(plan.as_str()),
                None => None,
            },
        ),
        ConnectionStatus::Reconnecting { .. } => ("正在重新连接", None),
        ConnectionStatus::Error { .. } => ("Codex 暂不可用", None),
    }
}

/// A date and time on the wall calendar, in local time.
#[derive(Clone, Copy, Debug, Default, PartialEq, Eq, Structural)]
pub struct CalendarTime {
    pub year: u16,
    pub month: u16,
    pub day: u16,
    pub hour: u16,
    pub minute: u16,
    pub second: u16,
}

/// Month, day, hour and minute, two digits each.
pub open spec fn calendar_text(time: CalendarTime) -> Seq<char> {
    text::two_digits(time.month as nat) + "/"@ + text::two_digits(time.day as nat) + " "@
        + text::two_digits(time.hour as nat) + ":"@ + text::two_digits(time.minute as nat)
}

pub fn format_calendar_time(time: &CalendarTime) -> (shown: String)
    ensures
        shown@ == calendar_text(*time),
{
    let mut shown = String::new();
    push_two_digits(&mut shown, time.month as u128);
    shown.append("/");
    push_two_digits(&mut shown, time.day as u128);
    shown.append(" ");
    push_two_digits(&mut shown, time.hour as u128);
    shown.append(":");
    push_two_digits(&mut shown, time.minute as u128);
    assert(shown@ =~= calendar_text(*time));
    shown
}

/// The local time, or `--` where the calendar has no answer.
pub open spec fn timestamp_text(local: Option<CalendarTime>) -> Seq<char> {
    match local {
        Some(time) => calendar_text(time),
        None => "--"@,
    }
}

/// The text of a time whose local calendar form is `local`.
pub fn format_local_timestamp(local: Option<CalendarTime>) -> (shown: String)
    ensures
        shown@ == timestamp_text(local),
{
    match local {
        Some(time) => format_calendar_time(&time),
        None => "--".to_owned(),
    }
}

/// A count in tenths of a unit, rounded halves up, without a zero decimal.
pub open spec fn compact_count(tokens: nat, unit: nat, suffix: Seq<char>) -> Seq<char> {
    let tenths = (tokens * 10 + unit / 2) / unit;
    if tenths % 10 == 0 {
        text::decimal(tenths / 10) + suffix
    } else {
        text::decimal(tenths / 10) + "."@ + text::decimal(tenths % 10) + suffix
    }
}

pub fn format_compact_token_unit(tokens: u64, unit: u64, suffix: &str) -> (shown: String)
    requires
        unit > 0,
    ensures
        shown@ == compact_count(tokens as nat, unit as nat, suffix@),
{
    let wide_unit: u128 = unit as u128;
    let tenths: u128 = (tokens as u128 * 10 + wide_unit / 2) / wide_unit;
    let mut shown = String::new();
    push_decimal(&mut shown, tenths / 10);
    if tenths % 10 != 0 {
        shown.append(".");
        push_decimal(&mut shown, tenths % 10);
    }
    shown.append(suffix);
    assert(shown@ =~= compact_count(tokens as nat, unit as nat, suffix@));
    shown
}

/// A token count in the chosen units: 万 and 亿, or K, M and B.
pub open spec fn token_text(tokens: nat, unit: UnitStyle) -> Seq<char> {
    match unit {
        UnitStyle::Zh => if tokens < 10_000 {
            text::decimal(tokens)
        } else if tokens < 100_000_000 {
            compact_count(tokens, 10_000, "万"@)
        } else {
            compact_count(tokens, 100_000_000, "亿"@)
        },
        UnitStyle::En => if tokens < 1_000 {
            text::decimal(tokens)
        } else if tokens < 1_000_000 {
            compact_count(tokens, 1_000, "K"@)
        } else if tokens < 1_000_000_000 {
            compact_count(tokens, 1_000_000, "M"@)
        } else {
            compact_count(tokens, 1_000_000_000, "B"@)
        },
    }
}

pub fn format_token_count(tokens: u64, unit: UnitStyle) -> (shown: String)
    ensures
        shown@ == token_text(tokens as nat, unit),
{
    match unit {
        UnitStyle::Zh => if tokens < 10_000 {
            decimal_string(tokens as u128)
        } else if tokens < 100_000_000 {
            format_compact_token_unit(tokens, 10_000, "万")
        } else {
            format_compact_token_unit(tokens, 100_000_000, "亿")
        },
        UnitStyle::En => if tokens < 1_000 {
            decimal_string(tokens as u128)
        } else if tokens < 1_000_000 {
            format_compact_token_unit(tokens, 1_000, "K")
        } else if tokens < 1_000_000_000 {
            format_compact_token_unit(tokens, 1_000_000, "M")
        } else {
            format_compact_token_unit(tokens, 1_000_000_000, "B")
        },
    }
}

/// A token count, or `--` where it is not known.
pub open spec fn usage_text(tokens: Option<u64>, unit: UnitStyle) -> Seq<char> {
    match tokens {
        Some(count) => token_text(count as nat, unit),
        None => "--"@,
    }
}

pub fn format_token_usage(tokens: Option<u64>, unit: UnitStyle) -> (shown: String)
    ensures
        shown@ == usage_text(tokens, unit),
{
    match tokens {
        Some(count) => format_token_count(count, unit),
        None => "--".to_owned(),
    }
}

/// A span in at most two units, without seconds: `1d6h`, `1h30m`, `6m`, `<1m`. A second unit
/// of zero is left out, and from ten days on so are the hours.
pub open spec fn countdown_text(total_minutes: nat) -> Seq<char> {
    let days = total_minutes / 1_440;
    let hours = (total_minutes % 1_440) / 60;
    let minutes = total_minutes % 60;
    if days >= 10 || (days > 0 && hours == 0) {
        text::decimal(days) + "d"@
    } else if days > 0 {
        text::decimal(days) + "d"@ + text::decimal(hours) + "h"@
    } else if hours > 0 && minutes == 0 {
        text::decimal(hours) + "h"@
    } else if hours > 0 {
        text::decimal(hours) + "h"@ + text::decimal(minutes) + "m"@
    } else if minutes > 0 {
        text::decimal(minutes) + "m"@
    } else {
        "<1m"@
    }
}

/// Whole minutes of a span.
pub open spec fn whole_minutes(nanos: nat) -> nat {
    nanos / 1_000_000_000 / 60
}

pub fn format_compact_countdown(remaining: Duration) -> (shown: String)
    ensures
        shown@ == countdown_text(whole_minutes(remaining.nanos as nat)),
{
    let total_minutes: u128 = remaining.nanos / 1_000_000_000 / 60;
    let days: u128 = total_minutes / 1_440;
    let hours: u128 = (total_minutes % 1_440) / 60;
    let minutes: u128 = total_minutes % 60;
    let mut shown = String::new();
    if days > 0 {
        push_decimal(&mut shown, days);
        shown.append("d");
        if days < 10 && hours > 0 {
            push_decimal(&mut shown, hours);
            shown.append("h");
        }
    } else if hours > 0 {
        push_decimal(&mut shown, hours);
        shown.append("h");
        if minutes > 0 {
            push_decimal(&mut shown, minutes);
            shown.append("m");
        }
    } else if minutes > 0 {
        push_decimal(&mut shown, minutes);
        shown.append("m");
    } else {
        shown.append("<1m");
    }
    assert(shown@ =~= countdown_text(total_minutes as nat));
    shown
}

/// The reset column: local time, and after it the countdown where it is asked for and has
/// something left to count.
pub open spec fn reset_text(
    resets_at: SystemTime,
    now: SystemTime,
    show_countdown: bool,
    local: Option<CalendarTime>,
) -> Seq<char> {
    if show_countdown && resets_at.nanos > now.nanos {
        timestamp_text(local) + " ("@ + countdown_text(whole_minutes(resets_at.since(now))) + ")"@
    } else {
        timestamp_text(local)
    }
}

/// The text of the reset column; `local` is the reset time on the local calendar.
pub fn format_reset_column(
    window: &QuotaWindow,
    now: SystemTime,
    show_countdown: bool,
    local: Option<CalendarTime>,
) -> (shown: String)
    ensures
        shown@ == reset_text(window.resets_at, now, show_countdown, local),
{
    let mut shown = format_local_timestamp(local);
    if !show_countdown {
        return shown;
    }
    match window.resets_at.duration_since(now) {
        Ok(remaining) => {
            if remaining.nanos > 0 {
                shown.append(" (");
                shown.append(format_compact_countdown(remaining).as_str());
                shown.append(")");
            }
        },
        Err(_) => {},
    }
    assert(shown@ =~= reset_text(window.resets_at, now, show_countdown, local));
    shown
}

/// An amount of money: cents below $100, whole dollars from there on, `$0.00` for nothing or
/// less, and `--` where it is not known. Rounded to the nearest step, halves to even.
pub open spec fn usd_text(cost: Option<i64>) -> Seq<char> {
    match cost {
        Some(value) => if value <= 0 {
            "$0.00"@
        } else if value >= 100 * DOLLAR {
            "$"@ + text::decimal(text::nearest_even(value as nat, 1_000_000))
        } else {
            "$"@ + text::hundredths(text::nearest_even(value as nat, 10_000))
        },
        None => "--"@,
    }
}

pub fn format_usd(cost: Option<i64>) -> (shown: String)
    ensures
        shown@ == usd_text(cost),
{
    match cost {
        Some(value) => if value <= 0 {
            "$0.00".to_owned()
        } else {
            let mut shown = "$".to_owned();
            if value >= 100 * DOLLAR {
                push_decimal(&mut shown, round_half_even(value as u128, 1_000_000));
            } else {
                push_hundredths(&mut shown, round_half_even(value as u128, 10_000));
            }
            shown
        },
        None => "--".to_owned(),
    }
}

/// The name of a plan as its badge shows it; an unknown one as it is reported.
pub open spec fn plan_name(plan_type: Seq<char>) -> Seq<char> {
    if plan_type == "free"@ {
        "Free"@
    } else if plan_type == "go"@ {
        "Go"@
    } else if plan_type == "plus"@ {
        "Plus"@
    } else if plan_type == "pro"@ {
        "Pro"@
    } else if plan_type == "prolite"@ {
        "Pro Lite"@
    } else if plan_type == "team"@ {
        "Team"@
    } else if plan_type == "self_serve_business_usage_based"@ || plan_type == "business"@ {
        "Business"@
    } else if plan_type == "ent26"@ || plan_type == "enterprise_cbp_usage_based"@ || plan_type
        == "enterprise"@ {
        "Enterprise"@
    } else if plan_type == "edu"@ {
        "Edu"@
    } else if plan_type == "unknown"@ {
        "未知方案"@
    } else {
        plan_type
    }
}

pub fn plan_type_label(plan_type: &str) -> (label: &str)
    ensures
        label@ == plan_name(plan_type@),
{
    if same(plan_type, "free") {
        "Free"
    } else if same(plan_type, "go") {
        "Go"
    } else if same(plan_type, "plus") {
        "Plus"
    } else if same(plan_type, "pro") {
        "Pro"
    } else if same(plan_type, "prolite") {
        "Pro Lite"
    } else if same(plan_type, "team") {
        "Team"
    } else if same(plan_type, "self_serve_business_usage_based") || same(plan_type, "business") {
        "Business"
    } else if same(plan_type, "ent26") || same(plan_type, "enterprise_cbp_usage_based") || same(
        plan_type,
        "enterprise",
    ) {
        "Enterprise"
    } else if same(plan_type, "edu") {
        "Edu"
    } else if same(plan_type, "unknown") {
        "未知方案"
    } else {
        plan_type
    }
}

/// The accent of a plan.
pub open spec fn plan_accent(plan_type: Seq<char>) -> PlanColor {
    if plan_type == "free"@ || plan_type == "go"@ {
        PlanColor::Neutral
    } else if plan_type == "plus"@ {
        PlanColor::Plus
    } else if plan_type == "pro"@ || plan_type == "prolite"@ {
        PlanColor::Pro
    } else if plan_type == "team"@ || plan_type == "self_serve_business_usage_based"@ || plan_type
        == "business"@ {
        PlanColor::Business
    } else if plan_type == "ent26"@ || plan_type == "enterprise_cbp_usage_based"@ || plan_type
        == "enterprise"@ {
        PlanColor::Enterprise
    } else if plan_type == "edu"@ {
        PlanColor::Edu
    } else {
        PlanColor::Unknown
    }
}

pub fn plan_type_color(plan_type: &str) -> (color: PlanColor)
    ensures
        color == plan_accent(plan_type@),
{
    if same(plan_type, "free") || same(plan_type, "go") {
        PlanColor::Neutral
    } else if same(plan_type, "plus") {
        PlanColor::Plus
    } else if same(plan_type, "pro") || same(plan_type, "prolite") {
        PlanColor::Pro
    } else if same(plan_type, "team") || same(plan_type, "self_serve_business_usage_based") || same(
        plan_type,
        "business",
    ) {
        PlanColor::Business
    } else if same(plan_type, "ent26") || same(plan_type, "enterprise_cbp_usage_based") || same(
        plan_type,
        "enterprise",
    ) {
        PlanColor::Enterprise
    } else if same(plan_type, "edu") {
        PlanColor::Edu
    } else {
        PlanColor::Unknown
    }
}

/// While nothing is used up, the ball of a fresh snapshot shows the short-term window as long as
/// that window runs, whatever the long-term one holds; only without it the long-term one.
pub proof fn law_the_ball_shows_the_short_term_window(
    state: &AppState,
    now: SystemTime,
    stale: bool,
    blocked: bool,
    active: (Option<&QuotaWindow>, Option<&QuotaWindow>),
    reading: (String, i64, QuotaColor),
)
    requires
        state.snapshot is Some,
        call_ensures(AppState::is_stale, (state, now), stale),
        call_ensures(quota::QuotaSnapshot::is_blocked, (&state.snapshot->0, now), blocked),
        call_ensures(quota::QuotaSnapshot::active_windows, (&state.snapshot->0, now), active),
        call_ensures(ball_quota, (state, now), reading),
        !stale,
        !blocked,
        state.quota_pull != QuotaPull::Forced,
    ensures
        active.0 matches Some(window) ==> shows_window(reading, *window),
        active.0 is None ==> (active.1 matches Some(window) ==> shows_window(reading, *window)),
        active.0 is None && active.1 is None ==> reading.0@ == "--"@ && reading.1 == 0
            && reading.2 == QuotaColor::Unknown,
{
    if active.0 is Some {
        lemma_shows_its_share(reading.1);
    } else if active.1 is Some {
        lemma_shows_its_share(reading.1);
    }
}

/// A reading is that of a window: its share, its colour, and the nearest whole number of percent.
pub open spec fn shows_window(reading: (String, i64, QuotaColor), window: QuotaWindow) -> bool {
    let left = if window.used_percent < 0 {
        100_000_000
    } else {
        100_000_000 - window.used_percent
    };
    &&& reading.1 == left
    &&& reading.2 == (if window.used_percent > 80_000_000 {
        QuotaColor::Critical
    } else if window.used_percent > 50_000_000 {
        QuotaColor::Warning
    } else {
        QuotaColor::Healthy
    })
    &&& -1_000_000 <= 2 * (text::value_of(reading.0@) * 1_000_000 - left) <= 1_000_000
}

proof fn lemma_shows_its_share(share: i64)
    requires
        0 <= share,
    ensures
        ({
            let shown = text::decimal(text::nearest_even(share as nat, PERCENT as nat));
            -1_000_000 <= 2 * (text::value_of(shown) * 1_000_000 - share) <= 1_000_000
        }),
{
    text::law_decimal_reads_back(text::nearest_even(share as nat, PERCENT as nat));
}

/// On the ball nothing is shown of a stale snapshot, of none, or during a manual refresh, and a
/// fresh one with a used-up window that still runs reads zero in red.
pub proof fn law_the_ball_shows_nothing_it_does_not_know(
    state: &AppState,
    now: SystemTime,
    reading: (String, i64, QuotaColor),
)
    requires
        call_ensures(ball_quota, (state, now), reading),
        2 * state.quota_refresh_interval.nanos <= 18_446_744_073_709_551_615_999_999_999,
    ensures
        ({
            let fresh = state.snapshot is Some && now.nanos
                - state.snapshot->0.received_at.nanos <= 2 * state.quota_refresh_interval.nanos;
            let snapshot = state.snapshot->0;
            let used_up = |window: QuotaWindow|
                window.used_percent >= 100_000_000 && now.nanos < window.resets_at.nanos;
            &&& !fresh || state.quota_pull == QuotaPull::Forced ==> reading.0@ == "--"@
                && reading.1 == 0 && reading.2 == QuotaColor::Unknown
            &&& fresh && state.quota_pull != QuotaPull::Forced && (used_up(snapshot.primary) || (
            snapshot.secondary is Some && used_up(snapshot.secondary->0))) ==> reading.0@ == "0"@
                && reading.1 == 0 && reading.2 == QuotaColor::Critical
            &&& fresh && snapshot.primary.resets_at.nanos <= now.nanos && (snapshot.secondary
                is Some ==> snapshot.secondary->0.resets_at.nanos <= now.nanos) ==> reading.0@
                == "--"@ && reading.1 == 0 && reading.2 == QuotaColor::Unknown
        }),
{
}

/// Percentages are shown of the windows that run, and of none once the snapshot is stale.
pub proof fn law_only_fresh_windows_are_shown(
    state: &AppState,
    now: SystemTime,
    stale: bool,
    shown: (Option<&QuotaWindow>, Option<&QuotaWindow>),
)
    requires
        call_ensures(AppState::is_stale, (state, now), stale),
        call_ensures(display_windows, (state, now), shown),
    ensures
        stale || state.snapshot is None ==> shown.0 is None && shown.1 is None,
        shown.0 is Some ==> now.nanos < shown.0->0.resets_at.nanos,
        shown.1 is Some ==> now.nanos < shown.1->0.resets_at.nanos,
        !stale && state.snapshot is Some ==> ({
            let snapshot = state.snapshot->0;
            now.nanos < snapshot.primary.resets_at.nanos ==> shown.0 == Some(&snapshot.primary)
                || shown.1 == Some(&snapshot.primary)
        }),
{
}

/// The tokens of a full window are to those spent as the whole is to the share used: the estimate
/// is the nearest number for which that holds. There is none below one percent, without tokens,
/// or without a fresh long-term window.
pub proof fn law_the_estimate_scales_the_tokens_up(
    state: &AppState,
    now: SystemTime,
    shown: (Option<&QuotaWindow>, Option<&QuotaWindow>),
    estimate: Option<u64>,
)
    requires
        call_ensures(display_windows, (state, now), shown),
        call_ensures(display_period_total_token_estimate, (state, now), estimate),
    ensures
        estimate is Some <==> {
            &&& shown.1 is Some
            &&& shown.1->0.used_percent >= 1_000_000
            &&& state.current_period_tokens is Some
            &&& state.current_period_tokens->0 > 0
        },
        estimate is Some && estimate->0 < u64::MAX ==> ({
            let used = shown.1->0.used_percent;
            -used <= 2 * (estimate->0 * used - state.current_period_tokens->0 * 100_000_000) <= used
        }),
        estimate is Some && estimate->0 == u64::MAX ==> ({
            let used = shown.1->0.used_percent;
            2 * (estimate->0 * used - state.current_period_tokens->0 * 100_000_000) <= used
        }),
{
    if estimate is Some {
        let used = shown.1->0.used_percent as int;
        let n = state.current_period_tokens->0 * 100_000_000;
        fixed::law_nearest_is_within_half_a_step(n, used);
        fixed::law_nearest_is_monotonic(0, n, used);
        fixed::law_nearest_of_a_multiple(0, used);
        let full = fixed::nearest(n, used);
        if full >= u64::MAX {
            assert(2 * (u64::MAX * used - n) <= used) by (nonlinear_arith)
                requires
                    full >= u64::MAX,
                    2 * (full * used - n) <= used,
                    used > 0,
            ;
        }
    }
}

/// The value estimate is shown with a fresh long-term window, and only then.
pub proof fn law_the_value_needs_a_long_term_window(
    state: &AppState,
    now: SystemTime,
    shown: (Option<&QuotaWindow>, Option<&QuotaWindow>),
    value: Option<i64>,
)
    requires
        call_ensures(display_windows, (state, now), shown),
        call_ensures(display_period_total_value, (state, now), value),
    ensures
        shown.1 is None ==> value is None,
        shown.1 is Some ==> value == state.period_total_value_estimate,
{
}

/// An overflow row is there as soon as a token or money has overflowed, and each makes the panel
/// taller by one row.
pub proof fn law_each_overflow_adds_one_row(
    state: &AppState,
    today: bool,
    period: bool,
    height: i64,
)
    requires
        call_ensures(today_overflow_visible, (state,), today),
        call_ensures(period_overflow_visible, (state,), period),
        call_ensures(panel_height_dip, (state,), height),
    ensures
        today <==> (state.today_overflow_tokens matches Some(tokens) && tokens >= 1) || (
        state.today_overflow_cost matches Some(cost) && cost >= 1),
        period <==> (state.current_period_overflow_tokens matches Some(tokens) && tokens >= 1) || (
        state.current_period_overflow_cost matches Some(cost) && cost >= 1),
        !today && !period ==> height == 227_000_000,
        today != period ==> height == 254_000_000,
        today && period ==> height == 281_000_000,
{
}

/// The indeterminate arc turns during a manual refresh, and otherwise only on a ball that shows
/// nothing while something is being fetched.
pub proof fn law_the_arc_turns_only_while_fetching(state: &AppState, color: QuotaColor, spins: bool)
    requires
        call_ensures(ball_is_pulling, (state, color), spins),
    ensures
        state.quota_pull == QuotaPull::Forced ==> spins,
        spins && state.quota_pull != QuotaPull::Forced ==> color == QuotaColor::Unknown,
        spins && state.quota_pull == QuotaPull::Idle ==> state.status is Connecting,
        color == QuotaColor::Unknown && state.quota_pull == QuotaPull::Automatic ==> spins,
        color == QuotaColor::Unknown && state.status is Connecting ==> spins,
{
}

/// The plan is named only while the link stands, and every state of the link has its own title.
pub proof fn law_the_title_follows_the_link(state: &AppState, title: (&str, Option<&str>))
    requires
        call_ensures(panel_title, (state,), title),
    ensures
        title.1 is Some ==> state.status is Online && state.plan_type is Some && title.1->0@
            == state.plan_type->0@,
        state.status is Online && state.plan_type is Some ==> title.1 is Some,
        state.status is Online <==> title.0@ == "Codex"@,
        state.status is Connecting <==> title.0@ == "正在连接 Codex"@,
        state.status is Reconnecting <==> title.0@ == "正在重新连接"@,
        state.status is Error <==> title.0@ == "Codex 暂不可用"@,
{
    reveal_strlit("Codex");
    reveal_strlit("正在连接 Codex");
    reveal_strlit("正在重新连接");
    reveal_strlit("Codex 暂不可用");
    assert("Codex"@[0] == 'C');
    assert("正在连接 Codex"@[0] == '正' && "正在重新连接"@[0] == '正');
    assert("正在连接 Codex"@.len() == 10 && "正在重新连接"@.len() == 6);
    assert("Codex"@.len() == 5 && "Codex 暂不可用"@.len() == 10);
}

/// A calendar time shows month, day, hour and minute in this order, two digits each.
pub proof fn law_a_calendar_time_shows_its_parts(time: &CalendarTime, shown: String)
    requires
        call_ensures(format_calendar_time, (time,), shown),
        time.month < 100 && time.day < 100 && time.hour < 100 && time.minute < 100,
    ensures
        shown@.len() == 11,
        text::value_of(shown@.subrange(0, 2)) == time.month,
        text::value_of(shown@.subrange(3, 5)) == time.day,
        text::value_of(shown@.subrange(6, 8)) == time.hour,
        text::value_of(shown@.subrange(9, 11)) == time.minute,
        shown@[2] == '/' && shown@[5] == ' ' && shown@[8] == ':',
{
    reveal_strlit("/");
    reveal_strlit(" ");
    reveal_strlit(":");
    lemma_two_digits_read_back(time.month as nat);
    lemma_two_digits_read_back(time.day as nat);
    lemma_two_digits_read_back(time.hour as nat);
    lemma_two_digits_read_back(time.minute as nat);
    assert(shown@.subrange(0, 2) =~= text::two_digits(time.month as nat));
    assert(shown@.subrange(3, 5) =~= text::two_digits(time.day as nat));
    assert(shown@.subrange(6, 8) =~= text::two_digits(time.hour as nat));
    assert(shown@.subrange(9, 11) =~= text::two_digits(time.minute as nat));
}

proof fn lemma_two_digits_read_back(n: nat)
    requires
        n < 100,
    ensures
        text::two_digits(n).len() == 2,
        text::value_of(text::two_digits(n)) == n,
{
    text::law_two_digits_show_tens_and_ones(n);
    let digits = text::two_digits(n);
    let tens = digits.drop_last();
    reveal_with_fuel(text::value_of, 3);
    assert(tens.len() == 1 && tens.last() == digits[0]);
    assert(tens.drop_last() =~= Seq::<char>::empty());
    assert(digits.last() == digits[1]);
}

/// Small counts are shown in full, larger ones in the nearest tenth of the largest unit that they
/// fill.
pub proof fn law_token_counts_are_close(tokens: u64, unit: UnitStyle, shown: String)
    requires
        call_ensures(format_token_count, (tokens, unit), shown),
    ensures
        unit == UnitStyle::Zh && tokens < 10_000 ==> text::value_of(shown@) == tokens,
        unit == UnitStyle::Zh && 10_000 <= tokens < 100_000_000 ==> is_tenths_of(
            shown@,
            tokens as int,
            10_000,
            "万"@,
        ),
        unit == UnitStyle::Zh && 100_000_000 <= tokens ==> is_tenths_of(
            shown@,
            tokens as int,
            100_000_000,
            "亿"@,
        ),
        unit == UnitStyle::En && tokens < 1_000 ==> text::value_of(shown@) == tokens,
        unit == UnitStyle::En && 1_000 <= tokens < 1_000_000 ==> is_tenths_of(
            shown@,
            tokens as int,
            1_000,
            "K"@,
        ),
        unit == UnitStyle::En && 1_000_000 <= tokens < 1_000_000_000 ==> is_tenths_of(
            shown@,
            tokens as int,
            1_000_000,
            "M"@,
        ),
        unit == UnitStyle::En && 1_000_000_000 <= tokens ==> is_tenths_of(
            shown@,
            tokens as int,
            1_000_000_000,
            "B"@,
        ),
{
    text::law_decimal_reads_back(tokens as nat);
    lemma_compact_is_close(tokens as nat, 10_000, "万"@);
    lemma_compact_is_close(tokens as nat, 100_000_000, "亿"@);
    lemma_compact_is_close(tokens as nat, 1_000, "K"@);
    lemma_compact_is_close(tokens as nat, 1_000_000, "M"@);
    lemma_compact_is_close(tokens as nat, 1_000_000_000, "B"@);
}

/// A text shows the nearest tenth of a count in some unit, without a zero after the point.
pub open spec fn is_tenths_of(shown: Seq<char>, count: int, unit: int, suffix: Seq<char>) -> bool {
    exists|tenths: nat| #[trigger]
        shows_tenths(shown, tenths, suffix) && -unit <= 2 * (tenths * unit - 10 * count) <= unit
}

pub open spec fn shows_tenths(shown: Seq<char>, tenths: nat, suffix: Seq<char>) -> bool {
    if tenths % 10 == 0 {
        shown == text::decimal(tenths / 10) + suffix
    } else {
        shown == text::decimal(tenths / 10) + "."@ + text::decimal(tenths % 10) + suffix
    }
}

proof fn lemma_compact_is_close(tokens: nat, unit: nat, suffix: Seq<char>)
    requires
        unit > 0,
        unit % 2 == 0,
    ensures
        is_tenths_of(compact_count(tokens, unit, suffix), tokens as int, unit as int, suffix),
{
    let sum = tokens * 10 + unit / 2;
    let tenths = sum / unit;
    vstd::arithmetic::div_mod::lemma_fundamental_div_mod(sum as int, unit as int);
    vstd::arithmetic::div_mod::lemma_mod_bound(sum as int, unit as int);
    assert(unit * tenths == tenths * unit) by (nonlinear_arith);
    assert(shows_tenths(compact_count(tokens, unit, suffix), tenths, suffix));
}

/// What is not known is a dash in every unit.
pub proof fn law_unknown_usage_is_a_dash(
    tokens: Option<u64>,
    unit: UnitStyle,
    shown: String,
    counted: String,
)
    requires
        call_ensures(format_token_usage, (tokens, unit), shown),
        tokens is Some ==> call_ensures(format_token_count, (tokens->0, unit), counted),
    ensures
        tokens is None ==> shown@ == "--"@,
        tokens is Some ==> shown@ == counted@,
{
}

/// Nanoseconds of so many days, hours and minutes.
pub open spec fn clock_span(days: int, hours: int, minutes: int) -> int {
    86_400_000_000_000 * days + 3_600_000_000_000 * hours + 60_000_000_000 * minutes
}

/// A countdown shows whole units that have not passed yet: days and hours, hours and minutes, or
/// minutes, the second unit left out where it is zero, and the hours from ten days on.
pub proof fn law_a_countdown_shows_what_is_left(
    remaining: Duration,
    shown: String,
    days: nat,
    hours: nat,
    minutes: nat,
)
    requires
        call_ensures(format_compact_countdown, (remaining,), shown),
        hours < 24,
        minutes < 60,
        clock_span(days as int, hours as int, minutes as int) <= remaining.nanos,
        remaining.nanos < clock_span(days as int, hours as int, minutes + 1int),
    ensures
        days >= 10 || (days > 0 && hours == 0) ==> shown@ == text::decimal(days) + "d"@,
        0 < days < 10 && hours > 0 ==> shown@ == text::decimal(days) + "d"@ + text::decimal(hours)
            + "h"@,
        days == 0 && hours > 0 && minutes == 0 ==> shown@ == text::decimal(hours) + "h"@,
        days == 0 && hours > 0 && minutes > 0 ==> shown@ == text::decimal(hours) + "h"@
            + text::decimal(minutes) + "m"@,
        days == 0 && hours == 0 && minutes > 0 ==> shown@ == text::decimal(minutes) + "m"@,
        days == 0 && hours == 0 && minutes == 0 ==> shown@ == "<1m"@,
{
    let total = whole_minutes(remaining.nanos as nat);
    assert(total * 60_000_000_000 <= remaining.nanos < (total + 1) * 60_000_000_000);
    assert(total == 1_440 * days + 60 * hours + minutes);
    assert(total / 1_440 == days);
    assert(total % 1_440 == 60 * hours + minutes);
    assert((60 * hours + minutes) / 60 == hours);
    assert(total % 60 == minutes);
}

/// The reset column shows the local time, and behind it the countdown exactly where it is asked
/// for and the reset still lies ahead.
pub proof fn law_the_countdown_follows_the_reset_time(
    window: &QuotaWindow,
    now: SystemTime,
    show_countdown: bool,
    local: Option<CalendarTime>,
    stamp: String,
    left: Duration,
    countdown: String,
    shown: String,
)
    requires
        call_ensures(format_local_timestamp, (local,), stamp),
        call_ensures(format_compact_countdown, (left,), countdown),
        call_ensures(format_reset_column, (window, now, show_countdown, local), shown),
    ensures
        !show_countdown || window.resets_at.nanos <= now.nanos ==> shown@ == stamp@,
        show_countdown && left.nanos > 0 && window.resets_at.nanos - now.nanos == left.nanos
            ==> shown@ == stamp@ + " ("@ + countdown@ + ")"@,
{
}

/// Money is shown to the nearest cent below a hundred dollars and to the nearest dollar from there
/// on; nothing and less is `$0.00`, and what is not known a dash.
pub proof fn law_money_is_close(cost: Option<i64>, shown: String)
    requires
        call_ensures(format_usd, (cost,), shown),
    ensures
        cost is None ==> shown@ == "--"@,
        cost is Some && cost->0 <= 0 ==> shown@ == "$0.00"@,
        cost is Some && 0 < cost->0 < 100_000_000 ==> exists|cents: nat|
            shown@ == "$"@ + #[trigger] text::hundredths(cents) && -10_000 <= 2 * (cents * 10_000
                - cost->0) <= 10_000,
        cost is Some && 100_000_000 <= cost->0 ==> exists|dollars: nat|
            shown@ == "$"@ + #[trigger] text::decimal(dollars) && -1_000_000 <= 2 * (dollars
                * 1_000_000 - cost->0) <= 1_000_000,
{
    if cost is Some && cost->0 > 0 {
        let cents = text::nearest_even(cost->0 as nat, 10_000);
        let dollars = text::nearest_even(cost->0 as nat, 1_000_000);
        assert(-10_000 <= 2 * (cents * 10_000 - cost->0) <= 10_000);
        assert(-1_000_000 <= 2 * (dollars * 1_000_000 - cost->0) <= 1_000_000);
    }
}

/// A row is named after its window; without one, after what the plan has: five hours, and a month
/// for a free plan and a week for any other.
pub proof fn law_rows_are_named_after_their_windows(
    window: Option<&QuotaWindow>,
    plan_type: Option<&str>,
    short_term: bool,
    stem: String,
    row: String,
    period: String,
)
    requires
        window is Some ==> call_ensures(QuotaWindow::window_short_label, (window->0,), stem),
        call_ensures(quota_window_label, (window, plan_type, short_term), row),
        call_ensures(period_label, (window, plan_type), period),
    ensures
        window is Some ==> row@ == stem@ + "额度"@,
        window is Some && stem@ != "5h"@ ==> period@ == "本"@ + stem@,
        window is Some && stem@ == "5h"@ ==> period@ == "本期"@,
        window is None && short_term ==> row@ == "5h额度"@,
        window is None && !short_term ==> row@ == (if plan_type is Some && plan_type->0@
            == "free"@ {
            "月额度"@
        } else {
            "周额度"@
        }),
        window is None ==> period@ == (if plan_type is Some && plan_type->0@ == "free"@ {
            "本月"@
        } else {
            "本周"@
        }),
{
}

/// A plan without a name of its own is shown as it is reported, and has no accent of its own.
pub proof fn law_unknown_plans_are_shown_as_reported(plan_type: &str, label: &str, color: PlanColor)
    requires
        call_ensures(plan_type_label, (plan_type,), label),
        call_ensures(plan_type_color, (plan_type,), color),
    ensures
        color == PlanColor::Unknown ==> label@ == plan_type@ || (plan_type@ == "unknown"@ && label@
            == "未知方案"@),
        color == PlanColor::Plus <==> label@ == "Plus"@ && plan_type@ == "plus"@,
        color == PlanColor::Edu <==> plan_type@ == "edu"@,
        color == PlanColor::Neutral <==> plan_type@ == "free"@ || plan_type@ == "go"@,
        color == PlanColor::Pro <==> plan_type@ == "pro"@ || plan_type@ == "prolite"@,
        color == PlanColor::Enterprise ==> label@ == "Enterprise"@,
        color == PlanColor::Business ==> label@ == "Business"@ || label@ == "Team"@,
{
    lemma_plan_types_differ();
}

proof fn lemma_plan_types_differ()
    ensures
        "free"@ != "plus"@ && "free"@ != "go"@ && "free"@ != "edu"@ && "free"@ != "pro"@,
        "go"@ != "plus"@ && "go"@ != "edu"@ && "go"@ != "pro"@,
        "plus"@ != "edu"@ && "plus"@ != "pro"@ && "plus"@ != "prolite"@,
        "pro"@ != "edu"@ && "prolite"@ != "edu"@ && "prolite"@ != "free"@ && "prolite"@ != "go"@,
        "team"@ != "edu"@ && "team"@ != "free"@ && "team"@ != "go"@ && "team"@ != "plus"@ && "team"@
            != "pro"@ && "team"@ != "prolite"@,
        "business"@ != "edu"@ && "business"@.len() == 8,
        "ent26"@ != "edu"@ && "ent26"@.len() == 5,
        "enterprise"@.len() == 10 && "enterprise_cbp_usage_based"@.len() == 26,
        "self_serve_business_usage_based"@.len() == 31,
        "free"@.len() == 4 && "go"@.len() == 2 && "plus"@.len() == 4 && "pro"@.len() == 3,
        "prolite"@.len() == 7 && "team"@.len() == 4 && "edu"@.len() == 3,
{
    reveal_strlit("free");
    reveal_strlit("go");
    reveal_strlit("plus");
    reveal_strlit("pro");
    reveal_strlit("prolite");
    reveal_strlit("team");
    reveal_strlit("business");
    reveal_strlit("self_serve_business_usage_based");
    reveal_strlit("ent26");
    reveal_strlit("enterprise_cbp_usage_based");
    reveal_strlit("enterprise");
    reveal_strlit("edu");
    assert("free"@[0] == 'f' && "plus"@[0] == 'p' && "team"@[0] == 't');
    assert("pro"@[0] == 'p' && "edu"@[0] == 'e');
    assert("ent26"@.len() == 5 && "prolite"@.len() == 7 && "edu"@.len() == 3);
    assert("plus"@.len() == 4 && "pro"@.len() == 3);
}

/// A count in a unit is the nearest tenth of it, without a zero after the point.
pub proof fn law_compact_counts_are_close(tokens: u64, unit: u64, suffix: &str, shown: String)
    requires
        unit > 0,
        unit % 2 == 0,
        call_ensures(format_compact_token_unit, (tokens, unit, suffix), shown),
    ensures
        is_tenths_of(shown@, tokens as int, unit as int, suffix@),
{
    lemma_compact_is_close(tokens as nat, unit as nat, suffix@);
}

/// The rows of a period are named after it.
pub proof fn law_period_rows_are_named_after_the_period(
    window: Option<&QuotaWindow>,
    plan_type: Option<&str>,
    period: String,
    labels: PeriodLabels,
)
    requires
        call_ensures(period_label, (window, plan_type), period),
        call_ensures(period_labels, (window, plan_type), labels),
    ensures
        labels.usage@ == period@ + "使用"@,
        labels.overflow@ == period@ + "超额"@,
        labels.estimate@ == period@ + "估值"@,
{
}

/// A local time that is known is shown as such, and one that is not as a dash.
pub proof fn law_unknown_times_are_a_dash(local: Option<CalendarTime>, shown: String, known: String)
    requires
        call_ensures(format_local_timestamp, (local,), shown),
        local is Some ==> call_ensures(format_calendar_time, (&local->0,), known),
    ensures
        local is Some ==> shown@ == known@,
        local is None ==> shown@ == "--"@,
{
}

/// Every plan that is known has a name of its own, but that the usage-based ones share that of their
/// kind; the accent follows the kind.
pub proof fn law_known_plans_have_names(plan_type: &str, label: &str, color: PlanColor)
    requires
        call_ensures(plan_type_label, (plan_type,), label),
        call_ensures(plan_type_color, (plan_type,), color),
    ensures
        ({
            let kind = plan_type@;
            &&& kind == "free"@ ==> label@ == "Free"@ && color is Neutral
            &&& kind == "go"@ ==> label@ == "Go"@ && color is Neutral
            &&& kind == "plus"@ ==> label@ == "Plus"@ && color is Plus
            &&& kind == "pro"@ ==> label@ == "Pro"@ && color is Pro
            &&& kind == "prolite"@ ==> label@ == "Pro Lite"@ && color is Pro
            &&& kind == "team"@ ==> label@ == "Team"@ && color is Business
            &&& kind == "business"@ || kind == "self_serve_business_usage_based"@ ==> label@
                == "Business"@ && color is Business
            &&& kind == "enterprise"@ || kind == "enterprise_cbp_usage_based"@ || kind == "ent26"@
                ==> label@ == "Enterprise"@ && color is Enterprise
            &&& kind == "edu"@ ==> label@ == "Edu"@ && color is Edu
        }),
{
    lemma_plan_types_differ();
}

} // verus!
