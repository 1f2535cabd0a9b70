//! What is known of an account's quota: its windows, the last snapshot, and the local usage.
//!
//! Percentages, dollars and credits are counted in millionths ([`PERCENT`], [`DOLLAR`] and
//! [`CREDIT`] are one of each).
use vstd::prelude::*;

use crate::config::{ColorStyle, UnitStyle};
use crate::text;
use crate::text::push_decimal;
use crate::time::{Duration, SystemTime};

verus! {

/// One percentage point.
pub const PERCENT: i64 = 1_000_000;

/// One dollar.
pub const DOLLAR: i64 = 1_000_000;

/// One credit.
pub const CREDIT: i64 = 1_000_000;

/// What one credit cost, in hundredths of a dollar: 500 credits are $20.
pub const CREDITS_USD_RATE_CENTS: i64 = 4;

pub const HOUR_NANOS: u128 = 3_600_000_000_000;

pub const DAY_HOURS: u128 = 24;

pub const WEEK_HOURS: u128 = 168;

/// One quota window: how much of it is used, how long it runs and when it starts over.
#[derive(Clone, Copy, Debug, PartialEq, Eq, Structural)]
pub struct QuotaWindow {
    pub used_percent: i64,
    pub window_duration: Duration,
    pub resets_at: SystemTime,
}

/// How full a quota is, as a colour.
#[derive(Clone, Copy, Debug, PartialEq, Eq, Structural)]
pub enum QuotaColor {
    Healthy,
    Warning,
    Critical,
    Unknown,
}

/// The short name of a window that runs for `hours` hours.
pub open spec fn window_name(hours: nat) -> Seq<char> {
    let days = hours / 24;
    if hours == 0 || hours % 24 != 0 {
        text::decimal(hours) + "h"@
    } else if days == 30 || days == 31 {
        "月"@
    } else if days == 7 {
        "周"@
    } else if days % 7 == 0 {
        text::decimal(days / 7) + "周"@
    } else {
        text::decimal(days) + "天"@
    }
}

impl QuotaWindow {
    pub open spec fn hours(self) -> nat {
        self.window_duration.nanos as nat / HOUR_NANOS as nat
    }

    pub open spec fn remaining(self) -> int {
        crate::fixed::clamped(100 * PERCENT - self.used_percent, 0, 100 * PERCENT)
    }

    /// Nothing is left of the window.
    pub open spec fn is_exhausted(self) -> bool {
        self.remaining() == 0
    }

    /// The window has not started over yet.
    pub open spec fn is_active(self, now: SystemTime) -> bool {
        self.resets_at.nanos > now.nanos
    }

    /// Red below 20 %, yellow below 50 %.
    pub open spec fn color_of(self) -> QuotaColor {
        if self.remaining() < 20 * PERCENT {
            QuotaColor::Critical
        } else if self.remaining() < 50 * PERCENT {
            QuotaColor::Warning
        } else {
            QuotaColor::Healthy
        }
    }

    /// What is left of the window, between 0 and 100 percent.
    pub fn remaining_percent(&self) -> (remaining: i64)
        ensures
            remaining == self.remaining(),
            0 <= remaining <= 100 * PERCENT,
    {
        if self.used_percent <= 0 {
            100 * PERCENT
        } else if self.used_percent >= 100 * PERCENT {
            0
        } else {
            100 * PERCENT - self.used_percent
        }
    }

    pub fn color(&self) -> (color: QuotaColor)
        ensures
            color == self.color_of(),
    {
        let remaining: i64 = self.remaining_percent();
        if remaining < 20 * PERCENT {
            QuotaColor::Critical
        } else if remaining < 50 * PERCENT {
            QuotaColor::Warning
        } else {
            QuotaColor::Healthy
        }
    }

    /// `5h`, `周`, `月`, `2周`, `3天`: the window's name without a noun.
    pub fn window_short_label(&self) -> (label: String)
        ensures
            label@ == window_name(self.hours()),
    {
        let hours: u128 = self.window_duration.nanos / HOUR_NANOS;
        let days: u128 = hours / DAY_HOURS;
        let mut label = String::new();
        if hours == 0 || hours % DAY_HOURS != 0 {
            push_decimal(&mut label, hours);
            label.append("h");
        } else if days == 30 || days == 31 {
            label.append("月");
        } else if days == 7 {
            label.append("周");
        } else if days % 7 == 0 {
            push_decimal(&mut label, days / 7);
            label.append("周");
        } else {
            push_decimal(&mut label, days);
            label.append("天");
        }
        assert(label@ =~= window_name(self.hours()));
        label
    }

    /// The window's name as a row of the panel shows it: `5h额度`, `周额度`.
    pub fn window_label(&self) -> (label: String)
        ensures
            label@ == window_name(self.hours()) + "额度"@,
    {
        let mut label = self.window_short_label();
        label.append("额度");
        label
    }
}

/// An account's quota as it was last reported.
#[derive(Debug)]
pub struct QuotaSnapshot {
    pub limit_id: String,
    pub primary: QuotaWindow,
    pub secondary: Option<QuotaWindow>,
    pub received_at: SystemTime,
}

impl Clone for QuotaSnapshot {
    fn clone(&self) -> (copy: QuotaSnapshot)
        ensures
            copy == *self,
    {
        QuotaSnapshot {
            limit_id: self.limit_id.clone(),
            primary: self.primary,
            secondary: self.secondary,
            received_at: self.received_at,
        }
    }
}

/// A window, if it has not started over yet.
pub open spec fn if_active(window: Option<&QuotaWindow>, now: SystemTime) -> Option<&QuotaWindow> {
    match window {
        Some(w) => if w.is_active(now) {
            Some(w)
        } else {
            None
        },
        None => None,
    }
}

fn keep_if_active(window: Option<&QuotaWindow>, now: SystemTime) -> (kept: Option<&QuotaWindow>)
    ensures
        kept == if_active(window, now),
{
    match window {
        Some(w) => if w.resets_at.nanos > now.nanos {
            Some(w)
        } else {
            None
        },
        None => None,
    }
}

impl QuotaSnapshot {
    /// The short-term and the long-term window. Of two, the shorter is the short-term one;
    /// a single window is short-term only if it runs for less than a day.
    pub open spec fn slots(&self) -> (Option<&QuotaWindow>, Option<&QuotaWindow>) {
        match self.secondary {
            Some(_) => if self.secondary->0.window_duration.nanos
                < self.primary.window_duration.nanos {
                (Some(&self.secondary->0), Some(&self.primary))
            } else {
                (Some(&self.primary), Some(&self.secondary->0))
            },
            None => if self.primary.hours() < DAY_HOURS {
                (Some(&self.primary), None)
            } else {
                (None, Some(&self.primary))
            },
        }
    }

    pub fn quota_windows(&self) -> (slots: (Option<&QuotaWindow>, Option<&QuotaWindow>))
        ensures
            slots == self.slots(),
    {
        match &self.secondary {
            Some(second) => if second.window_duration.nanos < self.primary.window_duration.nanos {
                (Some(second), Some(&self.primary))
            } else {
                (Some(&self.primary), Some(second))
            },
            None => if self.primary.window_duration.nanos / HOUR_NANOS < DAY_HOURS {
                (Some(&self.primary), None)
            } else {
                (None, Some(&self.primary))
            },
        }
    }

    /// The slots, without the windows that have started over.
    pub open spec fn active(&self, now: SystemTime) -> (
        Option<&QuotaWindow>,
        Option<&QuotaWindow>,
    ) {
        (if_active(self.slots().0, now), if_active(self.slots().1, now))
    }

    pub fn active_windows(&self, now: SystemTime) -> (windows: (
        Option<&QuotaWindow>,
        Option<&QuotaWindow>,
    ))
        ensures
            windows == self.active(now),
    {
        let (short_term, long_term) = self.quota_windows();
        (keep_if_active(short_term, now), keep_if_active(long_term, now))
    }

    /// The account can serve no request: an active window has nothing left.
    pub open spec fn blocked(&self, now: SystemTime) -> bool {
        ||| (self.active(now).0 is Some && self.active(now).0->0.is_exhausted())
        ||| (self.active(now).1 is Some && self.active(now).1->0.is_exhausted())
    }

    pub fn is_blocked(&self, now: SystemTime) -> (blocked: bool)
        ensures
            blocked == self.blocked(now),
    {
        let (short_term, long_term) = self.active_windows(now);
        let short_is_out = match short_term {
            Some(window) => window.remaining_percent() == 0,
            None => false,
        };
        let long_is_out = match long_term {
            Some(window) => window.remaining_percent() == 0,
            None => false,
        };
        short_is_out || long_is_out
    }
}

/// Every window of a snapshot has its slot: one window fills one slot, two fill both, and the
/// short-term window never outlasts the long-term one.
pub proof fn law_slots_hold_every_window(snapshot: &QuotaSnapshot)
    ensures
        ({
            let (short_term, long_term) = snapshot.slots();
            &&& snapshot.secondary is None ==> ((short_term == Some(&snapshot.primary) && long_term
                is None) || (short_term is None && long_term == Some(&snapshot.primary)))
            &&& snapshot.secondary is Some ==> (short_term is Some && long_term is Some
                && short_term->0.window_duration.nanos <= long_term->0.window_duration.nanos
                && ((*short_term->0 == snapshot.primary && *long_term->0 == snapshot.secondary->0)
                || (*long_term->0 == snapshot.primary && *short_term->0
                == snapshot.secondary->0)))
        }),
{
}

/// How the link to the data source stands.
#[derive(Clone, Debug)]
pub enum ConnectionStatus {
    Connecting,
    Online,
    Reconnecting { attempt: u32 },
    Error { message: String },
}

/// Whether the quota is being read right now, and whether the user asked for it.
#[derive(Clone, Copy, Debug, PartialEq, Eq, Structural)]
pub enum QuotaPull {
    Idle,
    Automatic,
    Forced,
}

/// Everything the ball and the panel show.
#[derive(Clone, Debug)]
pub struct AppState {
    pub snapshot: Option<QuotaSnapshot>,
    pub status: ConnectionStatus,
    pub plan_type: Option<String>,
    pub quota_pull: QuotaPull,
    pub quota_refresh_interval: Duration,
    pub today_tokens: Option<u64>,
    pub today_cost: Option<i64>,
    pub today_overflow_tokens: Option<u64>,
    pub today_overflow_cost: Option<i64>,
    pub current_period_tokens: Option<u64>,
    pub current_period_cost: Option<i64>,
    pub current_period_overflow_tokens: Option<u64>,
    pub current_period_overflow_cost: Option<i64>,
    pub current_period_overflow_credits: Option<i64>,
    pub period_total_value_estimate: Option<i64>,
    pub token_unit: UnitStyle,
    pub color_style: ColorStyle,
    pub show_reset_countdown: bool,
}

impl Default for AppState {
    fn default() -> (state: AppState)
        ensures
            state.snapshot is None,
            state.status is Connecting,
            state.plan_type is None,
            state.quota_pull == QuotaPull::Idle,
            state.quota_refresh_interval.nanos == 300_000_000_000,
            state.today_tokens is None,
            state.today_cost is None,
            state.today_overflow_tokens is None,
            state.today_overflow_cost is None,
            state.current_period_tokens is None,
            state.current_period_cost is None,
            state.current_period_overflow_tokens is None,
            state.current_period_overflow_cost is None,
            state.current_period_overflow_credits is None,
            state.period_total_value_estimate is None,
            state.token_unit == UnitStyle::Zh,
            state.color_style == ColorStyle::Soft,
            !state.show_reset_countdown,
    {
        AppState {
            snapshot: None,
            status: ConnectionStatus::Connecting,
            plan_type: None,
            quota_pull: QuotaPull::Idle,
            quota_refresh_interval: Duration::from_secs(300),
            today_tokens: None,
            today_cost: None,
            today_overflow_tokens: None,
            today_overflow_cost: None,
            current_period_tokens: None,
            current_period_cost: None,
            current_period_overflow_tokens: None,
            current_period_overflow_cost: None,
            current_period_overflow_credits: None,
            period_total_value_estimate: None,
            token_unit: UnitStyle::Zh,
            color_style: ColorStyle::Soft,
            show_reset_countdown: false,
        }
    }
}

impl AppState {
    /// The snapshot is older than two refresh intervals.
    pub open spec fn stale(&self, now: SystemTime) -> bool {
        self.snapshot is Some && now.since(self.snapshot->0.received_at) > crate::fixed::clamped(
            2 * self.quota_refresh_interval.nanos,
            0,
            crate::time::MAX_SPAN_NANOS as int,
        )
    }

    pub fn is_stale(&self, now: SystemTime) -> (stale: bool)
        ensures
            stale == self.stale(now),
    {
        match &self.snapshot {
            Some(snapshot) => match now.duration_since(snapshot.received_at) {
                Ok(age) => age.nanos > self.quota_refresh_interval.saturating_mul(2).nanos,
                Err(_) => false,
            },
            None => false,
        }
    }
}

/// What is left and what is used make up the whole, as far as a share goes.
pub proof fn law_used_and_left_make_up_the_whole(window: &QuotaWindow, left: i64)
    requires
        call_ensures(QuotaWindow::remaining_percent, (window,), left),
    ensures
        0 <= left <= 100_000_000,
        0 <= window.used_percent <= 100_000_000 ==> window.used_percent + left == 100_000_000,
        window.used_percent > 100_000_000 ==> left == 0,
        window.used_percent < 0 ==> left == 100_000_000,
{
}

/// More than 80 % used is red, more than 50 % is yellow, and anything less is green.
pub proof fn law_colour_tells_how_much_is_used(window: &QuotaWindow, color: QuotaColor)
    requires
        call_ensures(QuotaWindow::color, (window,), color),
    ensures
        color == QuotaColor::Critical <==> window.used_percent > 80_000_000,
        color == QuotaColor::Warning <==> 50_000_000 < window.used_percent <= 80_000_000,
        color == QuotaColor::Healthy <==> window.used_percent <= 50_000_000,
{
}

/// The more is used, the graver the colour.
pub proof fn law_colour_grows_graver_with_use(
    less: &QuotaWindow,
    more: &QuotaWindow,
    before: QuotaColor,
    after: QuotaColor,
)
    requires
        call_ensures(QuotaWindow::color, (less,), before),
        call_ensures(QuotaWindow::color, (more,), after),
        less.used_percent <= more.used_percent,
    ensures
        before == QuotaColor::Critical ==> after == QuotaColor::Critical,
        after == QuotaColor::Healthy ==> before == QuotaColor::Healthy,
        before != QuotaColor::Unknown,
{
}

/// Whole hours that are no whole days are counted in hours, a week and a month have names of
/// their own, whole weeks are counted in weeks and all other days in days.
pub proof fn law_windows_are_named_by_their_length(window: &QuotaWindow, label: String, count: nat)
    requires
        call_ensures(QuotaWindow::window_short_label, (window,), label),
    ensures
        ({
            let hour: int = 3_600_000_000_000;
            let nanos = window.window_duration.nanos;
            &&& count * hour <= nanos < (count + 1) * hour && (count == 0 || count % 24 != 0)
                ==> label@ == text::decimal(count) + "h"@
            &&& 7 * 24 * hour <= nanos < (7 * 24 + 1) * hour ==> label@ == "周"@
            &&& 30 * 24 * hour <= nanos < (30 * 24 + 1) * hour ==> label@ == "月"@
            &&& 31 * 24 * hour <= nanos < (31 * 24 + 1) * hour ==> label@ == "月"@
            &&& count >= 2 && count * 168 * hour <= nanos < (count * 168 + 1) * hour ==> label@
                == text::decimal(count) + "周"@
            &&& count > 0 && count % 7 != 0 && count != 30 && count != 31 && count * 24 * hour
                <= nanos < (count * 24 + 1) * hour ==> label@ == text::decimal(count) + "天"@
        }),
{
    assert(window.hours() == window.window_duration.nanos as int / 3_600_000_000_000);
}

/// A lone window is short-term if it is shorter than a day; of two, the shorter one is, and of
/// two equally long ones the first.
pub proof fn law_the_shorter_window_is_short_term(
    snapshot: &QuotaSnapshot,
    short_term: Option<&QuotaWindow>,
    long_term: Option<&QuotaWindow>,
)
    requires
        call_ensures(QuotaSnapshot::quota_windows, (snapshot,), (short_term, long_term)),
    ensures
        match snapshot.secondary {
            None => {
                let day: int = 86_400_000_000_000;
                &&& snapshot.primary.window_duration.nanos < day ==> short_term == Some(
                    &snapshot.primary,
                ) && long_term is None
                &&& snapshot.primary.window_duration.nanos >= day ==> long_term == Some(
                    &snapshot.primary,
                ) && short_term is None
            },
            Some(second) => {
                &&& snapshot.primary.window_duration.nanos <= second.window_duration.nanos
                    ==> short_term == Some(&snapshot.primary) && long_term == Some(&second)
                &&& snapshot.primary.window_duration.nanos > second.window_duration.nanos
                    ==> short_term == Some(&second) && long_term == Some(&snapshot.primary)
            },
        },
{
}

/// A window counts until the moment at which it starts over, and not from then on; the others
/// keep their slots.
pub proof fn law_a_window_counts_until_it_starts_over(
    snapshot: &QuotaSnapshot,
    now: SystemTime,
    slots: (Option<&QuotaWindow>, Option<&QuotaWindow>),
    active: (Option<&QuotaWindow>, Option<&QuotaWindow>),
)
    requires
        call_ensures(QuotaSnapshot::quota_windows, (snapshot,), slots),
        call_ensures(QuotaSnapshot::active_windows, (snapshot, now), active),
    ensures
        active.0 is Some <==> slots.0 is Some && now.nanos < slots.0->0.resets_at.nanos,
        active.1 is Some <==> slots.1 is Some && now.nanos < slots.1->0.resets_at.nanos,
        active.0 is Some ==> active.0 == slots.0,
        active.1 is Some ==> active.1 == slots.1,
{
}

/// An account is blocked exactly while one of its windows is used up and has not started over.
pub proof fn law_a_used_up_window_blocks_until_it_starts_over(
    snapshot: &QuotaSnapshot,
    now: SystemTime,
    blocked: bool,
)
    requires
        call_ensures(QuotaSnapshot::is_blocked, (snapshot, now), blocked),
    ensures
        blocked <==> {
            ||| snapshot.primary.used_percent >= 100_000_000 && now.nanos
                < snapshot.primary.resets_at.nanos
            ||| snapshot.secondary is Some && snapshot.secondary->0.used_percent >= 100_000_000
                && now.nanos < snapshot.secondary->0.resets_at.nanos
        },
{
}

/// A snapshot is stale once it is older than two refresh intervals; one from the future, or none
/// at all, is not.
pub proof fn law_a_snapshot_lasts_two_intervals(state: &AppState, now: SystemTime, stale: bool)
    requires
        call_ensures(AppState::is_stale, (state, now), stale),
        2 * state.quota_refresh_interval.nanos <= 18_446_744_073_709_551_615_999_999_999,
    ensures
        state.snapshot is None ==> !stale,
        state.snapshot is Some ==> (stale <==> now.nanos - state.snapshot->0.received_at.nanos > 2
            * state.quota_refresh_interval.nanos),
{
}

/// A row's name is the window's short name and the word for quota.
pub proof fn law_rows_carry_the_short_name(window: &QuotaWindow, short: String, label: String)
    requires
        call_ensures(QuotaWindow::window_short_label, (window,), short),
        call_ensures(QuotaWindow::window_label, (window,), label),
    ensures
        label@ == short@ + "额度"@,
{
}

} // verus!
