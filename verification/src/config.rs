//! The settings a user can change, as the application keeps them.
use vstd::prelude::*;

use crate::time::Duration;

verus! {

/// The edge of the work area that the floating ball is docked to.
#[derive(Clone, Copy, Debug, PartialEq, Eq, Hash, Structural)]
pub enum AnchorEdge {
    Left,
    Right,
    Top,
    Bottom,
}

/// How token counts are abbreviated: in steps of ten thousand or of one thousand.
#[derive(Clone, Copy, Debug, PartialEq, Eq, Hash, Structural)]
pub enum UnitStyle {
    Zh,
    En,
}

/// Which set of quota colours the ball and the panel use.
#[derive(Clone, Copy, Debug, PartialEq, Eq, Hash, Structural)]
pub enum ColorStyle {
    Soft,
    Vivid,
}

impl Default for UnitStyle {
    fn default() -> (style: UnitStyle)
        ensures
            style == UnitStyle::Zh,
    {
        UnitStyle::Zh
    }
}

impl Default for ColorStyle {
    fn default() -> (style: ColorStyle)
        ensures
            style == ColorStyle::Soft,
    {
        ColorStyle::Soft
    }
}

/// Where the ball is docked: the monitor, the edge, and the distance along that edge in
/// device-independent pixels (millionths).
#[derive(Clone, Debug)]
pub struct Placement {
    pub monitor_device: String,
    pub edge: AnchorEdge,
    pub offset_dip: i64,
}

pub const MIN_REFRESH_SECS: u64 = 60;

pub const MAX_REFRESH_SECS: u64 = 3600;

pub const DEFAULT_REFRESH_SECS: u64 = 300;

pub const MIN_CHECK_SECS: u64 = 1;

pub const MAX_CHECK_SECS: u64 = 60;

pub const DEFAULT_CHECK_SECS: u64 = 2;

#[derive(Clone, Debug)]
pub struct AppConfigV1 {
    pub placement: Placement,
    pub always_on_top: bool,
    pub start_with_windows: bool,
    pub follow_codex: bool,
    pub collapse_on_outside_click: bool,
    pub notify_on_reset: bool,
    pub notify_on_overflow: bool,
    pub show_reset_countdown: bool,
    pub token_unit: UnitStyle,
    pub color_style: ColorStyle,
    pub quota_refresh_interval_secs: u64,
    pub follow_codex_check_interval_secs: u64,
}

impl Default for AppConfigV1 {
    fn default() -> (config: AppConfigV1)
        ensures
            config.placement.monitor_device@ == Seq::<char>::empty(),
            config.placement.edge == AnchorEdge::Right,
            config.placement.offset_dip == 0,
            config.always_on_top,
            !config.start_with_windows,
            !config.follow_codex,
            config.collapse_on_outside_click,
            config.notify_on_reset,
            config.notify_on_overflow,
            !config.show_reset_countdown,
            config.token_unit == UnitStyle::Zh,
            config.color_style == ColorStyle::Soft,
            config.quota_refresh_interval_secs == DEFAULT_REFRESH_SECS,
            config.follow_codex_check_interval_secs == DEFAULT_CHECK_SECS,
    {
        AppConfigV1 {
            placement: Placement {
                monitor_device: String::new(),
                edge: AnchorEdge::Right,
                offset_dip: 0,
            },
            always_on_top: true,
            start_with_windows: false,
            follow_codex: false,
            collapse_on_outside_click: true,
            notify_on_reset: true,
            notify_on_overflow: true,
            show_reset_countdown: false,
            token_unit: UnitStyle::Zh,
            color_style: ColorStyle::Soft,
            quota_refresh_interval_secs: DEFAULT_REFRESH_SECS,
            follow_codex_check_interval_secs: DEFAULT_CHECK_SECS,
        }
    }
}

/// `secs` kept within `low..=high`.
pub open spec fn seconds_within(secs: u64, low: u64, high: u64) -> u64 {
    if secs < low {
        low
    } else if secs > high {
        high
    } else {
        secs
    }
}

fn keep_seconds_within(secs: u64, low: u64, high: u64) -> (kept: u64)
    requires
        low <= high,
    ensures
        kept == seconds_within(secs, low, high),
{
    if secs < low {
        low
    } else if secs > high {
        high
    } else {
        secs
    }
}

impl AppConfigV1 {
    /// The refresh interval in force: the configured one, kept within one minute to one hour.
    pub open spec fn refresh_secs(&self) -> u64 {
        seconds_within(self.quota_refresh_interval_secs, MIN_REFRESH_SECS, MAX_REFRESH_SECS)
    }

    pub fn quota_refresh_interval(&self) -> (interval: Duration)
        ensures
            interval.nanos == self.refresh_secs() * 1_000_000_000,
    {
        Duration::from_secs(
            keep_seconds_within(
                self.quota_refresh_interval_secs,
                MIN_REFRESH_SECS,
                MAX_REFRESH_SECS,
            ),
        )
    }

    /// Takes over a new refresh interval, in whole seconds.
    pub fn set_quota_refresh_interval(&mut self, interval: Duration)
        requires
            interval.nanos / 1_000_000_000 <= u64::MAX,
        ensures
            *final(self) == (AppConfigV1 {
                quota_refresh_interval_secs: (interval.nanos / 1_000_000_000) as u64,
                ..*old(self)
            }),
    {
        self.quota_refresh_interval_secs = interval.as_secs();
    }

    /// How often the presence watcher looks again while nothing runs: one second to one minute.
    pub fn follow_codex_check_interval(&self) -> (interval: Duration)
        ensures
            interval.nanos == seconds_within(
                self.follow_codex_check_interval_secs,
                MIN_CHECK_SECS,
                MAX_CHECK_SECS,
            ) * 1_000_000_000,
    {
        Duration::from_secs(
            keep_seconds_within(
                self.follow_codex_check_interval_secs,
                MIN_CHECK_SECS,
                MAX_CHECK_SECS,
            ),
        )
    }
}

/// Intervals are what is configured, as far as that is reasonable: a minute to an hour for the
/// quota, a second to a minute for the processes.
pub proof fn law_intervals_stay_reasonable(
    config: &AppConfigV1,
    refresh: Duration,
    check: Duration,
)
    requires
        call_ensures(AppConfigV1::quota_refresh_interval, (config,), refresh),
        call_ensures(AppConfigV1::follow_codex_check_interval, (config,), check),
    ensures
        60_000_000_000 <= refresh.nanos <= 3_600_000_000_000,
        60 <= config.quota_refresh_interval_secs <= 3_600 ==> refresh.nanos
            == config.quota_refresh_interval_secs * 1_000_000_000,
        config.quota_refresh_interval_secs < 60 ==> refresh.nanos == 60_000_000_000,
        config.quota_refresh_interval_secs > 3_600 ==> refresh.nanos == 3_600_000_000_000,
        1_000_000_000 <= check.nanos <= 60_000_000_000,
        1 <= config.follow_codex_check_interval_secs <= 60 ==> check.nanos
            == config.follow_codex_check_interval_secs * 1_000_000_000,
        config.follow_codex_check_interval_secs < 1 ==> check.nanos == 1_000_000_000,
        config.follow_codex_check_interval_secs > 60 ==> check.nanos == 60_000_000_000,
{
}

/// A reasonable interval of whole seconds that is set is the one in force, and setting it changes
/// no other setting.
pub proof fn law_a_set_interval_is_in_force(
    config: &mut AppConfigV1,
    interval: Duration,
    refresh: Duration,
)
    requires
        60_000_000_000 <= interval.nanos <= 3_600_000_000_000,
        interval.nanos % 1_000_000_000 == 0,
        call_ensures(AppConfigV1::set_quota_refresh_interval, (config, interval), ()),
        call_ensures(AppConfigV1::quota_refresh_interval, (final(config),), refresh),
    ensures
        refresh.nanos == interval.nanos,
        *final(config) == (AppConfigV1 {
            quota_refresh_interval_secs: final(config).quota_refresh_interval_secs,
            ..*old(config)
        }),
{
}

/// Settings that nobody has changed keep the ball on top at the right edge, announce everything,
/// refresh every five minutes and look for Codex every two seconds.
pub proof fn law_default_settings_are_reasonable(
    config: AppConfigV1,
    refresh: Duration,
    check: Duration,
)
    requires
        call_ensures(AppConfigV1::default, (), config),
        call_ensures(AppConfigV1::quota_refresh_interval, (&config,), refresh),
        call_ensures(AppConfigV1::follow_codex_check_interval, (&config,), check),
    ensures
        config.placement.monitor_device@.len() == 0,
        config.placement.edge is Right,
        config.placement.offset_dip == 0,
        config.always_on_top && config.collapse_on_outside_click,
        config.notify_on_reset && config.notify_on_overflow,
        !config.start_with_windows && !config.follow_codex && !config.show_reset_countdown,
        config.token_unit is Zh,
        config.color_style is Soft,
        refresh.nanos == 300_000_000_000,
        check.nanos == 2_000_000_000,
{
}

} // verus!
