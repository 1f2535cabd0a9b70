//! When to tell the user that a quota window has started over, or that the account has begun
//! to spend its balance.
//!
//! Both rules rest on one premise: only what the program itself has just seen is worth a
//! notification. What happened while it was not looking is never made up for later.
use vstd::prelude::*;

use crate::commands::{CMD_TEST_NOTIFY_BALANCE, CMD_TEST_NOTIFY_RESET};
use crate::fixed;
use crate::fixed::round_div;
use crate::presentation;
use crate::presentation::format_usd;
use crate::quota;
use crate::quota::{QuotaSnapshot, QuotaWindow, CREDIT, CREDITS_USD_RATE_CENTS, PERCENT};
use crate::text;
use crate::text::{chars_of, push_decimal, push_hundredths, push_rounded, unsigned_magnitude};
use crate::time::{Duration, SystemTime, MAX_SPAN_NANOS};

verus! {

/// Spending less than this many credits (a quarter of one) is noise.
pub const OVERFLOW_NOTIFY_CREDITS: i64 = 250_000;

/// Two looks further apart than this, fifteen minutes, leave a gap in between.
pub const MIN_BLIND_GAP_SECS: u64 = 900;

/// Which notifications the user wants.
#[derive(Clone, Copy, Debug, PartialEq, Eq, Structural)]
pub struct NotificationSwitches {
    pub reset: bool,
    pub overflow: bool,
}

/// What outlives the program: the period whose overflow has been dealt with.
#[derive(Clone, Copy, Debug, Default, PartialEq, Eq, Structural)]
pub struct NotifyState {
    pub notified_overflow_period: Option<i64>,
}

/// A notification to show.
#[derive(Clone, Debug, PartialEq, Eq)]
pub enum Notification {
    /// A quota window has started over.
    Reset { window: String, remaining_percent: i64 },
    /// The balance has been touched for the first time in this period.
    Overflow { credits: i64 },
}

/// What a notification says.
pub enum Notice {
    Reset { window: Seq<char>, remaining_percent: int },
    Overflow { credits: int },
}

impl View for Notification {
    type V = Notice;

    open spec fn view(&self) -> Notice {
        match *self {
            Notification::Reset { window, remaining_percent } => Notice::Reset {
                window: window@,
                remaining_percent: remaining_percent as int,
            },
            Notification::Overflow { credits } => Notice::Overflow { credits: credits as int },
        }
    }
}

/// What a list of notifications says.
pub open spec fn notices_of(notifications: Seq<Notification>) -> Seq<Notice> {
    notifications.map_values(|n: Notification| n@)
}

pub open spec fn is_alphanumeric(c: char) -> bool {
    ('0' <= c <= '9') || ('A' <= c <= 'Z') || ('a' <= c <= 'z')
}

/// A name that ends in a Latin letter or digit keeps a space before the next word.
pub open spec fn separator(name: Seq<char>) -> Seq<char> {
    if name.len() > 0 && is_alphanumeric(name.last()) {
        " "@
    } else {
        ""@
    }
}

pub fn window_separator(window: &str) -> (gap: &'static str)
    ensures
        gap@ == separator(window@),
{
    let chars = chars_of(window);
    if chars.len() == 0 {
        return "";
    }
    let c = chars[chars.len() - 1];
    assert(window@.last() == c);
    if is_ascii_alphanumeric(c) {
        " "
    } else {
        ""
    }
}

fn is_ascii_alphanumeric(c: char) -> (yes: bool)
    ensures
        yes == is_alphanumeric(c),
{
    let v: u32 = c as u32;
    (48 <= v && v <= 57) || (65 <= v && v <= 90) || (97 <= v && v <= 122)
}

/// An amount of credits: to the hundredth, halves away from zero, and without decimals where
/// they are zero.
pub open spec fn credits_text(credits: int) -> Seq<char> {
    let cents = fixed::nearest(fixed::magnitude(credits), 10_000) as nat;
    let sign = if credits < 0 {
        "-"@
    } else {
        ""@
    };
    if cents % 100 == 0 {
        sign + text::decimal(cents / 100)
    } else {
        sign + text::hundredths(cents)
    }
}

pub fn format_credits(credits: i64) -> (shown: String)
    ensures
        shown@ == credits_text(credits as int),
{
    let m: i128 = unsigned_magnitude(credits) as i128;
    let rounded: i128 = round_div(m, 10_000);
    proof {
        fixed::law_nearest_is_monotonic(0, m as int, 10_000);
        fixed::law_nearest_of_a_multiple(0, 10_000);
        reveal_strlit("");
    }
    let cents: u128 = rounded as u128;
    let mut shown = String::new();
    if credits < 0 {
        shown.append("-");
    }
    if cents % 100 == 0 {
        push_decimal(&mut shown, cents / 100);
    } else {
        push_hundredths(&mut shown, cents);
    }
    assert(shown@ =~= credits_text(credits as int));
    shown
}

/// What credits cost, in millionths of a dollar.
pub open spec fn dollars_of(credits: int) -> int {
    fixed::nearest(credits * CREDITS_USD_RATE_CENTS, 100)
}

/// Title and body of a notification; `period` is what the panel calls the current period.
pub open spec fn balloon(notice: Notice, period: Seq<char>) -> (Seq<char>, Seq<char>) {
    match notice {
        Notice::Reset { window, remaining_percent } => (
            "额度已重置"@,
            window + separator(window) + "窗口已重置，当前剩余 "@ + text::rounded_text(remaining_percent, 1_000_000)
                + "%"@,
        ),
        Notice::Overflow { credits } => (
            "已开始动用余额"@,
            period + "已扣 "@ + credits_text(credits) + " credits（约 "@
                + presentation::usd_text(Some(dollars_of(credits) as i64)) + "）"@,
        ),
    }
}

impl Notification {
    pub fn balloon_text(&self, period: &str) -> (shown: (&'static str, String))
        ensures
            (shown.0@, shown.1@) == balloon(self@, period@),
    {
        match self {
            Notification::Reset { window, remaining_percent } => {
                let mut body = window.clone();
                body.append(window_separator(window.as_str()));
                body.append("窗口已重置，当前剩余 ");
                push_rounded(&mut body, *remaining_percent, 1_000_000);
                body.append("%");
                ("额度已重置", body)
            },
            Notification::Overflow { credits } => {
                let product: i128 = *credits as i128 * CREDITS_USD_RATE_CENTS as i128;
                let dollars: i128 = round_div(product, 100);
                proof {
                    fixed::law_nearest_is_monotonic(-0x8000_0000_0000_0000 * 100, product as int, 100);
                    fixed::law_nearest_is_monotonic(product as int, 0x7fff_ffff_ffff_ffff * 100int, 100);
                    fixed::law_nearest_of_a_multiple(-0x8000_0000_0000_0000, 100);
                    fixed::law_nearest_of_a_multiple(0x7fff_ffff_ffff_ffff, 100);
                }
                let mut body = String::new();
                body.append(period);
                body.append("已扣 ");
                body.append(format_credits(*credits).as_str());
                body.append(" credits（约 ");
                body.append(format_usd(Some(dollars as i64)).as_str());
                body.append("）");
                assert(body@ =~= balloon(self@, period@).1);
                ("已开始动用余额", body)
            },
        }
    }
}

/// The longest gap between two looks that still counts as watching, in nanoseconds: fifteen
/// minutes, or two refresh intervals where that is longer.
pub open spec fn gap_limit(refresh_interval: Duration) -> int {
    let twice = fixed::clamped(2 * refresh_interval.nanos, 0, MAX_SPAN_NANOS as int);
    if twice > MIN_BLIND_GAP_SECS * 1_000_000_000 {
        twice
    } else {
        MIN_BLIND_GAP_SECS * 1_000_000_000
    }
}

pub fn blind_gap_limit(refresh_interval: Duration) -> (limit: Duration)
    ensures
        limit.nanos == gap_limit(refresh_interval),
{
    Duration::from_secs(MIN_BLIND_GAP_SECS).max(refresh_interval.saturating_mul(2))
}

/// Whether the server has replaced a window by the next one: the same length, and a reset time
/// that moved on by one length, give or take a tenth of it.
pub open spec fn rolled_over(previous: QuotaWindow, next: QuotaWindow) -> bool {
    let length = previous.window_duration.nanos as int;
    let expected = previous.resets_at.nanos + length;
    &&& previous.window_duration == next.window_duration
    &&& expected <= i128::MAX
    &&& 10 * fixed::magnitude(next.resets_at.nanos - expected) <= length
}

pub fn window_reset(previous: &QuotaWindow, next: &QuotaWindow) -> (reset: bool)
    ensures
        reset == rolled_over(*previous, *next),
{
    if previous.window_duration.nanos != next.window_duration.nanos {
        return false;
    }
    let expected = match previous.resets_at.checked_add(previous.window_duration) {
        Some(expected) => expected,
        None => return false,
    };
    let drift: u128 = match next.resets_at.duration_since(expected) {
        Ok(later) => later.nanos,
        Err(earlier) => earlier.nanos,
    };
    drift <= previous.window_duration.nanos / 10
}

/// A reset needs the boundary to move by a whole length: a snapshot of the same window, or one
/// whose percentage alone has dropped, is none.
pub proof fn law_an_unmoved_boundary_is_no_reset(previous: QuotaWindow, next: QuotaWindow)
    requires
        previous.window_duration.nanos > 0,
        next.resets_at == previous.resets_at,
    ensures
        !rolled_over(previous, next),
{
}

/// A reported reset means that the boundary has moved on by one whole length, a tenth of it more
/// or less: one that stayed, or jitters, or belongs to another account, is none. A boundary of the
/// same length that moved by exactly one length always is one.
pub proof fn law_a_reset_moves_the_boundary_by_one_length(
    previous: &QuotaWindow,
    next: &QuotaWindow,
    reset: bool,
)
    requires
        call_ensures(window_reset, (previous, next), reset),
    ensures
        reset ==> previous.window_duration == next.window_duration,
        ({
            let length = previous.window_duration.nanos as int;
            let moved = next.resets_at.nanos - previous.resets_at.nanos;
            &&& reset ==> 9 * length <= 10 * moved <= 11 * length
            &&& previous.window_duration == next.window_duration && moved == length ==> reset
            &&& previous.window_duration == next.window_duration && 9 * length <= 10 * moved <= 11
                * length && previous.resets_at.nanos + length <= i128::MAX ==> reset
        }),
{
}

/// The window of a slot, if it has rolled over between two snapshots.
pub open spec fn reset_in_slot<'a>(
    previous: Option<&'a QuotaWindow>,
    next: Option<&'a QuotaWindow>,
) -> Seq<&'a QuotaWindow> {
    if previous is Some && next is Some && rolled_over(*previous->0, *next->0) {
        seq![next->0]
    } else {
        Seq::empty()
    }
}

/// The windows that have rolled over between two snapshots, the short-term one first.
pub open spec fn resets_between<'a>(
    previous: &'a QuotaSnapshot,
    next: &'a QuotaSnapshot,
) -> Seq<&'a QuotaWindow> {
    reset_in_slot(previous.slots().0, next.slots().0) + reset_in_slot(
        previous.slots().1,
        next.slots().1,
    )
}

pub fn reset_windows<'a>(previous: &'a QuotaSnapshot, next: &'a QuotaSnapshot) -> (windows: Vec<
    &'a QuotaWindow,
>)
    ensures
        windows@ == resets_between(previous, next),
{
    let (previous_short, previous_long) = previous.quota_windows();
    let (next_short, next_long) = next.quota_windows();
    let mut windows: Vec<&'a QuotaWindow> = Vec::new();
    if let (Some(before), Some(after)) = (previous_short, next_short) {
        if window_reset(before, after) {
            windows.push(after);
        }
    }
    assert(windows@ =~= reset_in_slot(previous_short, next_short));
    if let (Some(before), Some(after)) = (previous_long, next_long) {
        if window_reset(before, after) {
            windows.push(after);
        }
    }
    assert(windows@ =~= resets_between(previous, next));
    windows
}

/// The current period: the second at which the long-term window starts over. An account without
/// one, or a time before 1970, has none.
pub open spec fn period_of(snapshot: &QuotaSnapshot) -> Option<i64> {
    match snapshot.slots().1 {
        Some(window) => {
            let secs = window.resets_at.nanos as int / 1_000_000_000;
            if window.resets_at.nanos < 0 || secs > i64::MAX {
                None
            } else {
                Some(secs as i64)
            }
        },
        None => None,
    }
}

pub fn period_key(snapshot: &QuotaSnapshot) -> (key: Option<i64>)
    ensures
        key == period_of(snapshot),
{
    let (_, long_term) = snapshot.quota_windows();
    match long_term {
        Some(window) => {
            if window.resets_at.nanos < 0 {
                return None;
            }
            let secs: i128 = window.resets_at.nanos / 1_000_000_000;
            if secs > i64::MAX as i128 {
                None
            } else {
                Some(secs as i64)
            }
        },
        None => None,
    }
}

/// What one look found.
pub struct NotifyOutcome {
    pub notifications: Vec<Notification>,
    /// The persistent state has changed and must be written back.
    pub state_dirty: bool,
}

/// What the notifier remembers between two looks.
#[derive(Debug)]
pub struct Notifier {
    /// The last snapshot seen.
    pub observed: Option<QuotaSnapshot>,
    /// When it was last looked at.
    pub observed_at: Option<SystemTime>,
    /// A fresh look has found less than the threshold spent in this period.
    pub overflow_armed: bool,
    /// The current period.
    pub period: Option<i64>,
    /// This period's overflow has been dealt with.
    pub period_handled: bool,
}

impl Default for Notifier {
    fn default() -> (notifier: Notifier)
        ensures
            notifier == Notifier::blank(),
    {
        Notifier {
            observed: None,
            observed_at: None,
            overflow_armed: false,
            period: None,
            period_handled: false,
        }
    }
}

/// Everything one look takes in.
pub struct Look {
    pub snapshot: Option<QuotaSnapshot>,
    pub credits: Option<int>,
    pub switches: NotificationSwitches,
    pub refresh_interval: Duration,
    pub now: SystemTime,
}

impl Look {
    /// The period of the snapshot.
    pub open spec fn period(self) -> Option<i64> {
        match self.snapshot {
            Some(snapshot) => period_of(&snapshot),
            None => None,
        }
    }

    /// The snapshot is recent enough for its numbers to speak of now.
    pub open spec fn is_fresh(self) -> bool {
        self.snapshot is Some ==> self.now.since(self.snapshot->0.received_at) <= gap_limit(
            self.refresh_interval,
        )
    }

    /// More than noise has been spent.
    pub open spec fn overflows(self) -> bool {
        self.credits is Some && self.credits->0 >= OVERFLOW_NOTIFY_CREDITS
    }
}

/// What a rolled-over window is announced as.
pub open spec fn reset_notice(window: QuotaWindow) -> Notice {
    Notice::Reset {
        window: quota::window_name(window.hours()),
        remaining_percent: window.remaining(),
    }
}

impl Notifier {
    pub open spec fn blank() -> Notifier {
        Notifier {
            observed: None,
            observed_at: None,
            overflow_armed: false,
            period: None,
            period_handled: false,
        }
    }

    /// Nobody has looked for too long.
    pub open spec fn is_interrupted(self, look: Look) -> bool {
        self.observed_at is Some && look.now.since(self.observed_at->0) > gap_limit(
            look.refresh_interval,
        )
    }

    /// The announcements of windows that have started over: only between two snapshots close
    /// together, seen without interruption, and only if the account can serve requests now.
    pub open spec fn resets(self, look: Look) -> Seq<Notice> {
        if look.snapshot is Some && self.observed is Some && !self.is_interrupted(look)
            && look.snapshot->0.received_at.since(self.observed->0.received_at) <= gap_limit(
            look.refresh_interval,
        ) && !look.snapshot->0.blocked(look.now) && look.switches.reset {
            resets_between(&self.observed->0, &look.snapshot->0).map_values(
                |window: &QuotaWindow| reset_notice(*window),
            )
        } else {
            Seq::empty()
        }
    }

    /// Whether an uninterrupted look in this very period had found less than the threshold.
    pub open spec fn stays_armed(self, look: Look) -> bool {
        self.overflow_armed && !self.is_interrupted(look) && look.period() == self.period
    }

    /// Whether the look's period has been dealt with, here or in an earlier run.
    pub open spec fn is_handled(self, state: NotifyState, look: Look) -> bool {
        if look.period() == self.period {
            self.period_handled
        } else {
            look.period() is Some && state.notified_overflow_period == look.period()
        }
    }

    /// Whether this look sees the balance being touched for the first time in the period.
    pub open spec fn fires(self, state: NotifyState, look: Look) -> bool {
        &&& look.is_fresh()
        &&& look.overflows()
        &&& look.period() is Some
        &&& self.stays_armed(look)
        &&& !self.is_handled(state, look)
    }

    pub open spec fn after(self, state: NotifyState, look: Look) -> Notifier {
        Notifier {
            observed: if look.snapshot is Some {
                look.snapshot
            } else {
                self.observed
            },
            observed_at: Some(look.now),
            overflow_armed: look.is_fresh() && (self.stays_armed(look) || (look.credits is Some
                && !look.overflows())),
            period: look.period(),
            period_handled: self.is_handled(state, look) || self.fires(state, look),
        }
    }

    pub open spec fn state_after(self, state: NotifyState, look: Look) -> NotifyState {
        if self.fires(state, look) {
            NotifyState { notified_overflow_period: look.period() }
        } else {
            state
        }
    }

    pub open spec fn notices(self, state: NotifyState, look: Look) -> Seq<Notice> {
        if self.fires(state, look) && look.switches.overflow {
            self.resets(look).push(Notice::Overflow { credits: look.credits->0 })
        } else {
            self.resets(look)
        }
    }

    /// Forgets everything seen, so that the next look has nothing to compare with.
    pub fn reset(&mut self)
        ensures
            *final(self) == Notifier::blank(),
    {
        self.observed = None;
        self.observed_at = None;
        self.overflow_armed = false;
        self.period = None;
        self.period_handled = false;
    }

    /// Takes one look and says what to announce.
    pub fn observe(
        &mut self,
        state: &mut NotifyState,
        snapshot: Option<&QuotaSnapshot>,
        overflow_credits: Option<i64>,
        switches: NotificationSwitches,
        refresh_interval: Duration,
        now: SystemTime,
    ) -> (outcome: NotifyOutcome)
        ensures
            ({
                let look = look_of(snapshot, overflow_credits, switches, refresh_interval, now);
                &&& *final(self) == old(self).after(*old(state), look)
                &&& *final(state) == old(self).state_after(*old(state), look)
                &&& notices_of(outcome.notifications@) == old(self).notices(*old(state), look)
                &&& outcome.state_dirty == old(self).fires(*old(state), look)
            }),
    {
        let ghost look = look_of(snapshot, overflow_credits, switches, refresh_interval, now);
        let ghost before = *self;
        let limit = blind_gap_limit(refresh_interval);
        let mut notifications: Vec<Notification> = Vec::new();
        let mut state_dirty = false;
        let interrupted = match self.observed_at {
            Some(last) => match now.duration_since(last) {
                Ok(gap) => gap.nanos > limit.nanos,
                Err(_) => false,
            },
            None => false,
        };
        self.observed_at = Some(now);
        if interrupted {
            self.overflow_armed = false;
        }
        if let Some(next) = snapshot {
            if let Some(previous) = &self.observed {
                let near = match next.received_at.duration_since(previous.received_at) {
                    Ok(gap) => gap.nanos <= limit.nanos,
                    Err(_) => true,
                };
                if !interrupted && near && switches.reset && !next.is_blocked(now) {
                    notifications = announce_resets(previous, next);
                }
            }
            self.observed = Some(next.clone());
        }
        assert(notices_of(notifications@) =~= before.resets(look));
        let period: Option<i64> = match snapshot {
            Some(current) => period_key(current),
            None => None,
        };
        if period != self.period {
            self.period = period;
            self.overflow_armed = false;
            self.period_handled = period.is_some() && state.notified_overflow_period == period;
        }
        let fresh = match snapshot {
            Some(current) => match now.duration_since(current.received_at) {
                Ok(age) => age.nanos <= limit.nanos,
                Err(_) => true,
            },
            None => true,
        };
        if !fresh {
            self.overflow_armed = false;
        } else if let Some(credits) = overflow_credits {
            if credits < OVERFLOW_NOTIFY_CREDITS {
                self.overflow_armed = true;
            } else if period.is_some() && self.overflow_armed && !self.period_handled {
                if switches.overflow {
                    let ghost said = notices_of(notifications@);
                    notifications.push(Notification::Overflow { credits });
                    assert(notices_of(notifications@) =~= said.push(
                        Notice::Overflow { credits: credits as int },
                    ));
                }
                self.period_handled = true;
                state.notified_overflow_period = period;
                state_dirty = true;
            }
        }
        NotifyOutcome { notifications, state_dirty }
    }
}

/// A look as its parts were handed over.
pub open spec fn look_of(
    snapshot: Option<&QuotaSnapshot>,
    overflow_credits: Option<i64>,
    switches: NotificationSwitches,
    refresh_interval: Duration,
    now: SystemTime,
) -> Look {
    Look {
        snapshot: match snapshot {
            Some(current) => Some(*current),
            None => None,
        },
        credits: match overflow_credits {
            Some(credits) => Some(credits as int),
            None => None,
        },
        switches,
        refresh_interval,
        now,
    }
}

fn announce_resets(previous: &QuotaSnapshot, next: &QuotaSnapshot) -> (notifications: Vec<
    Notification,
>)
    ensures
        notices_of(notifications@) == resets_between(previous, next).map_values(
            |window: &QuotaWindow| reset_notice(*window),
        ),
{
    let windows = reset_windows(previous, next);
    let ghost said = resets_between(previous, next).map_values(
        |window: &QuotaWindow| reset_notice(*window),
    );
    let mut notifications: Vec<Notification> = Vec::new();
    let mut i: usize = 0;
    while i < windows.len()
        invariant
            i <= windows.len(),
            windows@ == resets_between(previous, next),
            said == resets_between(previous, next).map_values(
                |window: &QuotaWindow| reset_notice(*window),
            ),
            notices_of(notifications@) == said.take(i as int),
        decreases windows.len() - i,
    {
        let window = windows[i];
        let notification = Notification::Reset {
            window: window.window_short_label(),
            remaining_percent: window.remaining_percent(),
        };
        let ghost before = notices_of(notifications@);
        assert(said[i as int] == reset_notice(*resets_between(previous, next)[i as int]));
        assert(notification@ == said[i as int]);
        notifications.push(notification);
        assert(notices_of(notifications@) =~= before.push(said[i as int]));
        i += 1;
        assert(said.take(i as int) =~= said.take(i - 1).push(said[i - 1]));
    }
    assert(said.take(i as int) =~= said);
    notifications
}

/// The first look after a start or a reset announces nothing.
pub proof fn law_first_look_never_notifies(state: NotifyState, look: Look)
    ensures
        Notifier::blank().notices(state, look) == Seq::<Notice>::empty(),
        !Notifier::blank().fires(state, look),
{
}

/// After an interruption nothing that happened meanwhile is announced.
pub proof fn law_nothing_is_made_up_for(notifier: Notifier, state: NotifyState, look: Look)
    requires
        notifier.is_interrupted(look),
    ensures
        notifier.notices(state, look) == Seq::<Notice>::empty(),
        notifier.state_after(state, look) == state,
{
}

/// A stale snapshot neither announces an overflow nor uses the period up, and whatever it reads
/// it leaves the notifier unarmed.
pub proof fn law_stale_readings_disarm(notifier: Notifier, state: NotifyState, look: Look)
    requires
        !look.is_fresh(),
    ensures
        !notifier.after(state, look).overflow_armed,
        !notifier.fires(state, look),
        notifier.state_after(state, look) == state,
        notifier.after(state, look).period_handled == notifier.is_handled(state, look),
{
}

/// While the account is blocked no window is announced as available again.
pub proof fn law_a_blocked_account_announces_no_reset(
    notifier: Notifier,
    state: NotifyState,
    look: Look,
    i: int,
)
    requires
        look.snapshot is Some,
        look.snapshot->0.blocked(look.now),
        0 <= i < notifier.notices(state, look).len(),
    ensures
        notifier.notices(state, look)[i] is Overflow,
{
}

/// A switch that is off silences its announcements.
pub proof fn law_switches_silence(notifier: Notifier, state: NotifyState, look: Look, i: int)
    requires
        0 <= i < notifier.notices(state, look).len(),
    ensures
        notifier.notices(state, look)[i] is Reset ==> look.switches.reset,
        notifier.notices(state, look)[i] is Overflow ==> look.switches.overflow,
{
    let said = notifier.notices(state, look);
    let resets = notifier.resets(look);
    if i < resets.len() {
        assert(said[i] == resets[i]);
        assert(resets[i] is Reset);
    } else {
        assert(said[i] is Overflow);
    }
}

impl Notifier {
    /// The notifier and the persistent state agree on a period that has been dealt with.
    pub open spec fn agrees_with(self, state: NotifyState) -> bool {
        self.period is Some && self.period == state.notified_overflow_period
            ==> self.period_handled
    }
}

/// A blank notifier agrees with any state, and every look keeps the agreement.
pub proof fn law_agreement_is_kept(notifier: Notifier, state: NotifyState, look: Look)
    ensures
        Notifier::blank().agrees_with(state),
        notifier.agrees_with(state) ==> notifier.after(state, look).agrees_with(
            notifier.state_after(state, look),
        ),
{
}

/// The overflow of a period is dealt with once: when the persistent state names the period, no
/// look in it fires again, in this run or in a later one; and the look that fires, announced or
/// not, makes the state name its period.
pub proof fn law_overflow_fires_once_per_period(
    notifier: Notifier,
    state: NotifyState,
    look: Look,
)
    requires
        notifier.agrees_with(state),
    ensures
        look.period() is Some && state.notified_overflow_period == look.period()
            ==> !notifier.fires(state, look),
        notifier.fires(state, look) ==> (look.period() is Some && notifier.state_after(
            state,
            look,
        ).notified_overflow_period == look.period()),
{
}

/// The notifications that the debug menu shows on request; they do not pass through the rules.
pub open spec fn sample_notice(command: usize) -> Option<Notice> {
    if command == CMD_TEST_NOTIFY_RESET {
        Some(Notice::Reset { window: "5h"@, remaining_percent: 99 * PERCENT })
    } else if command == CMD_TEST_NOTIFY_BALANCE {
        Some(Notice::Overflow { credits: 310_250_000 })
    } else {
        None
    }
}

pub fn test_notification_for_command(command: usize) -> (sample: Option<Notification>)
    ensures
        sample is Some <==> sample_notice(command) is Some,
        sample is Some ==> sample->0@ == sample_notice(command)->0,
{
    if command == CMD_TEST_NOTIFY_RESET {
        Some(Notification::Reset { window: "5h".to_owned(), remaining_percent: 99 * PERCENT })
    } else if command == CMD_TEST_NOTIFY_BALANCE {
        Some(Notification::Overflow { credits: 310 * CREDIT + CREDIT / 4 })
    } else {
        None
    }
}

/// The gap that still counts as watching is the longer of fifteen minutes and two refreshes.
pub proof fn law_watching_allows_for_a_missed_refresh(refresh_interval: Duration, limit: Duration)
    requires
        call_ensures(blind_gap_limit, (refresh_interval,), limit),
        2 * refresh_interval.nanos <= 18_446_744_073_709_551_615_999_999_999,
    ensures
        limit.nanos >= 900_000_000_000,
        limit.nanos >= 2 * refresh_interval.nanos,
        limit.nanos == 900_000_000_000 || limit.nanos == 2 * refresh_interval.nanos,
{
}

/// The windows reported as started over are those of the new snapshot whose counterpart in the old
/// one, short-term or long-term, they follow by one length; the short-term one comes first.
pub proof fn law_windows_start_over_in_their_slots(
    previous: &QuotaSnapshot,
    next: &QuotaSnapshot,
    windows: Vec<&QuotaWindow>,
    before: (Option<&QuotaWindow>, Option<&QuotaWindow>),
    after: (Option<&QuotaWindow>, Option<&QuotaWindow>),
    short_term: bool,
    long_term: bool,
)
    requires
        call_ensures(reset_windows, (previous, next), windows),
        call_ensures(QuotaSnapshot::quota_windows, (previous,), before),
        call_ensures(QuotaSnapshot::quota_windows, (next,), after),
        short_term == (before.0 is Some && after.0 is Some && followed_by(
            *before.0->0,
            *after.0->0,
        )),
        long_term == (before.1 is Some && after.1 is Some && followed_by(
            *before.1->0,
            *after.1->0,
        )),
        before.0 is Some ==> is_within_reach(*before.0->0),
        before.1 is Some ==> is_within_reach(*before.1->0),
    ensures
        short_term && long_term ==> windows@ == seq![after.0->0, after.1->0],
        short_term && !long_term ==> windows@ == seq![after.0->0],
        !short_term && long_term ==> windows@ == seq![after.1->0],
        !short_term && !long_term ==> windows@.len() == 0,
{
}

/// A window is followed by the next of its kind: as long, and ending one length later, a tenth of
/// it more or less.
pub open spec fn followed_by(previous: QuotaWindow, next: QuotaWindow) -> bool {
    let length = previous.window_duration.nanos;
    let moved = next.resets_at.nanos - previous.resets_at.nanos;
    next.window_duration.nanos == length && 9 * length <= 10 * moved <= 11 * length
}

/// The end of the window after this one is a time.
pub open spec fn is_within_reach(window: QuotaWindow) -> bool {
    window.resets_at.nanos + window.window_duration.nanos <= i128::MAX
}

/// A reset is announced only while it is seen to happen: nobody had stopped looking, the two
/// snapshots are close together, the account is not blocked, the user wants to hear of it, and the
/// window of that name has moved on by one length.
pub proof fn law_a_reset_is_announced_when_seen(
    notifier: &mut Notifier,
    state: &mut NotifyState,
    snapshot: Option<&QuotaSnapshot>,
    credits: Option<i64>,
    switches: NotificationSwitches,
    interval: Duration,
    now: SystemTime,
    outcome: NotifyOutcome,
    limit: Duration,
    blocked: bool,
    i: int,
)
    requires
        call_ensures(
            Notifier::observe,
            (notifier, state, snapshot, credits, switches, interval, now),
            outcome,
        ),
        call_ensures(blind_gap_limit, (interval,), limit),
        snapshot is Some ==> call_ensures(QuotaSnapshot::is_blocked, (snapshot->0, now), blocked),
        0 <= i < outcome.notifications@.len(),
        outcome.notifications@[i] is Reset,
    ensures
        switches.reset,
        snapshot is Some,
        !blocked,
        old(notifier).observed is Some,
        old(notifier).observed_at is Some ==> now.nanos - old(notifier).observed_at->0.nanos
            <= limit.nanos,
        snapshot->0.received_at.nanos - old(notifier).observed->0.received_at.nanos <= limit.nanos,
{
    let look = look_of(snapshot, credits, switches, interval, now);
    let said = notices_of(outcome.notifications@);
    assert(said[i] == outcome.notifications@[i]@);
    let resets = old(notifier).resets(look);
    assert(said == old(notifier).notices(*old(state), look));
    assert(said.len() == outcome.notifications@.len());
    if i >= resets.len() {
        assert(said[i] is Overflow);
    }
}

/// What is announced of a reset, and that it is announced: under the conditions under which a reset
/// counts as seen, each window that has started over is named, with what is left of it.
pub proof fn law_every_reset_seen_is_announced(
    notifier: &mut Notifier,
    state: &mut NotifyState,
    snapshot: &QuotaSnapshot,
    credits: Option<i64>,
    switches: NotificationSwitches,
    interval: Duration,
    now: SystemTime,
    outcome: NotifyOutcome,
    limit: Duration,
    blocked: bool,
    windows: Vec<&QuotaWindow>,
    label: String,
    left: i64,
    i: int,
)
    requires
        call_ensures(
            Notifier::observe,
            (notifier, state, Some(snapshot), credits, switches, interval, now),
            outcome,
        ),
        call_ensures(blind_gap_limit, (interval,), limit),
        call_ensures(QuotaSnapshot::is_blocked, (snapshot, now), blocked),
        old(notifier).observed is Some,
        call_ensures(reset_windows, (&old(notifier).observed->0, snapshot), windows),
        0 <= i < windows@.len(),
        call_ensures(QuotaWindow::window_short_label, (windows@[i],), label),
        call_ensures(QuotaWindow::remaining_percent, (windows@[i],), left),
        switches.reset,
        !blocked,
        old(notifier).observed_at is Some ==> now.nanos - old(notifier).observed_at->0.nanos
            <= limit.nanos,
        snapshot.received_at.nanos - old(notifier).observed->0.received_at.nanos <= limit.nanos,
    ensures
        i < outcome.notifications@.len(),
        outcome.notifications@[i] matches Notification::Reset { window, remaining_percent }
            && window@ == label@ && remaining_percent == left,
{
    let look = look_of(Some(snapshot), credits, switches, interval, now);
    let said = notices_of(outcome.notifications@);
    let resets = old(notifier).resets(look);
    assert(resets[i] == reset_notice(*windows@[i]));
    assert(said.len() == outcome.notifications@.len());
    assert(said == old(notifier).notices(*old(state), look));
    assert(said[i] == resets[i]);
    assert(said[i] == outcome.notifications@[i]@);
}

/// The balance is announced as touched once per period: on the look that finds a quarter of a
/// credit or more spent after a look without a gap, in the same period, that found less. The period
/// is then remembered, announced or not.
pub proof fn law_the_balance_is_announced_when_first_touched(
    notifier: &mut Notifier,
    state: &mut NotifyState,
    snapshot: Option<&QuotaSnapshot>,
    credits: Option<i64>,
    switches: NotificationSwitches,
    interval: Duration,
    now: SystemTime,
    outcome: NotifyOutcome,
    limit: Duration,
    period: Option<i64>,
    i: int,
)
    requires
        call_ensures(
            Notifier::observe,
            (notifier, state, snapshot, credits, switches, interval, now),
            outcome,
        ),
        call_ensures(blind_gap_limit, (interval,), limit),
        snapshot is Some ==> call_ensures(period_key, (snapshot->0,), period),
        snapshot is None ==> period is None,
        0 <= i < outcome.notifications@.len(),
    ensures
        outcome.state_dirty <==> {
            &&& credits is Some
            &&& credits->0 >= 250_000
            &&& period is Some
            &&& old(notifier).period == period
            &&& old(notifier).overflow_armed
            &&& !old(notifier).period_handled
            &&& old(notifier).observed_at is Some ==> now.nanos
                - old(notifier).observed_at->0.nanos <= limit.nanos
            &&& now.nanos - snapshot->0.received_at.nanos <= limit.nanos
        },
        outcome.notifications@[i] is Overflow <==> outcome.state_dirty && switches.overflow && i
            == outcome.notifications@.len() - 1,
        outcome.notifications@[i] is Overflow ==> outcome.notifications@[i]->credits == credits->0,
        outcome.state_dirty ==> final(state).notified_overflow_period == period,
        !outcome.state_dirty ==> *final(state) == *old(state),
{
    let look = look_of(snapshot, credits, switches, interval, now);
    let said = notices_of(outcome.notifications@);
    let resets = old(notifier).resets(look);
    assert(said[i] == outcome.notifications@[i]@);
    assert(said.len() == outcome.notifications@.len());
    if i < resets.len() {
        assert(said[i] == resets[i]);
        assert(resets[i] is Reset);
    }
}

/// When the balance is first touched and the user wants to hear of it, the last thing announced is
/// how much was spent; with nothing touched no more is announced than there are resets.
pub proof fn law_a_touched_balance_is_not_passed_over(
    notifier: &mut Notifier,
    state: &mut NotifyState,
    snapshot: Option<&QuotaSnapshot>,
    credits: Option<i64>,
    switches: NotificationSwitches,
    interval: Duration,
    now: SystemTime,
    outcome: NotifyOutcome,
)
    requires
        call_ensures(
            Notifier::observe,
            (notifier, state, snapshot, credits, switches, interval, now),
            outcome,
        ),
    ensures
        outcome.state_dirty && switches.overflow ==> outcome.notifications@.len() > 0
            && outcome.notifications@.last() == (Notification::Overflow { credits: credits->0 }),
{
    let look = look_of(snapshot, credits, switches, interval, now);
    let said = notices_of(outcome.notifications@);
    if outcome.state_dirty && switches.overflow {
        assert(said.len() > 0);
        assert(said.last() == outcome.notifications@.last()@);
    }
}

/// What a look leaves behind: it remembers the snapshot and its time, is ready to announce only
/// after a fresh reading below the threshold, and a new period starts out as dealt with only where
/// the persistent state names it.
pub proof fn law_a_look_leaves_its_mark(
    notifier: &mut Notifier,
    state: &mut NotifyState,
    snapshot: Option<&QuotaSnapshot>,
    credits: Option<i64>,
    switches: NotificationSwitches,
    interval: Duration,
    now: SystemTime,
    outcome: NotifyOutcome,
    limit: Duration,
    period: Option<i64>,
)
    requires
        call_ensures(
            Notifier::observe,
            (notifier, state, snapshot, credits, switches, interval, now),
            outcome,
        ),
        call_ensures(blind_gap_limit, (interval,), limit),
        snapshot is Some ==> call_ensures(period_key, (snapshot->0,), period),
        snapshot is None ==> period is None,
    ensures
        final(notifier).observed_at == Some(now),
        snapshot is Some ==> final(notifier).observed == Some(*snapshot->0),
        snapshot is None ==> final(notifier).observed == old(notifier).observed,
        final(notifier).period == period,
        ({
            let fresh = snapshot is Some ==> now.nanos - snapshot->0.received_at.nanos
                <= limit.nanos;
            let watched = old(notifier).observed_at is Some ==> now.nanos
                - old(notifier).observed_at->0.nanos <= limit.nanos;
            &&& final(notifier).overflow_armed ==> fresh
            &&& fresh && credits is Some && credits->0 < 250_000 ==> final(notifier).overflow_armed
            &&& final(notifier).overflow_armed && (credits is None || credits->0 >= 250_000)
                ==> old(notifier).overflow_armed && watched && old(notifier).period == period
            &&& fresh && watched && old(notifier).overflow_armed && old(notifier).period == period
                ==> final(notifier).overflow_armed
        }),
        old(notifier).period == period ==> final(notifier).period_handled == (
        old(notifier).period_handled || outcome.state_dirty),
        old(notifier).period != period ==> final(notifier).period_handled == (period is Some
            && old(state).notified_overflow_period == period),
{
}

/// A period is the second, since the start of 1970, at which the long-term window starts over.
pub proof fn law_a_period_ends_with_the_long_term_window(
    snapshot: &QuotaSnapshot,
    windows: (Option<&QuotaWindow>, Option<&QuotaWindow>),
    key: Option<i64>,
)
    requires
        call_ensures(QuotaSnapshot::quota_windows, (snapshot,), windows),
        call_ensures(period_key, (snapshot,), key),
    ensures
        key is Some ==> windows.1 is Some && key->0 * 1_000_000_000 <= windows.1->0.resets_at.nanos
            < (key->0 + 1) * 1_000_000_000 && key->0 >= 0,
        windows.1 is Some && 0 <= windows.1->0.resets_at.nanos < 9_223_372_036_854_775_808
            * 1_000_000_000 ==> key is Some,
{
}

/// Credits are shown to the nearest hundredth, with a sign where they are negative, and without
/// decimals where there are none.
pub proof fn law_credits_are_close(credits: i64, shown: String)
    requires
        call_ensures(format_credits, (credits,), shown),
    ensures
        exists|cents: nat|
            #![trigger text::hundredths(cents)]
            {
                let amount = if cents % 100 == 0 {
                    text::decimal(cents / 100)
                } else {
                    text::hundredths(cents)
                };
                let size = if credits < 0 {
                    -credits
                } else {
                    credits as int
                };
                &&& shown@ == (if credits < 0 {
                    "-"@ + amount
                } else {
                    amount
                })
                &&& -10_000 <= 2 * (cents * 10_000 - size) <= 10_000
            },
{
    reveal_strlit("");
    let size = fixed::magnitude(credits as int);
    fixed::law_nearest_is_within_half_a_step(size, 10_000);
    fixed::law_nearest_is_monotonic(0, size, 10_000);
    fixed::law_nearest_of_a_multiple(0, 10_000);
    let cents = fixed::nearest(size, 10_000) as nat;
    let hundredths = text::hundredths(cents);
    assert(""@ + text::decimal(cents / 100) =~= text::decimal(cents / 100));
    assert(""@ + hundredths =~= hundredths);
}

/// A balloon names the window and, to the nearest whole number of percent, what is left of it.
pub proof fn law_a_reset_balloon_says_what_is_left(
    notification: &Notification,
    period: &str,
    shown: (&'static str, String),
)
    requires
        call_ensures(Notification::balloon_text, (notification, period), shown),
        notification is Reset,
        notification->remaining_percent >= 0,
    ensures
        shown.0@ == "额度已重置"@,
        exists|percent: nat|
            #![trigger text::decimal(percent)]
            {
                let window = notification->window@;
                let c = window.last();
                let gap = if window.len() > 0 && (('0' <= c && c <= '9') || ('A' <= c && c <= 'Z')
                    || ('a' <= c && c <= 'z')) {
                    " "@
                } else {
                    Seq::empty()
                };
                &&& shown.1@ == window + gap + "窗口已重置，当前剩余 "@ + text::decimal(percent) + "%"@
                &&& -1_000_000 <= 2 * (percent * 1_000_000 - notification->remaining_percent)
                    <= 1_000_000
            },
{
    reveal_strlit("");
    let left = notification->remaining_percent;
    let percent = text::nearest_even(left as nat, 1_000_000);
    let window = notification->window@;
    assert(""@ =~= Seq::<char>::empty());
    assert(text::rounded_text(left as int, 1_000_000) == text::decimal(percent));
}

/// A balloon says how much of the balance the period has used, in credits and in dollars at four
/// cents a credit.
pub proof fn law_an_overflow_balloon_says_what_was_spent(
    notification: &Notification,
    period: &str,
    shown: (&'static str, String),
    amount: String,
    dollars: i64,
    money: String,
)
    requires
        call_ensures(Notification::balloon_text, (notification, period), shown),
        notification is Overflow,
        call_ensures(format_credits, (notification->credits,), amount),
        call_ensures(format_usd, (Some(dollars),), money),
        -50 < dollars * 100 - notification->credits * 4 < 50,
    ensures
        shown.0@ == "已开始动用余额"@,
        shown.1@ == period@ + "已扣 "@ + amount@ + " credits（约 "@ + money@ + "）"@,
{
    let n = notification->credits * 4;
    let nearest = fixed::nearest(n, 100);
    fixed::law_nearest_is_within_half_a_step(n, 100);
    assert(-50 <= nearest * 100 - n <= 50);
    assert(nearest == dollars);
    assert(dollars_of(notification->credits as int) == dollars);
}

/// The two sample notifications stand for a five-hour window that is almost full again and for
/// 310.25 credits; no other command has a sample.
pub proof fn law_samples_belong_to_their_commands(command: usize, sample: Option<Notification>)
    requires
        call_ensures(test_notification_for_command, (command,), sample),
    ensures
        sample is Some <==> command == 1_022 || command == 1_023,
        command == 1_022 ==> (sample->0 matches Notification::Reset { window, remaining_percent }
            && window@ == "5h"@ && remaining_percent == 99_000_000),
        command == 1_023 ==> (sample->0 matches Notification::Overflow { credits } && credits
            == 310_250_000),
{
    assert(sample is Some ==> sample->0@ == sample_notice(command)->0);
}

/// A name that ends in a Latin letter or digit keeps a space before the next word, any other none.
pub proof fn law_latin_names_keep_a_space(window: &str, gap: &'static str)
    requires
        call_ensures(window_separator, (window,), gap),
    ensures
        ({
            let c = window@.last();
            let latin = window@.len() > 0 && (('0' <= c && c <= '9') || ('A' <= c && c <= 'Z') || (
            'a' <= c && c <= 'z'));
            &&& latin ==> gap@ == seq![' ']
            &&& !latin ==> gap@.len() == 0
        }),
{
    reveal_strlit(" ");
    reveal_strlit("");
    assert(" "@ =~= seq![' ']);
}

/// A notifier that is reset has seen nothing.
pub proof fn law_a_reset_notifier_has_seen_nothing(notifier: &mut Notifier)
    requires
        call_ensures(Notifier::reset, (notifier,), ()),
    ensures
        final(notifier).observed is None,
        final(notifier).observed_at is None,
        !final(notifier).overflow_armed,
        final(notifier).period is None,
        !final(notifier).period_handled,
{
}

} // verus!
