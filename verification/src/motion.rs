//! Animations sampled by the clock: easing, the panel's expansion, and one-value tweens.
use vstd::prelude::*;

use crate::config::AnchorEdge;
use crate::fixed;
use crate::fixed::{clamp_i64, round_div, saturating_diff, UNIT};
use crate::layout;
use crate::layout::{
    anchored_destination, dip_to_px, lerp, ExpansionAlignment, Point, Rect, COLLAPSED_DIP,
    PANEL_WIDTH_DIP,
};
use crate::time::{Duration, Instant, MAX_SPAN_NANOS};

verus! {

/// How long the panel takes to expand.
pub const EXPAND_ANIMATION_MILLIS: u64 = 160;

/// How long the panel takes to collapse.
pub const COLLAPSE_ANIMATION_MILLIS: u64 = 130;

/// Frame interval of the panel and snap animations.
pub const ANIMATION_FRAME_MILLIS: u32 = 16;

/// Hovering brightens the ball over this long.
pub const HOVER_TWEEN_MILLIS: u64 = 150;

/// Pressing shrinks the ball over this long.
pub const PRESS_TWEEN_MILLIS: u64 = 80;

/// Releasing lets the ball spring back over this long, a little slower than the press.
pub const RELEASE_TWEEN_MILLIS: u64 = 120;

/// One cycle of the low-quota pulse.
pub const PULSE_PERIOD_MILLIS: u64 = 1400;

/// One turn of the indeterminate arc.
pub const SPIN_PERIOD_MILLIS: u64 = 1600;

/// The share of the ring that the indeterminate arc covers.
pub const SPIN_SWEEP: i64 = 280_000_000;

/// Frame interval while a tween runs. It must stay below the system's 15.625 ms clock tick:
/// a timer asked for 16 ms misses every other tick and halves the frame rate.
pub const RING_TWEEN_FRAME_MILLIS: u32 = 10;

/// Frame interval while only the slow pulse runs.
pub const RING_PULSE_FRAME_MILLIS: u32 = 100;

/// Frame interval while only the indeterminate arc turns.
pub const RING_SPIN_FRAME_MILLIS: u32 = 10;

/// Frames that carry visible motion come at least once per system clock tick.
pub proof fn law_motion_frames_fit_the_clock_tick()
    ensures
        RING_TWEEN_FRAME_MILLIS <= 15,
        RING_SPIN_FRAME_MILLIS <= 15,
{
}

/// How far `elapsed` is into `duration`, in billionths; one from the end on.
pub open spec fn timeline(elapsed: int, duration: int) -> int {
    if elapsed >= duration {
        UNIT as int
    } else {
        fixed::nearest(elapsed * UNIT, duration)
    }
}

fn timeline_of(elapsed: Duration, duration: Duration) -> (at: i64)
    requires
        duration.nanos <= MAX_SPAN_NANOS,
    ensures
        at == timeline(elapsed.nanos as int, duration.nanos as int),
        0 <= at <= UNIT,
{
    if elapsed.nanos >= duration.nanos {
        return UNIT;
    }
    proof {
        lemma_timeline_range(elapsed.nanos as int, duration.nanos as int);
        assert(elapsed.nanos * 1_000_000_000 <= MAX_SPAN_NANOS * 1_000_000_000);
    }
    round_div(elapsed.nanos as i128 * UNIT as i128, duration.nanos as i128) as i64
}

pub proof fn lemma_timeline_range(elapsed: int, duration: int)
    requires
        0 <= elapsed,
    ensures
        0 <= timeline(elapsed, duration) <= UNIT,
        elapsed == 0 && duration > 0 ==> timeline(elapsed, duration) == 0,
{
    if elapsed < duration {
        let u = UNIT as int;
        assert(0 <= elapsed * u <= u * duration) by (nonlinear_arith)
            requires
                0 <= elapsed < duration,
                u > 0,
        ;
        fixed::law_nearest_is_monotonic(0, elapsed * u, duration);
        fixed::law_nearest_is_monotonic(elapsed * u, u * duration, duration);
        fixed::law_nearest_of_a_multiple(0, duration);
        fixed::law_nearest_of_a_multiple(u, duration);
    }
}

/// Time never runs a timeline backwards.
pub proof fn law_timeline_is_monotonic(earlier: int, later: int, duration: int)
    requires
        0 <= earlier <= later,
    ensures
        timeline(earlier, duration) <= timeline(later, duration),
{
    lemma_timeline_range(earlier, duration);
    if later < duration {
        let u = UNIT as int;
        assert(earlier * u <= later * u) by (nonlinear_arith)
            requires
                earlier <= later,
                u > 0,
        ;
        fixed::law_nearest_is_monotonic(earlier * u, later * u, duration);
    }
}

/// Cubic ease-out: fast at first, then slower; `progress` is kept within zero and one.
pub open spec fn eased(progress: int) -> int {
    let rest = UNIT - fixed::clamped(progress, 0, UNIT as int);
    UNIT - fixed::nearest(rest * rest * rest, UNIT * UNIT)
}

pub fn ease_out_cubic(progress: i64) -> (value: i64)
    ensures
        value == eased(progress as int),
        0 <= value <= UNIT,
{
    let kept: i64 = clamp_i64(progress, 0, UNIT);
    let rest: i128 = UNIT as i128 - kept as i128;
    proof {
        lemma_cube_bounds(rest as int);
        lemma_eased_range(progress as int);
    }
    let square: i128 = rest * rest;
    (UNIT as i128 - round_div(square * rest, 1_000_000_000_000_000_000)) as i64
}

proof fn lemma_cube_bounds(rest: int)
    requires
        0 <= rest <= UNIT,
    ensures
        0 <= rest * rest <= 1_000_000_000_000_000_000,
        0 <= rest * rest * rest <= 1_000_000_000_000_000_000_000_000_000,
{
    assert(0 <= rest * rest <= 1_000_000_000 * 1_000_000_000) by (nonlinear_arith)
        requires
            0 <= rest <= 1_000_000_000,
    ;
    let square = rest * rest;
    assert(0 <= square * rest <= 1_000_000_000_000_000_000 * 1_000_000_000) by (nonlinear_arith)
        requires
            0 <= square <= 1_000_000_000_000_000_000,
            0 <= rest <= 1_000_000_000,
    ;
}

/// The eased curve rises from zero to one without turning back.
pub proof fn law_eased_is_monotonic(a: int, b: int)
    requires
        a <= b,
    ensures
        0 <= eased(a) <= eased(b) <= UNIT,
        a <= 0 ==> eased(a) == 0,
        b >= UNIT ==> eased(b) == UNIT,
{
    lemma_eased_range(a);
    lemma_eased_range(b);
    let ra = UNIT - fixed::clamped(a, 0, UNIT as int);
    let rb = UNIT - fixed::clamped(b, 0, UNIT as int);
    assert(rb * rb * rb <= ra * ra * ra) by (nonlinear_arith)
        requires
            0 <= rb <= ra,
    ;
    fixed::law_nearest_is_monotonic(rb * rb * rb, ra * ra * ra, UNIT * UNIT);
}

proof fn lemma_eased_range(progress: int)
    ensures
        0 <= eased(progress) <= UNIT,
        progress <= 0 ==> eased(progress) == 0,
        progress >= UNIT ==> eased(progress) == UNIT,
{
    let rest = UNIT - fixed::clamped(progress, 0, UNIT as int);
    let d = UNIT * UNIT;
    assert(d == 1_000_000_000_000_000_000) by (nonlinear_arith)
        requires
            d == 1_000_000_000 * 1_000_000_000,
    ;
    lemma_cube_bounds(rest);
    fixed::law_nearest_of_a_multiple(0, d);
    fixed::law_nearest_of_a_multiple(UNIT as int, d);
    fixed::law_nearest_is_monotonic(0, rest * rest * rest, d);
    fixed::law_nearest_is_monotonic(rest * rest * rest, UNIT * d, d);
    if rest == 0 {
        assert(rest * rest * rest == 0) by (nonlinear_arith)
            requires
                rest == 0,
        ;
    } else if rest == UNIT {
        assert(rest * rest * rest == UNIT * d) by (nonlinear_arith)
            requires
                rest == 1_000_000_000,
                UNIT == 1_000_000_000,
                d == 1_000_000_000_000_000_000,
        ;
    }
}

/// Halfway through its time, an eased motion has covered seven eighths of its way.
pub proof fn law_eased_is_past_halfway_at_midpoint()
    ensures
        eased(500_000_000) == 875_000_000,
{
    let rest: int = 500_000_000;
    assert(rest * rest * rest == 125_000_000 * 1_000_000_000_000_000_000) by (nonlinear_arith)
        requires
            rest == 500_000_000,
    ;
    fixed::law_nearest_of_a_multiple(125_000_000, 1_000_000_000_000_000_000);
}

/// A linear ramp: zero until `start`, one from `start + span` on.
pub open spec fn ramp(at: int, start: int, span: int) -> int {
    fixed::clamped(fixed::nearest((at - start) * UNIT, span), 0, UNIT as int)
}

fn ramp_at(at: i64, start: i64, span: i64) -> (value: i64)
    requires
        0 <= at <= UNIT,
        0 <= start <= UNIT,
        0 < span <= UNIT,
    ensures
        value == ramp(at as int, start as int, span as int),
        0 <= value <= UNIT,
{
    let distance: i64 = at - start;
    proof {
        assert(-1_000_000_000_000_000_000 <= distance * UNIT <= 1_000_000_000_000_000_000)
            by (nonlinear_arith)
            requires
                -1_000_000_000 <= distance <= 1_000_000_000,
                UNIT == 1_000_000_000,
        ;
    }
    let quotient: i128 = round_div(distance as i128 * UNIT as i128, span as i128);
    if quotient < 0 {
        0
    } else if quotient > UNIT as i128 {
        UNIT
    } else {
        quotient as i64
    }
}

/// One frame of the panel animation: how far the shape has grown, and how opaque the content
/// of the ball and of the panel are.
#[derive(Clone, Copy, Debug, PartialEq, Eq, Structural)]
pub struct AnimationSample {
    pub expansion: i64,
    pub ball_opacity: i64,
    pub panel_opacity: i64,
    pub finished: bool,
}

/// The frame at a point of the timeline. Expanding, the ball's content has faded out at 30 %
/// and the panel's fades in from 40 %; collapsing, the panel's content has faded out at 45 %
/// and the ball's fades in from 55 %.
pub open spec fn frame_at(expanding: bool, at: int) -> AnimationSample {
    let t = fixed::clamped(at, 0, UNIT as int);
    if expanding {
        AnimationSample {
            expansion: eased(t) as i64,
            ball_opacity: (UNIT - ramp(t, 0, 300_000_000)) as i64,
            panel_opacity: ramp(t, 400_000_000, 600_000_000) as i64,
            finished: t >= UNIT,
        }
    } else {
        AnimationSample {
            expansion: (UNIT - eased(t)) as i64,
            ball_opacity: ramp(t, 550_000_000, 450_000_000) as i64,
            panel_opacity: (UNIT - ramp(t, 0, 450_000_000)) as i64,
            finished: t >= UNIT,
        }
    }
}

pub fn animation_sample(expanding: bool, at: i64) -> (sample: AnimationSample)
    ensures
        sample == frame_at(expanding, at as int),
        0 <= sample.expansion <= UNIT,
        0 <= sample.ball_opacity <= UNIT,
        0 <= sample.panel_opacity <= UNIT,
{
    let t: i64 = clamp_i64(at, 0, UNIT);
    let curve: i64 = ease_out_cubic(t);
    if expanding {
        AnimationSample {
            expansion: curve,
            ball_opacity: UNIT - ramp_at(t, 0, 300_000_000),
            panel_opacity: ramp_at(t, 400_000_000, 600_000_000),
            finished: t >= UNIT,
        }
    } else {
        AnimationSample {
            expansion: UNIT - curve,
            ball_opacity: ramp_at(t, 550_000_000, 450_000_000),
            panel_opacity: UNIT - ramp_at(t, 0, 450_000_000),
            finished: t >= UNIT,
        }
    }
}

proof fn lemma_ramp_ends(at: int, start: int, span: int)
    requires
        0 < span,
    ensures
        at <= start ==> ramp(at, start, span) == 0,
        at >= start + span ==> ramp(at, start, span) == UNIT,
        0 <= ramp(at, start, span) <= UNIT,
{
    let u = UNIT as int;
    fixed::law_nearest_of_a_multiple(0, span);
    fixed::law_nearest_of_a_multiple(u, span);
    if at <= start {
        assert((at - start) * u <= 0) by (nonlinear_arith)
            requires
                at <= start,
                u > 0,
        ;
        fixed::law_nearest_is_monotonic((at - start) * u, 0, span);
    }
    if at >= start + span {
        assert(u * span <= (at - start) * u) by (nonlinear_arith)
            requires
                at - start >= span,
                u > 0,
        ;
        fixed::law_nearest_is_monotonic(u * span, (at - start) * u, span);
    }
}

/// The ball's content and the panel's are never on screen together, and each end of the
/// animation shows exactly one of them.
pub proof fn law_ball_and_panel_content_never_overlap(expanding: bool, at: int)
    ensures
        frame_at(expanding, at).ball_opacity == 0 || frame_at(expanding, at).panel_opacity == 0,
        at <= 0 ==> frame_at(expanding, at) == (AnimationSample {
            expansion: if expanding {
                0
            } else {
                UNIT
            },
            ball_opacity: if expanding {
                UNIT
            } else {
                0
            },
            panel_opacity: if expanding {
                0
            } else {
                UNIT
            },
            finished: false,
        }),
        at >= UNIT ==> frame_at(expanding, at) == (AnimationSample {
            expansion: if expanding {
                UNIT
            } else {
                0
            },
            ball_opacity: if expanding {
                0
            } else {
                UNIT
            },
            panel_opacity: if expanding {
                UNIT
            } else {
                0
            },
            finished: true,
        }),
{
    let t = fixed::clamped(at, 0, UNIT as int);
    lemma_ramp_ends(t, 0, 300_000_000);
    lemma_ramp_ends(t, 400_000_000, 600_000_000);
    lemma_ramp_ends(t, 550_000_000, 450_000_000);
    lemma_ramp_ends(t, 0, 450_000_000);
    lemma_eased_range(t);
}

/// The panel growing out of the ball, or shrinking back into it.
#[derive(Clone, Copy, Debug, PartialEq, Eq, Structural)]
pub struct PanelAnimation {
    pub started_at: Instant,
    pub duration: Duration,
    pub anchor_rect: Rect,
    pub work_area: Rect,
    pub canvas_destination: Point,
    pub ball_center_screen: Point,
    pub expanding: bool,
}

impl PanelAnimation {
    pub open spec fn frame(self, now: Instant) -> AnimationSample {
        AnimationSample {
            finished: now.since(self.started_at) >= self.duration.nanos,
            ..frame_at(
                self.expanding,
                timeline(now.since(self.started_at) as int, self.duration.nanos as int),
            )
        }
    }

    pub fn sample(self, now: Instant) -> (sample: AnimationSample)
        requires
            self.duration.nanos <= MAX_SPAN_NANOS,
        ensures
            sample == self.frame(now),
            0 <= sample.expansion <= UNIT,
            0 <= sample.ball_opacity <= UNIT,
            0 <= sample.panel_opacity <= UNIT,
    {
        let elapsed = now.saturating_duration_since(self.started_at);
        let mut sample = animation_sample(self.expanding, timeline_of(elapsed, self.duration));
        sample.finished = elapsed.nanos >= self.duration.nanos;
        sample
    }
}

/// Width of the animated shape, in pixels.
pub open spec fn shape_width(expansion: int, dpi: int) -> int {
    layout::pixels(
        layout::between(COLLAPSED_DIP as int, PANEL_WIDTH_DIP as int, expansion),
        dpi,
    )
}

/// Height of the animated shape, in pixels.
pub open spec fn shape_height(expansion: int, panel_height_dip: int, dpi: int) -> int {
    layout::pixels(layout::between(COLLAPSED_DIP as int, panel_height_dip, expansion), dpi)
}

/// The animated shape: between ball and panel in size, anchored like the panel. Its sides are
/// `(left, top, right, bottom)`.
pub open spec fn shape_of(
    animation: PanelAnimation,
    expansion: int,
    dpi: int,
    panel_height_dip: int,
    edge: AnchorEdge,
    alignment: ExpansionAlignment,
) -> (int, int, int, int) {
    let width = shape_width(expansion, dpi);
    let height = shape_height(expansion, panel_height_dip, dpi);
    let (x, y) = layout::anchor_target(
        animation.anchor_rect,
        edge,
        width,
        height,
        animation.work_area,
        alignment,
    );
    (x, y, x + width, y + height)
}

/// Whether the animated shape can be placed without overflow.
pub open spec fn shape_is_valid(
    animation: PanelAnimation,
    expansion: int,
    dpi: int,
    panel_height_dip: int,
    edge: AnchorEdge,
    alignment: ExpansionAlignment,
) -> bool {
    let width = shape_width(expansion, dpi);
    let height = shape_height(expansion, panel_height_dip, dpi);
    let (_, _, right, bottom) = shape_of(
        animation,
        expansion,
        dpi,
        panel_height_dip,
        edge,
        alignment,
    );
    &&& layout::size_is_valid(width, height, animation.work_area)
    &&& i32::MIN <= right <= i32::MAX
    &&& i32::MIN <= bottom <= i32::MAX
}

fn extent_fits(extent: i32, work_start: i32, work_end: i32) -> (fits: bool)
    ensures
        fits == layout::extent_is_valid(extent as int, work_start as int, work_end as int),
{
    extent >= saturating_diff(work_end, work_start) || work_end as i64 - extent as i64
        <= i32::MAX as i64
}

/// Whether the animated shape can be placed without overflow.
pub fn animation_shape_fits(
    animation: PanelAnimation,
    expansion: i64,
    dpi: u32,
    panel_height_dip: i64,
    edge: AnchorEdge,
    alignment: ExpansionAlignment,
) -> (fits: bool)
    ensures
        fits == shape_is_valid(
            animation,
            expansion as int,
            dpi as int,
            panel_height_dip as int,
            edge,
            alignment,
        ),
{
    let width: i32 = dip_to_px(lerp(COLLAPSED_DIP, PANEL_WIDTH_DIP, expansion), dpi);
    let height: i32 = dip_to_px(lerp(COLLAPSED_DIP, panel_height_dip, expansion), dpi);
    let work = animation.work_area;
    if !extent_fits(width, work.left, work.right) || !extent_fits(height, work.top, work.bottom) {
        return false;
    }
    let at = anchored_destination(animation.anchor_rect, edge, width, height, work, alignment);
    at.x.checked_add(width).is_some() && at.y.checked_add(height).is_some()
}

pub fn animation_shape_rect(
    animation: PanelAnimation,
    expansion: i64,
    dpi: u32,
    panel_height_dip: i64,
    edge: AnchorEdge,
    alignment: ExpansionAlignment,
) -> (shape: Rect)
    requires
        shape_is_valid(
            animation,
            expansion as int,
            dpi as int,
            panel_height_dip as int,
            edge,
            alignment,
        ),
    ensures
        (shape.left as int, shape.top as int, shape.right as int, shape.bottom as int) == shape_of(
            animation,
            expansion as int,
            dpi as int,
            panel_height_dip as int,
            edge,
            alignment,
        ),
{
    let width: i32 = dip_to_px(lerp(COLLAPSED_DIP, PANEL_WIDTH_DIP, expansion), dpi);
    let height: i32 = dip_to_px(lerp(COLLAPSED_DIP, panel_height_dip, expansion), dpi);
    let at = anchored_destination(
        animation.anchor_rect,
        edge,
        width,
        height,
        animation.work_area,
        alignment,
    );
    Rect { left: at.x, top: at.y, right: at.x + width, bottom: at.y + height }
}

/// At every moment the animated shape lies within the work area, as long as the full panel
/// fits it.
pub proof fn law_animated_shape_stays_inside(
    animation: PanelAnimation,
    expansion: int,
    dpi: int,
    panel_height_dip: int,
    edge: AnchorEdge,
    alignment: ExpansionAlignment,
)
    requires
        layout::is_work_area(animation.work_area),
        dpi >= 0,
        COLLAPSED_DIP <= panel_height_dip,
        layout::pixels(PANEL_WIDTH_DIP as int, dpi) <= animation.work_area.right
            - animation.work_area.left,
        layout::pixels(panel_height_dip, dpi) <= animation.work_area.bottom
            - animation.work_area.top,
    ensures
        shape_is_valid(animation, expansion, dpi, panel_height_dip, edge, alignment),
        ({
            let work = animation.work_area;
            let (left, top, right, bottom) = shape_of(
                animation,
                expansion,
                dpi,
                panel_height_dip,
                edge,
                alignment,
            );
            &&& work.left <= left <= right <= work.right
            &&& work.top <= top <= bottom <= work.bottom
        }),
{
    let w = layout::between(COLLAPSED_DIP as int, PANEL_WIDTH_DIP as int, expansion);
    let h = layout::between(COLLAPSED_DIP as int, panel_height_dip, expansion);
    layout::law_between_stays_between(COLLAPSED_DIP as int, PANEL_WIDTH_DIP as int, expansion);
    layout::law_between_stays_between(COLLAPSED_DIP as int, panel_height_dip, expansion);
    layout::law_pixels_are_monotonic(0, w, dpi);
    layout::law_pixels_are_monotonic(w, PANEL_WIDTH_DIP as int, dpi);
    layout::law_pixels_are_monotonic(0, h, dpi);
    layout::law_pixels_are_monotonic(h, panel_height_dip, dpi);
    fixed::law_nearest_of_a_multiple(0, 96_000_000);
}

/// One value easing from an old setting to a new one.
#[derive(Clone, Copy, Debug, PartialEq, Eq, Structural)]
pub struct Tween {
    pub started_at: Instant,
    pub duration: Duration,
    pub from: i64,
    pub to: i64,
}

#[derive(Clone, Copy, Debug, PartialEq, Eq, Structural)]
pub struct TweenSample {
    pub fraction: i64,
    pub finished: bool,
}

/// A changed value moves to its new place over this long.
pub const TWEEN_MILLIS: u64 = 250;

/// A ball that has just appeared fills its ring over this long.
pub const SWEEP_MILLIS: u64 = 700;

/// The number in the middle rolls to a changed value over this long, settling before the arc.
pub const LABEL_TWEEN_MILLIS: u64 = 200;

/// The number in the middle rolls up from zero over this long, settling before the sweep.
pub const LABEL_SWEEP_MILLIS: u64 = 500;

/// The number always settles before the arc that it accompanies.
pub proof fn law_label_settles_before_the_arc()
    ensures
        LABEL_TWEEN_MILLIS < TWEEN_MILLIS,
        LABEL_SWEEP_MILLIS < SWEEP_MILLIS,
{
}

impl Tween {
    /// A tween from `from` to `to` that takes `millis` milliseconds.
    pub open spec fn lasting(from: i64, to: i64, now: Instant, millis: u64) -> Tween {
        Tween {
            started_at: now,
            duration: Duration { nanos: (millis * 1_000_000) as u128 },
            from,
            to,
        }
    }

    pub fn new(from: i64, to: i64, now: Instant) -> (tween: Tween)
        ensures
            tween == Tween::lasting(from, to, now, TWEEN_MILLIS),
    {
        Tween { started_at: now, duration: Duration::from_millis(TWEEN_MILLIS), from, to }
    }

    pub fn sweep(to: i64, now: Instant) -> (tween: Tween)
        ensures
            tween == Tween::lasting(0, to, now, SWEEP_MILLIS),
    {
        Tween { started_at: now, duration: Duration::from_millis(SWEEP_MILLIS), from: 0, to }
    }

    pub fn label_tween(from: i64, to: i64, now: Instant) -> (tween: Tween)
        ensures
            tween == Tween::lasting(from, to, now, LABEL_TWEEN_MILLIS),
    {
        Tween { started_at: now, duration: Duration::from_millis(LABEL_TWEEN_MILLIS), from, to }
    }

    pub fn label_sweep(to: i64, now: Instant) -> (tween: Tween)
        ensures
            tween == Tween::lasting(0, to, now, LABEL_SWEEP_MILLIS),
    {
        Tween { started_at: now, duration: Duration::from_millis(LABEL_SWEEP_MILLIS), from: 0, to }
    }

    pub fn timed(from: i64, to: i64, now: Instant, duration: Duration) -> (tween: Tween)
        ensures
            tween == (Tween { started_at: now, duration, from, to }),
    {
        Tween { started_at: now, duration, from, to }
    }

    /// The eased value at `now`, and whether the time is up.
    pub open spec fn at(self, now: Instant) -> TweenSample {
        let elapsed = now.since(self.started_at) as int;
        TweenSample {
            fraction: layout::between(
                self.from as int,
                self.to as int,
                eased(timeline(elapsed, self.duration.nanos as int)),
            ) as i64,
            finished: elapsed >= self.duration.nanos,
        }
    }

    pub fn sample(self, now: Instant) -> (sample: TweenSample)
        requires
            self.duration.nanos <= MAX_SPAN_NANOS,
        ensures
            sample == self.at(now),
    {
        let elapsed = now.saturating_duration_since(self.started_at);
        let progress: i64 = ease_out_cubic(timeline_of(elapsed, self.duration));
        TweenSample {
            fraction: lerp(self.from, self.to, progress),
            finished: elapsed.nanos >= self.duration.nanos,
        }
    }

    /// A tween starts at its old value, settles on the new one for good, and in between never
    /// leaves the range between them.
    pub proof fn law_tween_runs_from_old_to_new(self, now: Instant)
        ensures
            self.from <= self.to ==> self.from <= self.at(now).fraction <= self.to,
            self.to <= self.from ==> self.to <= self.at(now).fraction <= self.from,
            now == self.started_at && self.duration.nanos > 0 ==> self.at(now) == (TweenSample {
                fraction: self.from,
                finished: false,
            }),
            now.since(self.started_at) >= self.duration.nanos ==> self.at(now) == (TweenSample {
                fraction: self.to,
                finished: true,
            }),
    {
        let elapsed = now.since(self.started_at) as int;
        let t = timeline(elapsed, self.duration.nanos as int);
        lemma_timeline_range(elapsed, self.duration.nanos as int);
        lemma_eased_range(t);
        layout::law_between_stays_between(self.from as int, self.to as int, eased(t));
    }

    /// A rising tween never falls back, a falling one never rises.
    pub proof fn law_tween_is_monotonic(self, earlier: Instant, later: Instant)
        requires
            earlier.nanos <= later.nanos,
        ensures
            self.from <= self.to ==> self.at(earlier).fraction <= self.at(later).fraction,
            self.to <= self.from ==> self.at(later).fraction <= self.at(earlier).fraction,
    {
        let d = self.duration.nanos as int;
        let (e1, e2) = (
            earlier.since(self.started_at) as int,
            later.since(self.started_at) as int,
        );
        law_timeline_is_monotonic(e1, e2, d);
        let (p1, p2) = (eased(timeline(e1, d)), eased(timeline(e2, d)));
        law_eased_is_monotonic(timeline(e1, d), timeline(e2, d));
        self.law_tween_runs_from_old_to_new(earlier);
        self.law_tween_runs_from_old_to_new(later);
        layout::law_between_stays_between(self.from as int, self.to as int, p1);
        layout::law_between_stays_between(self.from as int, self.to as int, p2);
        let span = self.to - self.from;
        if span >= 0 {
            assert(span * p1 <= span * p2) by (nonlinear_arith)
                requires
                    span >= 0,
                    p1 <= p2,
            ;
            fixed::law_nearest_is_monotonic(span * p1, span * p2, UNIT as int);
        } else {
            assert(span * p2 <= span * p1) by (nonlinear_arith)
                requires
                    span < 0,
                    p1 <= p2,
            ;
            fixed::law_nearest_is_monotonic(span * p2, span * p1, UNIT as int);
        }
    }
}

/// The phase of a cycle that started at `epoch`; `epoch` moves forward by whole periods, so
/// that the distance to it stays short however long the program runs.
pub fn phase_at(epoch: &mut Instant, now: Instant, period: Duration) -> (phase: Duration)
    requires
        period.nanos > 0,
    ensures
        phase.nanos == (now.since(*old(epoch)) % period.nanos as nat) as u64,
        phase.nanos <= now.nanos,
        final(epoch).nanos == now.nanos - phase.nanos,
{
    let elapsed = now.saturating_duration_since(*epoch);
    let rest: u128 = elapsed.nanos % period.nanos;
    let phase = Duration::from_nanos(#[verifier::truncate] (rest as u64));
    proof {
        assert(rest as u64 <= rest) by (bit_vector);
        assert(rest <= elapsed.nanos) by (nonlinear_arith)
            requires
                rest == elapsed.nanos % period.nanos,
                period.nanos > 0,
        ;
    }
    match now.checked_sub(phase) {
        Some(earlier) => {
            *epoch = earlier;
        },
        None => {},
    }
    phase
}

/// Re-anchoring keeps the phase: the new epoch lies a whole number of periods after the old
/// one and less than one period before now, so a later reading is the same from either.
pub proof fn law_reanchoring_keeps_the_phase(epoch: Instant, now: Instant, later: Instant, period: Duration)
    requires
        0 < period.nanos <= u64::MAX,
        epoch.nanos <= now.nanos <= later.nanos,
    ensures
        ({
            let phase = now.since(epoch) % period.nanos as nat;
            let anchored = Instant { nanos: (now.nanos - phase) as u128 };
            &&& now.since(anchored) < period.nanos
            &&& (anchored.nanos - epoch.nanos) % period.nanos as int == 0
            &&& later.since(anchored) % period.nanos as nat == later.since(epoch)
                % period.nanos as nat
        }),
{
    let p = period.nanos as int;
    let elapsed = now.nanos - epoch.nanos;
    let phase = elapsed % p;
    let whole = elapsed / p;
    vstd::arithmetic::div_mod::lemma_fundamental_div_mod(elapsed, p);
    vstd::arithmetic::div_mod::lemma_mod_bound(elapsed, p);
    assert(phase <= elapsed) by (nonlinear_arith)
        requires
            phase == elapsed % p,
            elapsed >= 0,
            p > 0,
    ;
    vstd::arithmetic::div_mod::lemma_mod_multiples_basic(whole, p);
    assert(p * whole == whole * p) by (nonlinear_arith);
    let rest = later.nanos - (now.nanos - phase);
    assert(later.nanos - epoch.nanos == p * whole + rest);
    vstd::arithmetic::div_mod::lemma_mod_multiples_vanish(whole, rest, p);
}

/// What an eased motion has still to go is the cube of the time it has left, to the nearest
/// billionth.
pub proof fn law_easing_is_cubic(progress: i64, value: i64)
    requires
        call_ensures(ease_out_cubic, (progress,), value),
    ensures
        progress <= 0 ==> value == 0,
        progress >= 1_000_000_000 ==> value == 1_000_000_000,
        0 <= progress <= 1_000_000_000 ==> ({
            let rest = 1_000_000_000 - progress;
            -1_000_000_000_000_000_000 <= 2 * ((1_000_000_000 - value) * 1_000_000_000_000_000_000
                - rest * rest * rest) <= 1_000_000_000_000_000_000
        }),
{
    lemma_eased_range(progress as int);
    let rest = UNIT - fixed::clamped(progress as int, 0, UNIT as int);
    fixed::law_nearest_is_within_half_a_step(rest * rest * rest, 1_000_000_000_000_000_000);
}

/// Content fades at a steady rate. Expanding, the ball's is gone at three tenths of the time and
/// the panel's comes from four tenths to the end; collapsing, the panel's is gone at nine
/// twentieths and the ball's comes from eleven twentieths to the end. The shape grows along the
/// eased curve, or shrinks along it.
pub proof fn law_content_fades_at_a_steady_rate(
    expanding: bool,
    at: i64,
    sample: AnimationSample,
    curve: i64,
)
    requires
        0 <= at <= 1_000_000_000,
        call_ensures(animation_sample, (expanding, at), sample),
        call_ensures(ease_out_cubic, (at,), curve),
    ensures
        sample.finished <==> at == 1_000_000_000,
        expanding ==> sample.expansion == curve,
        !expanding ==> sample.expansion == 1_000_000_000 - curve,
        expanding ==> {
            &&& at <= 300_000_000 ==> -300_000_000 <= 2 * ((1_000_000_000 - sample.ball_opacity)
                * 300_000_000 - at * 1_000_000_000) <= 300_000_000
            &&& at >= 300_000_000 ==> sample.ball_opacity == 0
            &&& at <= 400_000_000 ==> sample.panel_opacity == 0
            &&& at >= 400_000_000 ==> -600_000_000 <= 2 * (sample.panel_opacity * 600_000_000 - (at
                - 400_000_000) * 1_000_000_000) <= 600_000_000
        },
        !expanding ==> {
            &&& at <= 450_000_000 ==> -450_000_000 <= 2 * ((1_000_000_000 - sample.panel_opacity)
                * 450_000_000 - at * 1_000_000_000) <= 450_000_000
            &&& at >= 450_000_000 ==> sample.panel_opacity == 0
            &&& at <= 550_000_000 ==> sample.ball_opacity == 0
            &&& at >= 550_000_000 ==> -450_000_000 <= 2 * (sample.ball_opacity * 450_000_000 - (at
                - 550_000_000) * 1_000_000_000) <= 450_000_000
        },
{
    let t = at as int;
    lemma_ramp_is_steady(t, 0, 300_000_000);
    lemma_ramp_is_steady(t, 400_000_000, 600_000_000);
    lemma_ramp_is_steady(t, 550_000_000, 450_000_000);
    lemma_ramp_is_steady(t, 0, 450_000_000);
    lemma_eased_range(t);
}

proof fn lemma_ramp_is_steady(at: int, start: int, span: int)
    requires
        0 < span,
    ensures
        0 <= ramp(at, start, span) <= UNIT,
        at <= start ==> ramp(at, start, span) == 0,
        at >= start + span ==> ramp(at, start, span) == UNIT,
        start <= at <= start + span ==> -span <= 2 * (ramp(at, start, span) * span - (at - start)
            * 1_000_000_000) <= span,
{
    lemma_ramp_ends(at, start, span);
    if start <= at <= start + span {
        let u = UNIT as int;
        let n = (at - start) * u;
        assert(0 <= n <= u * span) by (nonlinear_arith)
            requires
                0 <= at - start <= span,
                n == (at - start) * u,
                u > 0,
        ;
        fixed::law_nearest_of_a_multiple(0, span);
        fixed::law_nearest_of_a_multiple(u, span);
        fixed::law_nearest_is_monotonic(0, n, span);
        fixed::law_nearest_is_monotonic(n, u * span, span);
        fixed::law_nearest_is_within_half_a_step(n, span);
    }
}

/// A panel animation shows the frame that belongs to the share of its time that has passed, and is
/// over exactly when its time is up.
pub proof fn law_frames_follow_the_clock(
    animation: PanelAnimation,
    now: Instant,
    sample: AnimationSample,
    progress: i64,
    frame: AnimationSample,
)
    requires
        call_ensures(PanelAnimation::sample, (animation, now), sample),
        animation.started_at.nanos <= now.nanos,
        is_progress(
            now.nanos - animation.started_at.nanos,
            animation.duration.nanos as int,
            progress,
        ),
        call_ensures(animation_sample, (animation.expanding, progress), frame),
    ensures
        sample.expansion == frame.expansion,
        sample.ball_opacity == frame.ball_opacity,
        sample.panel_opacity == frame.panel_opacity,
        sample.finished <==> now.nanos - animation.started_at.nanos >= animation.duration.nanos,
{
    lemma_progress(
        now.nanos - animation.started_at.nanos,
        animation.duration.nanos as int,
        progress,
    );
}

/// The share of a span that has passed, to the nearest billionth.
pub open spec fn is_progress(elapsed: int, duration: int, progress: i64) -> bool {
    if elapsed >= duration {
        progress == 1_000_000_000
    } else {
        -duration < 2 * (progress * duration - elapsed * 1_000_000_000) <= duration
    }
}

proof fn lemma_progress(elapsed: int, duration: int, progress: i64)
    requires
        0 <= elapsed,
        is_progress(elapsed, duration, progress),
    ensures
        timeline(elapsed, duration) == progress,
{
    if elapsed < duration {
        fixed::lemma_nearest_is_unique(elapsed * 1_000_000_000, duration, progress as int);
    }
}

/// A tween has come as far as the eased share of its time, and is over exactly when its time is up.
pub proof fn law_tweens_follow_the_clock(
    tween: Tween,
    now: Instant,
    sample: TweenSample,
    progress: i64,
    curve: i64,
    value: i64,
)
    requires
        call_ensures(Tween::sample, (tween, now), sample),
        tween.started_at.nanos <= now.nanos,
        is_progress(now.nanos - tween.started_at.nanos, tween.duration.nanos as int, progress),
        call_ensures(ease_out_cubic, (progress,), curve),
        call_ensures(lerp, (tween.from, tween.to, curve), value),
    ensures
        sample.fraction == value,
        sample.finished <==> now.nanos - tween.started_at.nanos >= tween.duration.nanos,
{
    lemma_progress(now.nanos - tween.started_at.nanos, tween.duration.nanos as int, progress);
}

/// How long each kind of tween takes, and where it starts.
pub proof fn law_tweens_have_their_durations(
    from: i64,
    to: i64,
    now: Instant,
    arc: Tween,
    sweep: Tween,
    label: Tween,
    label_sweep: Tween,
)
    requires
        call_ensures(Tween::new, (from, to, now), arc),
        call_ensures(Tween::sweep, (to, now), sweep),
        call_ensures(Tween::label_tween, (from, to, now), label),
        call_ensures(Tween::label_sweep, (to, now), label_sweep),
    ensures
        arc.duration.nanos == 250_000_000,
        sweep.duration.nanos == 700_000_000,
        label.duration.nanos == 200_000_000,
        label_sweep.duration.nanos == 500_000_000,
        arc.from == from && label.from == from && sweep.from == 0 && label_sweep.from == 0,
        arc.to == to && label.to == to && sweep.to == to && label_sweep.to == to,
        arc.started_at == now && label.started_at == now && sweep.started_at == now
            && label_sweep.started_at == now,
{
}

/// The animated shape is as large as the share of the way from the ball to the panel that it has
/// come, and is anchored as any window of that size would be.
pub proof fn law_the_shape_grows_from_ball_to_panel(
    animation: PanelAnimation,
    expansion: i64,
    dpi: u32,
    panel_height_dip: i64,
    edge: AnchorEdge,
    alignment: ExpansionAlignment,
    shape: Rect,
    width_dip: i64,
    height_dip: i64,
    width: i32,
    height: i32,
    at: Point,
)
    requires
        call_ensures(
            animation_shape_rect,
            (animation, expansion, dpi, panel_height_dip, edge, alignment),
            shape,
        ),
        call_ensures(lerp, (56_000_000, 288_000_000, expansion), width_dip),
        call_ensures(lerp, (56_000_000, panel_height_dip, expansion), height_dip),
        call_ensures(dip_to_px, (width_dip, dpi), width),
        call_ensures(dip_to_px, (height_dip, dpi), height),
        call_ensures(
            anchored_destination,
            (animation.anchor_rect, edge, width, height, animation.work_area, alignment),
            at,
        ),
    ensures
        shape.left == at.x,
        shape.top == at.y,
        shape.right - shape.left == width,
        shape.bottom - shape.top == height,
{
}

/// A cycle's phase is shorter than its period, its new epoch lies that far back, and a whole number
/// of periods after the old one.
pub proof fn law_the_epoch_moves_by_whole_periods(
    epoch: &mut Instant,
    now: Instant,
    period: Duration,
    phase: Duration,
)
    requires
        0 < period.nanos <= u64::MAX,
        old(epoch).nanos <= now.nanos,
        call_ensures(phase_at, (epoch, now, period), phase),
    ensures
        phase.nanos < period.nanos,
        final(epoch).nanos + phase.nanos == now.nanos,
        old(epoch).nanos <= final(epoch).nanos,
        (final(epoch).nanos - old(epoch).nanos) % (period.nanos as int) == 0,
{
    let elapsed = now.nanos - old(epoch).nanos;
    vstd::arithmetic::div_mod::lemma_mod_bound(elapsed, period.nanos as int);
    law_reanchoring_keeps_the_phase(*old(epoch), now, now, period);
    assert(elapsed % (period.nanos as int) <= elapsed) by (nonlinear_arith)
        requires
            elapsed >= 0,
            period.nanos > 0,
    ;
}

/// The animated shape can be placed where its sides can be counted in 32 bits from every place in
/// the work area that it may be put at.
pub proof fn law_shapes_fit_where_they_can_be_counted(
    animation: PanelAnimation,
    expansion: i64,
    dpi: u32,
    panel_height_dip: i64,
    edge: AnchorEdge,
    alignment: ExpansionAlignment,
    fits: bool,
    width_dip: i64,
    height_dip: i64,
    width: i32,
    height: i32,
    at: Point,
)
    requires
        call_ensures(
            animation_shape_fits,
            (animation, expansion, dpi, panel_height_dip, edge, alignment),
            fits,
        ),
        call_ensures(lerp, (56_000_000, 288_000_000, expansion), width_dip),
        call_ensures(lerp, (56_000_000, panel_height_dip, expansion), height_dip),
        call_ensures(dip_to_px, (width_dip, dpi), width),
        call_ensures(dip_to_px, (height_dip, dpi), height),
        call_ensures(
            anchored_destination,
            (animation.anchor_rect, edge, width, height, animation.work_area, alignment),
            at,
        ),
        width >= 0,
        height >= 0,
    ensures
        fits <==> at.x + width <= 2_147_483_647 && at.y + height <= 2_147_483_647,
{
}

/// A tween that is given its time takes it.
pub proof fn law_timed_tweens_take_their_time(
    from: i64,
    to: i64,
    now: Instant,
    duration: Duration,
    tween: Tween,
)
    requires
        call_ensures(Tween::timed, (from, to, now, duration), tween),
    ensures
        tween.from == from,
        tween.to == to,
        tween.started_at == now,
        tween.duration == duration,
{
}

} // verus!
