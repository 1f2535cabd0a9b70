//! Dragging the ball and letting it slide to the edge with the hand's own speed.
//!
//! Speeds are counted in billionths of a pixel per millisecond.
use vstd::prelude::*;

use crate::fixed;
use crate::fixed::{round_div, UNIT};
use crate::layout;
use crate::layout::Point;
use crate::time::{Duration, Instant};

verus! {

/// No pointer moves faster than the whole coordinate range within one nanosecond.
pub const SPEED_LIMIT: i128 = 4_294_967_296_000_000_000_000_000;

/// Cursor speed along both axes.
#[derive(Clone, Copy, Debug, PartialEq, Eq, Structural)]
pub struct Velocity {
    pub x: i128,
    pub y: i128,
}

impl Velocity {
    pub open spec fn is_bounded(self) -> bool {
        &&& -SPEED_LIMIT <= self.x <= SPEED_LIMIT
        &&& -SPEED_LIMIT <= self.y <= SPEED_LIMIT
    }
}

/// The share of a new measurement in the smoothed speed, in percent: about the mean of the
/// last three or four samples.
pub const SMOOTHING_PERCENT: i128 = 35;

/// A hand that has rested this long before letting go has no speed.
pub const STALE_MILLIS: u64 = 80;

/// Speed of a move by `distance` pixels within `elapsed` nanoseconds.
pub open spec fn measured_speed(distance: int, elapsed: int) -> int {
    fixed::nearest(distance * 1_000_000_000_000_000, elapsed)
}

/// The smoothed speed after a measurement.
pub open spec fn smoothed_speed(speed: int, measured: int) -> int {
    fixed::nearest(
        speed * (100 - SMOOTHING_PERCENT) + measured * SMOOTHING_PERCENT,
        100,
    )
}

proof fn lemma_measured_speed_is_bounded(distance: int, elapsed: int)
    requires
        -4_294_967_296 <= distance <= 4_294_967_296,
        elapsed > 0,
    ensures
        -SPEED_LIMIT <= measured_speed(distance, elapsed) <= SPEED_LIMIT,
{
    let n = distance * 1_000_000_000_000_000;
    let limit = SPEED_LIMIT as int;
    assert(-(limit * elapsed) <= n <= limit * elapsed) by (nonlinear_arith)
        requires
            -limit <= n <= limit,
            elapsed >= 1,
            limit > 0,
    ;
    assert((-limit) * elapsed == -(limit * elapsed)) by (nonlinear_arith);
    fixed::law_nearest_is_monotonic((-limit) * elapsed, n, elapsed);
    fixed::law_nearest_is_monotonic(n, limit * elapsed, elapsed);
    fixed::law_nearest_of_a_multiple(-limit, elapsed);
    fixed::law_nearest_of_a_multiple(limit, elapsed);
}

proof fn lemma_smoothed_speed_is_bounded(speed: int, measured: int)
    requires
        -SPEED_LIMIT <= speed <= SPEED_LIMIT,
        -SPEED_LIMIT <= measured <= SPEED_LIMIT,
    ensures
        -SPEED_LIMIT <= smoothed_speed(speed, measured) <= SPEED_LIMIT,
{
    let n = speed * 65 + measured * 35;
    let limit = SPEED_LIMIT as int;
    fixed::law_nearest_is_monotonic((-limit) * 100, n, 100);
    fixed::law_nearest_is_monotonic(n, limit * 100, 100);
    fixed::law_nearest_of_a_multiple(-limit, 100);
    fixed::law_nearest_of_a_multiple(limit, 100);
}

fn measure(from: i32, to: i32, elapsed: u128) -> (speed: i128)
    requires
        elapsed > 0,
    ensures
        speed == measured_speed(to - from, elapsed as int),
        -SPEED_LIMIT <= speed <= SPEED_LIMIT,
{
    let distance: i64 = to as i64 - from as i64;
    let scaled: i128 = distance as i128 * 1_000_000_000_000_000;
    proof {
        lemma_measured_speed_is_bounded(distance as int, elapsed as int);
    }
    if elapsed > 0x7fff_ffff_ffff_ffff_ffff_ffff_ffff_ffff {
        proof {
            let m = fixed::magnitude(scaled as int);
            assert(m / elapsed as int == 0 && m % elapsed as int == m) by {
                vstd::arithmetic::div_mod::lemma_basic_div(m, elapsed as int);
                vstd::arithmetic::div_mod::lemma_small_mod(m as nat, elapsed as nat);
            }
        }
        return 0;
    }
    round_div(scaled, elapsed as i128)
}

fn smooth(speed: i128, measured: i128) -> (smoothed: i128)
    requires
        -SPEED_LIMIT <= speed <= SPEED_LIMIT,
        -SPEED_LIMIT <= measured <= SPEED_LIMIT,
    ensures
        smoothed == smoothed_speed(speed as int, measured as int),
        -SPEED_LIMIT <= smoothed <= SPEED_LIMIT,
{
    proof {
        lemma_smoothed_speed_is_bounded(speed as int, measured as int);
    }
    round_div(speed * (100 - SMOOTHING_PERCENT) + measured * SMOOTHING_PERCENT, 100)
}

/// The cursor's speed while dragging, smoothed over the last few samples.
#[derive(Clone, Copy, Debug)]
pub struct DragVelocity {
    pub last: Option<(Point, Instant)>,
    pub velocity: Velocity,
}

impl Default for DragVelocity {
    fn default() -> (drag: DragVelocity)
        ensures
            drag == DragVelocity::at_rest(),
            drag.well_formed(),
    {
        DragVelocity { last: None, velocity: Velocity { x: 0, y: 0 } }
    }
}

impl DragVelocity {
    pub open spec fn well_formed(self) -> bool {
        self.velocity.is_bounded()
    }

    /// Nothing sampled yet.
    pub open spec fn at_rest() -> DragVelocity {
        DragVelocity { last: None, velocity: Velocity { x: 0, y: 0 } }
    }

    /// The speed after seeing the cursor at `cursor`: unchanged by a first sample or by one at
    /// the same instant as the last.
    pub open spec fn velocity_after(self, cursor: Point, now: Instant) -> Velocity {
        match self.last {
            Some((last, last_at)) => {
                let elapsed = now.since(last_at) as int;
                if elapsed > 0 {
                    Velocity {
                        x: smoothed_speed(
                            self.velocity.x as int,
                            measured_speed(cursor.x - last.x, elapsed),
                        ) as i128,
                        y: smoothed_speed(
                            self.velocity.y as int,
                            measured_speed(cursor.y - last.y, elapsed),
                        ) as i128,
                    }
                } else {
                    self.velocity
                }
            },
            None => self.velocity,
        }
    }

    pub fn reset(&mut self)
        ensures
            *final(self) == DragVelocity::at_rest(),
            final(self).well_formed(),
    {
        self.last = None;
        self.velocity = Velocity { x: 0, y: 0 };
    }

    pub fn sample(&mut self, cursor: Point, now: Instant)
        requires
            old(self).well_formed(),
        ensures
            final(self).well_formed(),
            *final(self) == (DragVelocity {
                last: Some((cursor, now)),
                velocity: old(self).velocity_after(cursor, now),
            }),
    {
        if let Some((last, last_at)) = self.last {
            let elapsed = now.saturating_duration_since(last_at);
            if elapsed.nanos > 0 {
                let x: i128 = smooth(self.velocity.x, measure(last.x, cursor.x, elapsed.nanos));
                let y: i128 = smooth(self.velocity.y, measure(last.y, cursor.y, elapsed.nanos));
                self.velocity = Velocity { x, y };
            }
        }
        self.last = Some((cursor, now));
    }

    /// The speed at the moment of letting go; zero after resting.
    pub open spec fn released(self, now: Instant) -> Velocity {
        match self.last {
            Some((_, at)) => if now.since(at) < STALE_MILLIS * 1_000_000 {
                self.velocity
            } else {
                Velocity { x: 0, y: 0 }
            },
            None => Velocity { x: 0, y: 0 },
        }
    }

    pub fn release_velocity(&self, now: Instant) -> (velocity: Velocity)
        requires
            self.well_formed(),
        ensures
            velocity == self.released(now),
            velocity.is_bounded(),
    {
        if let Some((_, at)) = self.last {
            if now.saturating_duration_since(at).nanos < Duration::from_millis(
                STALE_MILLIS,
            ).nanos {
                return self.velocity;
            }
        }
        Velocity { x: 0, y: 0 }
    }
}

/// Shortest slide.
pub const MIN_SLIDE_MILLIS: u64 = 100;

/// Longest slide.
pub const MAX_SLIDE_MILLIS: u64 = 350;

/// Squared distance between two points.
pub open spec fn distance_squared(from: Point, to: Point) -> int {
    layout::squared(to.x - from.x) + layout::squared(to.y - from.y)
}

/// Whether a slide over this squared distance earns at least `extra` milliseconds on top of the
/// shortest slide, at 0.3 ms per pixel rounded to the nearest millisecond: whether
/// `0.3 * distance >= extra - 0.5`.
pub open spec fn earns(distance_squared: int, extra: int) -> bool {
    extra <= 0 || layout::squared(10 * extra - 5) <= 9 * distance_squared
}

/// Whether `millis` is how long the slide from `from` to `to` takes: the shortest slide plus
/// 0.3 ms per pixel, and no longer than the longest.
pub open spec fn is_slide_millis(from: Point, to: Point, millis: int) -> bool {
    &&& MIN_SLIDE_MILLIS <= millis <= MAX_SLIDE_MILLIS
    &&& earns(distance_squared(from, to), millis - MIN_SLIDE_MILLIS)
    &&& millis < MAX_SLIDE_MILLIS ==> !earns(
        distance_squared(from, to),
        millis + 1 - MIN_SLIDE_MILLIS,
    )
}

pub fn duration_for(from: Point, to: Point) -> (duration: Duration)
    ensures
        exists|millis: int| #[trigger]
            is_slide_millis(from, to, millis) && duration.nanos == millis * 1_000_000,
{
    let dx: i64 = to.x as i64 - from.x as i64;
    let dy: i64 = to.y as i64 - from.y as i64;
    proof {
        assert(0 <= layout::squared(dx as int) <= 0x1_0000_0000 * 0x1_0000_0000)
            by (nonlinear_arith)
            requires
                -0x1_0000_0000 <= dx <= 0x1_0000_0000,
                layout::squared(dx as int) == dx * dx,
        ;
        assert(0 <= layout::squared(dy as int) <= 0x1_0000_0000 * 0x1_0000_0000)
            by (nonlinear_arith)
            requires
                -0x1_0000_0000 <= dy <= 0x1_0000_0000,
                layout::squared(dy as int) == dy * dy,
        ;
    }
    let nine_squares: i128 = 9 * (dx as i128 * dx as i128 + dy as i128 * dy as i128);
    proof {
        assert(layout::squared(to.x - from.x) == dx * dx);
        assert(layout::squared(to.y - from.y) == dy * dy);
        assert(distance_squared(from, to) == dx * dx + dy * dy);
        assert(nine_squares == 9 * distance_squared(from, to));
    }
    assert((10 * 0 + 5) * (10 * 0 + 5) <= 0x7fff_ffffint) by (nonlinear_arith);
    let mut extra: i128 = 0;
    let most: i128 = (MAX_SLIDE_MILLIS - MIN_SLIDE_MILLIS) as i128;
    while extra < most && (10 * extra + 5) * (10 * extra + 5) <= nine_squares
        invariant
            0 <= extra <= most,
            most == 250,
            nine_squares == 9 * distance_squared(from, to),
            earns(distance_squared(from, to), extra as int),
            extra < 250 ==> (10 * extra + 5) * (10 * extra + 5) <= 0x7fff_ffff,
        decreases most - extra,
    {
        extra = extra + 1;
        proof {
            assert(layout::squared(10 * extra - 5) == (10 * (extra - 1) + 5) * (10 * (extra - 1)
                + 5));
            assert(extra <= 250 ==> (10 * extra + 5) * (10 * extra + 5) <= 0x7fff_ffff)
                by (nonlinear_arith)
                requires
                    0 <= extra <= 250,
            ;
        }
    }
    proof {
        assert(layout::squared(10 * (extra + 1) - 5) == (10 * extra + 5) * (10 * extra + 5));
        assert(is_slide_millis(from, to, extra + MIN_SLIDE_MILLIS));
    }
    Duration::from_millis(MIN_SLIDE_MILLIS + extra as u64)
}

proof fn lemma_earns_is_downward_closed(s: int, more: int, less: int)
    requires
        earns(s, more),
        less <= more,
        s >= 0,
    ensures
        earns(s, less),
{
    if less > 0 {
        let (a, b) = (10 * less - 5, 10 * more - 5);
        assert(a * a <= b * b) by (nonlinear_arith)
            requires
                0 <= a <= b,
        ;
    }
}

/// A longer way never slides for a shorter time, and the time of a slide is unique.
pub proof fn law_slide_time_grows_with_distance(
    from: Point,
    near: Point,
    far: Point,
    near_millis: int,
    far_millis: int,
)
    requires
        is_slide_millis(from, near, near_millis),
        is_slide_millis(from, far, far_millis),
        distance_squared(from, near) <= distance_squared(from, far),
    ensures
        near_millis <= far_millis,
        distance_squared(from, near) == distance_squared(from, far) ==> near_millis == far_millis,
{
    let (s, t) = (distance_squared(from, near), distance_squared(from, far));
    assert(layout::squared(near.x - from.x) >= 0) by (nonlinear_arith)
        requires
            layout::squared(near.x - from.x) == (near.x - from.x) * (near.x - from.x),
    ;
    assert(layout::squared(near.y - from.y) >= 0) by (nonlinear_arith)
        requires
            layout::squared(near.y - from.y) == (near.y - from.y) * (near.y - from.y),
    ;
    if near_millis > far_millis {
        lemma_earns_is_downward_closed(
            s,
            near_millis - MIN_SLIDE_MILLIS,
            far_millis + 1 - MIN_SLIDE_MILLIS,
        );
    }
    if s == t && far_millis > near_millis {
        lemma_earns_is_downward_closed(
            t,
            far_millis - MIN_SLIDE_MILLIS,
            near_millis + 1 - MIN_SLIDE_MILLIS,
        );
    }
}

/// The part of a speed that points towards a target `delta` pixels away, capped so that a
/// slide of `span` milliseconds that ends at rest does not shoot past it.
pub open spec fn speed_towards(delta: int, span: int, speed: int) -> int {
    if delta == 0 {
        0
    } else if delta > 0 {
        fixed::clamped(speed, 0, 3 * delta * UNIT / span)
    } else {
        fixed::clamped(speed, -(3 * -delta * UNIT / span), 0)
    }
}

fn keep_towards(delta: i64, span: i128, speed: i128) -> (kept: i128)
    requires
        -0x1_0000_0000 <= delta <= 0x1_0000_0000,
        span > 0,
    ensures
        kept == speed_towards(delta as int, span as int, speed as int),
{
    if delta == 0 {
        return 0;
    }
    let distance: i128 = if delta > 0 {
        delta as i128
    } else {
        -(delta as i128)
    };
    let scaled: i128 = 3 * distance * 1_000_000_000;
    let cap: i128 = scaled / span;
    proof {
        assert(0 <= cap <= scaled) by (nonlinear_arith)
            requires
                scaled >= 0,
                span >= 1,
                cap == scaled as int / span as int,
        ;
    }
    if delta > 0 {
        if speed < 0 {
            0
        } else if speed > cap {
            cap
        } else {
            speed
        }
    } else if speed < -cap {
        -cap
    } else if speed > 0 {
        0
    } else {
        speed
    }
}

/// Numerator of a slide's position over `UNIT * span^3`: the cubic curve that leaves `p0` with
/// speed `v0` and arrives at `p1` at rest, after `elapsed` of `span` microseconds.
pub open spec fn glide_numerator(p0: int, p1: int, v0: int, span: int, elapsed: int) -> int {
    p0 * (UNIT * (span * span * span)) + (p1 - p0) * (UNIT * (elapsed * elapsed * (3 * span - 2
        * elapsed))) + v0 * (span / 1000) * (elapsed * ((span - elapsed) * (span - elapsed)))
}

/// Position on that curve, to the nearest pixel.
pub open spec fn glide(p0: int, p1: int, v0: int, span: int, elapsed: int) -> int {
    fixed::nearest(
        glide_numerator(p0, p1, v0, span, elapsed),
        UNIT * (span * span * span),
    )
}

/// Whether a starting speed points towards the target and is slow enough not to pass it.
pub open spec fn speed_is_safe(delta: int, span_millis: int, speed: int) -> bool {
    &&& delta == 0 ==> speed == 0
    &&& delta > 0 ==> 0 <= speed * span_millis <= 3 * delta * UNIT
    &&& delta < 0 ==> 3 * delta * UNIT <= speed * span_millis <= 0
}

proof fn lemma_kept_speed_is_safe(delta: int, span: int, speed: int)
    requires
        span > 0,
    ensures
        speed_is_safe(delta, span, speed_towards(delta, span, speed)),
{
    let kept = speed_towards(delta, span, speed);
    if delta != 0 {
        let scaled = 3 * (if delta > 0 {
            delta
        } else {
            -delta
        }) * UNIT;
        let cap = scaled / span;
        vstd::arithmetic::div_mod::lemma_fundamental_div_mod(scaled, span);
        vstd::arithmetic::div_mod::lemma_mod_bound(scaled, span);
        assert(cap >= 0) by (nonlinear_arith)
            requires
                cap == scaled / span,
                scaled >= 0,
                span > 0,
        ;
        assert(-scaled <= kept * span <= scaled) by (nonlinear_arith)
            requires
                span * cap <= scaled,
                -cap <= kept <= cap,
                span > 0,
        ;
        if delta > 0 {
            assert(kept * span >= 0) by (nonlinear_arith)
                requires
                    kept >= 0,
                    span > 0,
            ;
        } else {
            assert(kept * span <= 0) by (nonlinear_arith)
                requires
                    kept <= 0,
                    span > 0,
            ;
        }
    }
}

/// A speed that points towards the target and cannot pass it is kept as it is; one that points
/// away is dropped.
pub proof fn law_safe_speed_is_kept(delta: int, span: int, speed: int)
    requires
        span > 0,
    ensures
        speed_is_safe(delta, span, speed) ==> speed_towards(delta, span, speed) == speed,
        delta > 0 && speed <= 0 ==> speed_towards(delta, span, speed) == 0,
        delta < 0 && speed >= 0 ==> speed_towards(delta, span, speed) == 0,
{
    let scaled = 3 * fixed::magnitude(delta) * UNIT;
    let cap = scaled / span;
    vstd::arithmetic::div_mod::lemma_fundamental_div_mod(scaled, span);
    vstd::arithmetic::div_mod::lemma_mod_bound(scaled, span);
    assert(cap >= 0) by (nonlinear_arith)
        requires
            cap == scaled / span,
            scaled >= 0,
            span > 0,
    ;
    if delta != 0 && speed_is_safe(delta, span, speed) {
        let pace = fixed::magnitude(speed);
        assert(pace * span <= scaled) by {
            if delta > 0 {
                assert(speed >= 0) by (nonlinear_arith)
                    requires
                        0 <= speed * span,
                        span > 0,
                ;
            } else {
                assert(speed <= 0) by (nonlinear_arith)
                    requires
                        speed * span <= 0,
                        span > 0,
                ;
                assert((-speed) * span == -(speed * span)) by (nonlinear_arith);
            }
        }
        assert(pace <= cap) by (nonlinear_arith)
            requires
                pace * span <= scaled,
                scaled < span * cap + span,
                span > 0,
        ;
        assert(delta > 0 ==> speed >= 0) by (nonlinear_arith)
            requires
                delta > 0 ==> 0 <= speed * span,
                span > 0,
        ;
        assert(delta < 0 ==> speed <= 0) by (nonlinear_arith)
            requires
                delta < 0 ==> speed * span <= 0,
                span > 0,
        ;
    }
}

/// The slide starts at the speed of the hand: what it covers in its first moments is that speed
/// times the time, up to a part that shrinks with the square of the time.
pub proof fn law_slide_starts_at_the_release_speed(
    p0: int,
    p1: int,
    v0: int,
    span: int,
    elapsed: int,
)
    requires
        0 <= elapsed <= span,
        speed_is_safe(p1 - p0, span / 1000, v0),
    ensures
        fixed::magnitude(
            glide_numerator(p0, p1, v0, span, elapsed) - p0 * (UNIT * (span * span * span)) - v0 * (
            span / 1000) * (elapsed * (span * span)),
        ) <= 3 * span * fixed::magnitude(p1 - p0) * UNIT * (elapsed * elapsed),
{
    let u = UNIT as int;
    let (d, e) = (span, elapsed);
    let delta = p1 - p0;
    let v = v0 * (span / 1000);
    let square = e * e;
    let pull = delta * u * (3 * d - 2 * e) - v * (2 * d - e);
    assert(v * (e * ((d - e) * (d - e))) == v * (e * (d * d)) - v * (2 * d - e) * square)
        by (nonlinear_arith)
        requires
            square == e * e,
    ;
    assert(delta * (u * (e * e * (3 * d - 2 * e))) == delta * u * (3 * d - 2 * e) * square)
        by (nonlinear_arith)
        requires
            square == e * e,
    ;
    assert(pull * square == delta * u * (3 * d - 2 * e) * square - v * (2 * d - e) * square)
        by (nonlinear_arith)
        requires
            pull == delta * u * (3 * d - 2 * e) - v * (2 * d - e),
    ;
    let most = 3 * d * fixed::magnitude(delta) * u;
    if delta >= 0 {
        assert(0 <= v <= 3 * (delta * u)) by {
            assert(delta == 0 ==> v == 0) by (nonlinear_arith)
                requires
                    delta == 0 ==> v0 == 0,
                    v == v0 * (span / 1000),
            ;
            assert(3 * delta * u == 3 * (delta * u)) by (nonlinear_arith);
        }
        lemma_pull_is_bounded(delta * u, v, d, e);
        assert(3 * d * delta * u == 3 * d * (delta * u)) by (nonlinear_arith);
    } else {
        assert(3 * delta * u == -(3 * ((-delta) * u))) by (nonlinear_arith);
        lemma_pull_is_bounded((-delta) * u, -v, d, e);
        assert((-delta) * u * (3 * d - 2 * e) - (-v) * (2 * d - e) == -pull) by (nonlinear_arith)
            requires
                pull == delta * u * (3 * d - 2 * e) - v * (2 * d - e),
        ;
        assert(3 * d * (-delta) * u == 3 * d * ((-delta) * u)) by (nonlinear_arith);
    }
    assert(-(most * square) <= pull * square <= most * square) by (nonlinear_arith)
        requires
            -most <= pull <= most,
            square == e * e,
    ;
}

proof fn lemma_pull_is_bounded(k: int, v: int, d: int, e: int)
    requires
        0 <= e <= d,
        0 <= v <= 3 * k,
    ensures
        -(3 * d * k) <= k * (3 * d - 2 * e) - v * (2 * d - e) <= 3 * d * k,
{
    assert(k * (3 * d - 2 * e) <= 3 * d * k) by (nonlinear_arith)
        requires
            k >= 0,
            e >= 0,
    ;
    assert(0 <= v * (2 * d - e) <= 3 * k * (2 * d - e)) by (nonlinear_arith)
        requires
            0 <= v <= 3 * k,
            0 <= e <= d,
    ;
    assert(k * (3 * d - 2 * e) - 3 * k * (2 * d - e) == k * e - 3 * d * k) by (nonlinear_arith);
    assert(k * e >= 0) by (nonlinear_arith)
        requires
            k >= 0,
            e >= 0,
    ;
}

/// How far along its way the curve is: between the start and the target.
proof fn lemma_glide_numerator_range(p0: int, p1: int, v0: int, span: int, elapsed: int)
    requires
        span > 0,
        0 <= elapsed <= span,
        speed_is_safe(p1 - p0, span / 1000, v0),
    ensures
        ({
            let whole = UNIT * (span * span * span);
            let n = glide_numerator(p0, p1, v0, span, elapsed);
            &&& whole > 0
            &&& p0 <= p1 ==> p0 * whole <= n <= p1 * whole
            &&& p1 <= p0 ==> p1 * whole <= n <= p0 * whole
            &&& elapsed == 0 ==> n == p0 * whole
            &&& elapsed == span ==> n == p1 * whole
        }),
{
    let u = UNIT as int;
    let (d, e) = (span, elapsed);
    let delta = p1 - p0;
    let cube = d * d * d;
    let a = e * e * (3 * d - 2 * e);
    let b = e * ((d - e) * (d - e));
    let v = v0 * (span / 1000);
    lemma_cubic_weights(d, e);
    let whole = u * cube;
    assert(whole > 0) by (nonlinear_arith)
        requires
            whole == u * cube,
            cube > 0,
            u > 0,
    ;
    assert(p1 * whole == p0 * whole + delta * whole) by (nonlinear_arith)
        requires
            delta == p1 - p0,
    ;
    let x = delta * (u * a) + v * b;
    assert(glide_numerator(p0, p1, v0, span, elapsed) == p0 * whole + x) by {
        assert(v0 * (span / 1000) * b == v * b);
    }
    if delta == 0 {
        assert(v == 0) by (nonlinear_arith)
            requires
                v == v0 * (span / 1000),
                v0 == 0,
        ;
        assert(x == 0) by (nonlinear_arith)
            requires
                x == delta * (u * a) + v * b,
                delta == 0,
                v == 0,
        ;
        assert(delta * whole == 0) by (nonlinear_arith)
            requires
                delta == 0,
        ;
    } else if delta > 0 {
        lemma_glide_bound(delta, u, a, b, v, cube);
    } else {
        lemma_glide_bound(-delta, u, a, b, -v, cube);
        assert((-delta) * (u * a) + (-v) * b == -x) by (nonlinear_arith)
            requires
                x == delta * (u * a) + v * b,
        ;
        assert((-delta) * (u * cube) == -(delta * whole)) by (nonlinear_arith)
            requires
                whole == u * cube,
        ;
    }
    if e == 0 {
        assert(x == 0) by (nonlinear_arith)
            requires
                x == delta * (u * a) + v * b,
                a == 0,
                b == 0,
        ;
    }
    if e == d {
        assert(x == delta * whole) by (nonlinear_arith)
            requires
                x == delta * (u * a) + v * b,
                a == cube,
                b == 0,
                whole == u * cube,
        ;
    }
}

proof fn lemma_cubic_weights(d: int, e: int)
    requires
        d > 0,
        0 <= e <= d,
    ensures
        ({
            let cube = d * d * d;
            let a = e * e * (3 * d - 2 * e);
            let b = e * ((d - e) * (d - e));
            &&& cube > 0
            &&& 0 <= a <= cube
            &&& 0 <= b <= cube
            &&& a + 3 * b <= cube
            &&& e == 0 ==> a == 0 && b == 0
            &&& e == d ==> a == cube && b == 0
        }),
{
    let cube = d * d * d;
    let a = e * e * (3 * d - 2 * e);
    let r = d - e;
    let b = e * (r * r);
    assert(d * d > 0) by (nonlinear_arith)
        requires
            d > 0,
    ;
    assert(cube > 0) by (nonlinear_arith)
        requires
            cube == d * d * d,
            d * d > 0,
            d > 0,
    ;
    assert(e * e >= 0) by (nonlinear_arith);
    assert(r * r >= 0) by (nonlinear_arith);
    assert(a >= 0) by (nonlinear_arith)
        requires
            a == e * e * (3 * d - 2 * e),
            e * e >= 0,
            3 * d - 2 * e >= 0,
    ;
    assert(b >= 0) by (nonlinear_arith)
        requires
            b == e * (r * r),
            r * r >= 0,
            e >= 0,
    ;
    let rest = r * r * r;
    assert(rest >= 0) by (nonlinear_arith)
        requires
            rest == r * r * r,
            r * r >= 0,
            r >= 0,
    ;
    // a + 3 b = d^3 - (d - e)^3
    assert(a + 3 * b == cube - rest) by (nonlinear_arith)
        requires
            a == e * e * (3 * d - 2 * e),
            b == e * (r * r),
            rest == r * r * r,
            cube == d * d * d,
            r == d - e,
    ;
    if e == 0 {
        assert(a == 0 && b == 0) by (nonlinear_arith)
            requires
                a == e * e * (3 * d - 2 * e),
                b == e * (r * r),
                e == 0,
        ;
    }
    if e == d {
        assert(a == cube && b == 0) by (nonlinear_arith)
            requires
                a == e * e * (3 * d - 2 * e),
                b == e * (r * r),
                e == d,
                r == 0,
                cube == d * d * d,
        ;
    }
}

proof fn lemma_glide_bound(delta: int, u: int, a: int, b: int, v: int, cube: int)
    requires
        delta > 0,
        u > 0,
        a >= 0,
        b >= 0,
        a + 3 * b <= cube,
        0 <= v <= 3 * delta * u,
    ensures
        0 <= delta * (u * a) + v * b <= delta * (u * cube),
{
    assert(0 <= v * b <= 3 * delta * u * b) by (nonlinear_arith)
        requires
            0 <= v <= 3 * delta * u,
            b >= 0,
    ;
    let k = delta * u;
    assert(k > 0) by (nonlinear_arith)
        requires
            k == delta * u,
            delta > 0,
            u > 0,
    ;
    assert(delta * (u * a) == k * a) by (nonlinear_arith)
        requires
            k == delta * u,
    ;
    assert(delta * (u * cube) == k * cube) by (nonlinear_arith)
        requires
            k == delta * u,
    ;
    assert(3 * delta * u * b == k * (3 * b)) by (nonlinear_arith)
        requires
            k == delta * u,
    ;
    assert(k * a >= 0) by (nonlinear_arith)
        requires
            k > 0,
            a >= 0,
    ;
    assert(k * a + k * (3 * b) <= k * cube) by (nonlinear_arith)
        requires
            k > 0,
            a + 3 * b <= cube,
    ;
}

fn glide_to(p0: i32, p1: i32, v0: i128, span: u64, elapsed: u64) -> (at: i32)
    requires
        100_000 <= span <= 350_000,
        elapsed <= span,
        speed_is_safe(p1 - p0, span as int / 1000, v0 as int),
    ensures
        at == glide(p0 as int, p1 as int, v0 as int, span as int, elapsed as int),
{
    let (d, e) = (span as i128, elapsed as i128);
    let ghost cube = d * d * d;
    let ghost a = e * e * (3 * d - 2 * e);
    let ghost b = e * ((d - e) * (d - e));
    let ghost v = v0 * (span as int / 1000);
    let ghost delta = p1 - p0;
    proof {
        lemma_cubic_weights(d as int, e as int);
        lemma_glide_numerator_range(p0 as int, p1 as int, v0 as int, span as int, elapsed as int);
        if delta == 0 {
            assert(v == 0) by (nonlinear_arith)
                requires
                    v == v0 * (span as int / 1000),
                    v0 == 0,
            ;
        }
        lemma_glide_sizes(p0 as int, delta, v, d as int, e as int);
        let n = glide_numerator(p0 as int, p1 as int, v0 as int, span as int, elapsed as int);
        let whole = UNIT * cube;
        fixed::law_nearest_of_a_multiple(p0 as int, whole);
        fixed::law_nearest_of_a_multiple(p1 as int, whole);
        if p0 <= p1 {
            fixed::law_nearest_is_monotonic(p0 * whole, n, whole);
            fixed::law_nearest_is_monotonic(n, p1 * whole, whole);
        } else {
            fixed::law_nearest_is_monotonic(p1 * whole, n, whole);
            fixed::law_nearest_is_monotonic(n, p0 * whole, whole);
        }
    }
    let square: i128 = d * d;
    let whole: i128 = 1_000_000_000 * (square * d);
    let e_square: i128 = e * e;
    let weight_target: i128 = 1_000_000_000 * (e_square * (3 * d - 2 * e));
    let rest: i128 = d - e;
    let rest_square: i128 = rest * rest;
    let weight_speed: i128 = e * rest_square;
    let push: i128 = v0 * (span / 1000) as i128;
    let start_part: i128 = p0 as i128 * whole;
    let target_part: i128 = (p1 as i128 - p0 as i128) * weight_target;
    let speed_part: i128 = push * weight_speed;
    round_div(start_part + target_part + speed_part, whole) as i32
}

proof fn lemma_glide_sizes(p0: int, delta: int, v: int, d: int, e: int)
    requires
        100_000 <= d <= 350_000,
        0 <= e <= d,
        -0x8000_0000 <= p0 < 0x8000_0000,
        -0x1_0000_0000 <= delta <= 0x1_0000_0000,
        -3 * 0x1_0000_0000 * 1_000_000_000 <= v <= 3 * 0x1_0000_0000 * 1_000_000_000,
    ensures
        0 <= d * d <= 122_500_000_000,
        0 < d * d * d <= 42_875_000_000_000_000,
        0 <= e * e <= 122_500_000_000,
        0 <= e * e * (3 * d - 2 * e) <= 42_875_000_000_000_000,
        0 <= (d - e) * (d - e) <= 122_500_000_000,
        0 <= e * ((d - e) * (d - e)) <= 42_875_000_000_000_000,
        -0x8000_0000 * 42_875_000_000_000_000_000_000_000 <= p0 * (UNIT * (d * d * d))
            <= 0x8000_0000 * 42_875_000_000_000_000_000_000_000,
        -0x1_0000_0000 * 42_875_000_000_000_000_000_000_000 <= delta * (UNIT * (e * e * (3 * d - 2
            * e))) <= 0x1_0000_0000 * 42_875_000_000_000_000_000_000_000,
        -3 * 0x1_0000_0000 * 1_000_000_000 * 42_875_000_000_000_000 <= v * (e * ((d - e) * (d
            - e))) <= 3 * 0x1_0000_0000 * 1_000_000_000 * 42_875_000_000_000_000,
{
    lemma_cubic_weights(d, e);
    assert(0 <= d * d <= 122_500_000_000) by (nonlinear_arith)
        requires
            0 <= d <= 350_000,
    ;
    let square = d * d;
    assert(square * d <= 42_875_000_000_000_000) by (nonlinear_arith)
        requires
            0 <= square <= 122_500_000_000,
            0 <= d <= 350_000,
    ;
    assert(0 <= e * e <= 122_500_000_000) by (nonlinear_arith)
        requires
            0 <= e <= 350_000,
    ;
    let r = d - e;
    assert(0 <= r * r <= 122_500_000_000) by (nonlinear_arith)
        requires
            0 <= r <= 350_000,
    ;
    let whole = UNIT * (d * d * d);
    let most: int = 42_875_000_000_000_000_000_000_000;
    assert(-0x8000_0000 * most <= p0 * whole <= 0x8000_0000 * most) by (nonlinear_arith)
        requires
            -0x8000_0000 <= p0 < 0x8000_0000,
            0 <= whole <= most,
    ;
    let wa = UNIT * (e * e * (3 * d - 2 * e));
    assert(-0x1_0000_0000 * most <= delta * wa <= 0x1_0000_0000 * most) by (nonlinear_arith)
        requires
            -0x1_0000_0000 <= delta <= 0x1_0000_0000,
            0 <= wa <= most,
    ;
    let b = e * ((d - e) * (d - e));
    let top: int = 42_875_000_000_000_000;
    let vmax: int = 12_884_901_888_000_000_000;
    assert(-vmax * top <= v * b <= vmax * top) by (nonlinear_arith)
        requires
            -vmax <= v <= vmax,
            0 <= b <= top,
    ;
}

/// The ball sliding to its place at the edge after the hand lets go.
#[derive(Clone, Copy, Debug, PartialEq, Eq, Structural)]
pub struct SnapAnimation {
    pub started_at: Instant,
    pub duration: Duration,
    pub from: Point,
    pub to: Point,
    pub velocity: Velocity,
}

#[derive(Clone, Copy, Debug, PartialEq, Eq, Structural)]
pub struct SnapSample {
    pub destination: Point,
    pub finished: bool,
}

impl SnapAnimation {
    /// Milliseconds that the slide lasts.
    pub open spec fn millis(self) -> int {
        self.duration.nanos as int / 1_000_000
    }

    pub open spec fn well_formed(self) -> bool {
        &&& self.duration.nanos == self.millis() * 1_000_000
        &&& MIN_SLIDE_MILLIS <= self.millis() <= MAX_SLIDE_MILLIS
        &&& speed_is_safe(self.to.x - self.from.x, self.millis(), self.velocity.x as int)
        &&& speed_is_safe(self.to.y - self.from.y, self.millis(), self.velocity.y as int)
    }

    pub fn new(from: Point, to: Point, velocity: Velocity, now: Instant) -> (snap: SnapAnimation)
        ensures
            snap.well_formed(),
            snap.started_at == now,
            snap.from == from,
            snap.to == to,
            is_slide_millis(from, to, snap.millis()),
            snap.velocity.x == speed_towards(to.x - from.x, snap.millis(), velocity.x as int),
            snap.velocity.y == speed_towards(to.y - from.y, snap.millis(), velocity.y as int),
    {
        let duration = duration_for(from, to);
        let span: i128 = duration.as_millis() as i128;
        let x: i128 = keep_towards(to.x as i64 - from.x as i64, span, velocity.x);
        let y: i128 = keep_towards(to.y as i64 - from.y as i64, span, velocity.y);
        proof {
            lemma_kept_speed_is_safe(to.x - from.x, span as int, velocity.x as int);
            lemma_kept_speed_is_safe(to.y - from.y, span as int, velocity.y as int);
        }
        SnapAnimation { started_at: now, duration, from, to, velocity: Velocity { x, y } }
    }

    /// Whether there is no way to slide.
    pub fn is_noop(self) -> (noop: bool)
        ensures
            noop == (self.from == self.to),
    {
        self.from == self.to
    }

    /// Where the slide ends, also when it is cut short.
    pub fn destination(self) -> (to: Point)
        ensures
            to == self.to,
    {
        self.to
    }

    /// Microseconds that have run, no more than the slide lasts.
    pub open spec fn elapsed_micros(self, now: Instant) -> int {
        if now.since(self.started_at) >= self.duration.nanos {
            self.millis() * 1000
        } else {
            now.since(self.started_at) as int / 1000
        }
    }

    pub open spec fn at(self, now: Instant) -> SnapSample {
        SnapSample {
            destination: Point {
                x: glide(
                    self.from.x as int,
                    self.to.x as int,
                    self.velocity.x as int,
                    self.millis() * 1000,
                    self.elapsed_micros(now),
                ) as i32,
                y: glide(
                    self.from.y as int,
                    self.to.y as int,
                    self.velocity.y as int,
                    self.millis() * 1000,
                    self.elapsed_micros(now),
                ) as i32,
            },
            finished: now.since(self.started_at) >= self.duration.nanos,
        }
    }

    pub fn sample(self, now: Instant) -> (sample: SnapSample)
        requires
            self.well_formed(),
        ensures
            sample == self.at(now),
    {
        let elapsed = now.saturating_duration_since(self.started_at);
        let span: u64 = (self.duration.nanos / 1000) as u64;
        let finished = elapsed.nanos >= self.duration.nanos;
        let micros: u64 = if finished {
            span
        } else {
            (elapsed.nanos / 1000) as u64
        };
        proof {
            let millis = self.millis();
            assert(self.duration.nanos == millis * 1_000_000);
            assert(span == millis * 1000);
            assert(span as int / 1000 == millis);
            assert(micros <= span);
            assert(micros == self.elapsed_micros(now));
        }
        SnapSample {
            destination: Point {
                x: glide_to(self.from.x, self.to.x, self.velocity.x, span, micros),
                y: glide_to(self.from.y, self.to.y, self.velocity.y, span, micros),
            },
            finished,
        }
    }

    /// The slide starts where the hand let go, never leaves the way between there and its
    /// target (so it neither backs off nor shoots past the edge), and ends on the target.
    pub proof fn law_slide_never_overshoots(self, now: Instant)
        requires
            self.well_formed(),
        ensures
            self.from.x <= self.to.x ==> self.from.x <= self.at(now).destination.x <= self.to.x,
            self.to.x <= self.from.x ==> self.to.x <= self.at(now).destination.x <= self.from.x,
            self.from.y <= self.to.y ==> self.from.y <= self.at(now).destination.y <= self.to.y,
            self.to.y <= self.from.y ==> self.to.y <= self.at(now).destination.y <= self.from.y,
            now == self.started_at ==> self.at(now) == (SnapSample {
                destination: self.from,
                finished: false,
            }),
            now.since(self.started_at) >= self.duration.nanos ==> self.at(now) == (SnapSample {
                destination: self.to,
                finished: true,
            }),
    {
        let (span, e) = (self.millis() * 1000, self.elapsed_micros(now));
        lemma_glide_range(self.from.x as int, self.to.x as int, self.velocity.x as int, span, e);
        lemma_glide_range(self.from.y as int, self.to.y as int, self.velocity.y as int, span, e);
    }

    /// The slide never turns back: at a later time the ball is at least as near to its target,
    /// whatever speed the hand had.
    pub proof fn law_slide_never_turns_back(self, earlier: Instant, later: Instant)
        requires
            self.well_formed(),
            earlier.nanos <= later.nanos,
        ensures
            self.from.x <= self.to.x ==> self.at(earlier).destination.x <= self.at(
                later,
            ).destination.x,
            self.to.x <= self.from.x ==> self.at(later).destination.x <= self.at(
                earlier,
            ).destination.x,
            self.from.y <= self.to.y ==> self.at(earlier).destination.y <= self.at(
                later,
            ).destination.y,
            self.to.y <= self.from.y ==> self.at(later).destination.y <= self.at(
                earlier,
            ).destination.y,
            self.at(earlier).finished ==> self.at(later).finished,
    {
        self.law_slide_never_overshoots(earlier);
        self.law_slide_never_overshoots(later);
        let span = self.millis() * 1000;
        let (e, f) = (self.elapsed_micros(earlier), self.elapsed_micros(later));
        let (x0, x1, vx) = (self.from.x as int, self.to.x as int, self.velocity.x as int);
        let (y0, y1, vy) = (self.from.y as int, self.to.y as int, self.velocity.y as int);
        lemma_glide_advances(x0, x1, vx, span, e, f);
        lemma_glide_advances(y0, y1, vy, span, e, f);
        lemma_glide_range(x0, x1, vx, span, e);
        lemma_glide_range(x0, x1, vx, span, f);
        lemma_glide_range(y0, y1, vy, span, e);
        lemma_glide_range(y0, y1, vy, span, f);
    }
}

/// The two cubics that a slide is made of grow with time.
proof fn lemma_weights_grow(d: int, e: int, f: int)
    requires
        0 <= e <= f <= d,
    ensures
        e * e * (3 * d - 2 * e) <= f * f * (3 * d - 2 * f),
        e * e * (3 * d - 2 * e) + 3 * (e * ((d - e) * (d - e))) <= f * f * (3 * d - 2 * f) + 3 * (f
            * ((d - f) * (d - f))),
{
    assert(f * f * (3 * d - 2 * f) - e * e * (3 * d - 2 * e) == (f - e) * (3 * d * (f + e) - 2 * (f
        * f + f * e + e * e))) by (nonlinear_arith);
    let rest = 3 * d * (f + e) - 2 * (f * f + f * e + e * e);
    assert(rest >= 0) by (nonlinear_arith)
        requires
            rest == 3 * d * (f + e) - 2 * (f * f + f * e + e * e),
            0 <= e <= f <= d,
    ;
    assert((f - e) * rest >= 0) by (nonlinear_arith)
        requires
            f - e >= 0,
            rest >= 0,
    ;
    let (x, y) = (d - e, d - f);
    assert(e * e * (3 * d - 2 * e) + 3 * (e * (x * x)) == d * d * d - x * x * x)
        by (nonlinear_arith)
        requires
            x == d - e,
    ;
    assert(f * f * (3 * d - 2 * f) + 3 * (f * (y * y)) == d * d * d - y * y * y)
        by (nonlinear_arith)
        requires
            y == d - f,
    ;
    assert(y * y * y <= x * x * x) by (nonlinear_arith)
        requires
            0 <= y <= x,
    ;
}

/// Between its two extremes, a safe speed keeps the slide going forward.
proof fn lemma_glide_grows(delta: int, u: int, a: int, b: int, c: int, d: int, v: int)
    requires
        delta > 0,
        u > 0,
        0 <= v <= 3 * delta * u,
        a <= c,
        a + 3 * b <= c + 3 * d,
    ensures
        delta * (u * a) + v * b <= delta * (u * c) + v * d,
{
    let k = delta * u;
    assert(k > 0) by (nonlinear_arith)
        requires
            k == delta * u,
            delta > 0,
            u > 0,
    ;
    assert(delta * (u * a) == k * a && delta * (u * c) == k * c) by (nonlinear_arith)
        requires
            k == delta * u,
    ;
    assert(0 <= v <= 3 * k) by (nonlinear_arith)
        requires
            k == delta * u,
            0 <= v <= 3 * delta * u,
    ;
    assert(k * a + v * b <= k * c + v * d) by (nonlinear_arith)
        requires
            k > 0,
            0 <= v <= 3 * k,
            a <= c,
            a + 3 * b <= c + 3 * d,
    {
        if d >= b {
            assert(v * (d - b) >= 0);
            assert(k * (c - a) >= 0);
        } else {
            assert((3 * k - v) * (b - d) >= 0);
            assert(k * (c + 3 * d - a - 3 * b) >= 0);
        }
    }
}

proof fn lemma_glide_advances(p0: int, p1: int, v0: int, span: int, e: int, f: int)
    requires
        span > 0,
        0 <= e <= f <= span,
        speed_is_safe(p1 - p0, span / 1000, v0),
    ensures
        p0 <= p1 ==> glide(p0, p1, v0, span, e) <= glide(p0, p1, v0, span, f),
        p1 <= p0 ==> glide(p0, p1, v0, span, f) <= glide(p0, p1, v0, span, e),
{
    let u = UNIT as int;
    let delta = p1 - p0;
    let v = v0 * (span / 1000);
    let (a, b) = (e * e * (3 * span - 2 * e), e * ((span - e) * (span - e)));
    let (c, d) = (f * f * (3 * span - 2 * f), f * ((span - f) * (span - f)));
    lemma_glide_numerator_range(p0, p1, v0, span, e);
    lemma_weights_grow(span, e, f);
    let whole = u * (span * span * span);
    let (early, late) = (delta * (u * a) + v * b, delta * (u * c) + v * d);
    assert(glide_numerator(p0, p1, v0, span, e) == p0 * whole + early);
    assert(glide_numerator(p0, p1, v0, span, f) == p0 * whole + late);
    if delta > 0 {
        lemma_glide_grows(delta, u, a, b, c, d, v);
        fixed::law_nearest_is_monotonic(p0 * whole + early, p0 * whole + late, whole);
    } else if delta < 0 {
        lemma_glide_grows(-delta, u, a, b, c, d, -v);
        assert((-delta) * (u * a) + (-v) * b == -early && (-delta) * (u * c) + (-v) * d == -late)
            by (nonlinear_arith)
            requires
                early == delta * (u * a) + v * b,
                late == delta * (u * c) + v * d,
        ;
        fixed::law_nearest_is_monotonic(p0 * whole + late, p0 * whole + early, whole);
    } else {
        assert(early == 0 && late == 0) by (nonlinear_arith)
            requires
                early == delta * (u * a) + v * b,
                late == delta * (u * c) + v * d,
                delta == 0,
                v == v0 * (span / 1000),
                v0 == 0,
        ;
    }
}

proof fn lemma_glide_range(p0: int, p1: int, v0: int, span: int, elapsed: int)
    requires
        span > 0,
        0 <= elapsed <= span,
        speed_is_safe(p1 - p0, span / 1000, v0),
    ensures
        p0 <= p1 ==> p0 <= glide(p0, p1, v0, span, elapsed) <= p1,
        p1 <= p0 ==> p1 <= glide(p0, p1, v0, span, elapsed) <= p0,
        elapsed == 0 ==> glide(p0, p1, v0, span, elapsed) == p0,
        elapsed == span ==> glide(p0, p1, v0, span, elapsed) == p1,
{
    lemma_glide_numerator_range(p0, p1, v0, span, elapsed);
    let n = glide_numerator(p0, p1, v0, span, elapsed);
    let whole = UNIT * (span * span * span);
    fixed::law_nearest_of_a_multiple(p0, whole);
    fixed::law_nearest_of_a_multiple(p1, whole);
    if p0 <= p1 {
        fixed::law_nearest_is_monotonic(p0 * whole, n, whole);
        fixed::law_nearest_is_monotonic(n, p1 * whole, whole);
    } else {
        fixed::law_nearest_is_monotonic(p1 * whole, n, whole);
        fixed::law_nearest_is_monotonic(n, p0 * whole, whole);
    }
}

/// A first look at the cursor, or one at the same instant, tells nothing of its speed. Any other
/// moves the speed by thirty-five hundredths of the way to the one that was measured, which is the
/// distance over the time. Every look is remembered as the last.
pub proof fn law_speed_follows_the_cursor(drag: &mut DragVelocity, cursor: Point, now: Instant)
    requires
        old(drag).well_formed(),
        call_ensures(DragVelocity::sample, (drag, cursor, now), ()),
    ensures
        final(drag).last == Some((cursor, now)),
        old(drag).last is None ==> final(drag).velocity == old(drag).velocity,
        old(drag).last is Some ==> ({
            let (last, at) = old(drag).last->0;
            let elapsed = now.nanos - at.nanos;
            &&& elapsed <= 0 ==> final(drag).velocity == old(drag).velocity
            &&& elapsed > 0 ==> is_smoothed(
                old(drag).velocity.x,
                final(drag).velocity.x,
                cursor.x - last.x,
                elapsed,
            ) && is_smoothed(
                old(drag).velocity.y,
                final(drag).velocity.y,
                cursor.y - last.y,
                elapsed,
            )
        }),
{
    if old(drag).last is Some {
        let (last, at) = old(drag).last->0;
        let elapsed = now.nanos - at.nanos;
        if elapsed > 0 {
            lemma_smoothing_is_close(old(drag).velocity.x as int, cursor.x - last.x, elapsed);
            lemma_smoothing_is_close(old(drag).velocity.y as int, cursor.y - last.y, elapsed);
        }
    }
}

/// A speed was moved thirty-five hundredths of the way to that of a move by `distance` pixels
/// within `elapsed` nanoseconds, in billionths of a pixel per millisecond.
pub open spec fn is_smoothed(before: i128, after: i128, distance: int, elapsed: int) -> bool {
    exists|measured: int| #[trigger]
        is_speed_of(measured, distance, elapsed) && -100 <= 2 * (after * 100 - (before * 65
            + measured * 35)) <= 100
}

pub open spec fn is_speed_of(speed: int, distance: int, elapsed: int) -> bool {
    -elapsed <= 2 * (speed * elapsed - distance * 1_000_000_000_000_000) <= elapsed
}

proof fn lemma_smoothing_is_close(before: int, distance: int, elapsed: int)
    requires
        elapsed > 0,
        -4_294_967_296 <= distance <= 4_294_967_296,
        -SPEED_LIMIT <= before <= SPEED_LIMIT,
    ensures
        is_speed_of(measured_speed(distance, elapsed), distance, elapsed),
        ({
            let measured = measured_speed(distance, elapsed);
            let after = smoothed_speed(before, measured);
            &&& -SPEED_LIMIT <= after <= SPEED_LIMIT
            &&& -100 <= 2 * (after * 100 - (before * 65 + measured * 35)) <= 100
        }),
{
    let measured = measured_speed(distance, elapsed);
    fixed::law_nearest_is_within_half_a_step(distance * 1_000_000_000_000_000, elapsed);
    fixed::law_nearest_is_within_half_a_step(before * 65 + measured * 35, 100);
    lemma_measured_speed_is_bounded(distance, elapsed);
    lemma_smoothed_speed_is_bounded(before, measured);
}

/// A hand that has moved within the last eighty milliseconds lets go with its speed, any other
/// without.
pub proof fn law_a_resting_hand_has_no_speed(drag: &DragVelocity, now: Instant, velocity: Velocity)
    requires
        drag.well_formed(),
        call_ensures(DragVelocity::release_velocity, (drag, now), velocity),
    ensures
        drag.last is Some && now.nanos - (drag.last->0).1.nanos < 80_000_000 ==> velocity
            == drag.velocity,
        drag.last is None || now.nanos - (drag.last->0).1.nanos >= 80_000_000 ==> velocity.x == 0
            && velocity.y == 0,
{
}

/// A slide takes a tenth of a second and three tenths of a millisecond for each pixel of its way,
/// to the nearest millisecond, but no more than 350 milliseconds.
pub proof fn law_slides_take_their_time(from: Point, to: Point, duration: Duration)
    requires
        call_ensures(duration_for, (from, to), duration),
    ensures
        takes(from, to, duration),
{
}

/// How long a slide takes, without a square root: the time on top of the first tenth of a second,
/// in tenths of a millisecond, is within five of three times the distance.
pub open spec fn takes(from: Point, to: Point, duration: Duration) -> bool {
    let dx = to.x - from.x;
    let dy = to.y - from.y;
    let millis = duration.nanos as int / 1_000_000;
    let extra = 10 * (millis - 100);
    &&& duration.nanos == millis * 1_000_000
    &&& 100 <= millis <= 350
    &&& millis > 100 ==> (extra - 5) * (extra - 5) <= 9 * (dx * dx + dy * dy)
    &&& millis < 350 ==> (extra + 5) * (extra + 5) > 9 * (dx * dx + dy * dy)
}

/// A slide starts with the hand's speed along each axis, as far as that leads to the target and does
/// not pass it: a speed away from it is dropped, and one that would pass it is cut down to the
/// fastest that does not.
pub proof fn law_slides_keep_the_hands_speed(
    from: Point,
    to: Point,
    velocity: Velocity,
    now: Instant,
    snap: SnapAnimation,
)
    requires
        call_ensures(SnapAnimation::new, (from, to, velocity, now), snap),
    ensures
        snap.started_at == now,
        snap.from == from,
        snap.to == to,
        takes(from, to, snap.duration),
        is_kept_towards(
            to.x - from.x,
            snap.duration.nanos as int / 1_000_000,
            velocity.x as int,
            snap.velocity.x as int,
        ),
        is_kept_towards(
            to.y - from.y,
            snap.duration.nanos as int / 1_000_000,
            velocity.y as int,
            snap.velocity.y as int,
        ),
{
    lemma_kept_towards(to.x - from.x, snap.millis(), velocity.x as int);
    lemma_kept_towards(to.y - from.y, snap.millis(), velocity.y as int);
}

/// What is kept of a speed on a way of `delta` pixels within `span` milliseconds.
pub open spec fn is_kept_towards(delta: int, span: int, speed: int, kept: int) -> bool {
    let reach = 3 * delta * 1_000_000_000;
    &&& delta == 0 ==> kept == 0
    &&& delta > 0 && speed <= 0 ==> kept == 0
    &&& delta < 0 && speed >= 0 ==> kept == 0
    &&& delta > 0 && 0 <= speed && speed * span <= reach ==> kept == speed
    &&& delta < 0 && speed <= 0 && speed * span >= reach ==> kept == speed
    &&& delta > 0 && speed * span > reach ==> kept * span <= reach < (kept + 1) * span
    &&& delta < 0 && speed * span < reach ==> (kept - 1) * span < reach <= kept * span
}

pub proof fn lemma_kept_towards(delta: int, span: int, speed: int)
    requires
        span > 0,
    ensures
        is_kept_towards(delta, span, speed, speed_towards(delta, span, speed)),
{
    law_safe_speed_is_kept(delta, span, speed);
    let size = fixed::magnitude(delta);
    let scaled = 3 * size * UNIT;
    let cap = scaled / span;
    vstd::arithmetic::div_mod::lemma_fundamental_div_mod(scaled, span);
    vstd::arithmetic::div_mod::lemma_mod_bound(scaled, span);
    assert(cap >= 0) by (nonlinear_arith)
        requires
            cap == scaled / span,
            scaled >= 0,
            span > 0,
    ;
    assert(span * cap == cap * span) by (nonlinear_arith);
    assert((cap + 1) * span == cap * span + span) by (nonlinear_arith);
    assert((-cap) * span == -(cap * span)) by (nonlinear_arith);
    assert((-cap - 1) * span == -(cap * span) - span) by (nonlinear_arith);
    if delta > 0 && speed * span > scaled {
        assert(speed > cap) by (nonlinear_arith)
            requires
                speed * span > scaled,
                cap * span <= scaled,
                span > 0,
        ;
    }
    if delta < 0 && speed * span < -scaled {
        assert(speed < -cap) by (nonlinear_arith)
            requires
                speed * span < -scaled,
                cap * span <= scaled,
                span > 0,
        ;
    }
    if delta > 0 && 0 <= speed {
        assert(0 <= speed * span) by (nonlinear_arith)
            requires
                0 <= speed,
                span > 0,
        ;
    }
    if delta < 0 && speed <= 0 {
        assert(speed * span <= 0) by (nonlinear_arith)
            requires
                speed <= 0,
                span > 0,
        ;
    }
}

/// A slide follows the cubic curve that leaves with its speed and arrives at rest: at `e` of `s`
/// microseconds it has covered the share `e e (3 s - 2 e) / s s s` of its way, and what its speed
/// adds on top, to the nearest pixel. It is over exactly when its time is up.
pub proof fn law_slides_follow_a_cubic_curve(snap: SnapAnimation, now: Instant, sample: SnapSample)
    requires
        snap.well_formed(),
        call_ensures(SnapAnimation::sample, (snap, now), sample),
        snap.started_at.nanos <= now.nanos,
    ensures
        sample.finished <==> now.nanos - snap.started_at.nanos >= snap.duration.nanos,
        sample.finished ==> sample.destination == snap.to,
        !sample.finished ==> ({
            let s = snap.duration.nanos as int / 1_000;
            let e = (now.nanos - snap.started_at.nanos) / 1_000;
            &&& is_on_curve(snap.from.x, snap.to.x, snap.velocity.x, s, e, sample.destination.x)
            &&& is_on_curve(snap.from.y, snap.to.y, snap.velocity.y, s, e, sample.destination.y)
        }),
{
    snap.law_slide_never_overshoots(now);
    let s = snap.millis() * 1000;
    let e = snap.elapsed_micros(now);
    assert(s == snap.duration.nanos as int / 1_000);
    let d = 1_000_000_000 * (s * s * s);
    assert(d > 0) by (nonlinear_arith)
        requires
            s > 0,
            d == 1_000_000_000 * (s * s * s),
    ;
    let nx = glide_numerator(snap.from.x as int, snap.to.x as int, snap.velocity.x as int, s, e);
    let ny = glide_numerator(snap.from.y as int, snap.to.y as int, snap.velocity.y as int, s, e);
    fixed::law_nearest_is_within_half_a_step(nx, d);
    fixed::law_nearest_is_within_half_a_step(ny, d);
    lemma_glide_range(snap.from.x as int, snap.to.x as int, snap.velocity.x as int, s, e);
    lemma_glide_range(snap.from.y as int, snap.to.y as int, snap.velocity.y as int, s, e);
}

/// The nearest pixel to the curve from `p0` to `p1` at `e` of `s` microseconds.
pub open spec fn is_on_curve(p0: i32, p1: i32, v0: i128, s: int, e: int, at: i32) -> bool {
    let d = 1_000_000_000 * (s * s * s);
    let way = (p1 - p0) * (1_000_000_000 * (e * e * (3 * s - 2 * e)));
    let swing = v0 * (s / 1_000) * (e * ((s - e) * (s - e)));
    -d <= 2 * (at * d - (p0 * d + way + swing)) <= d
}

/// A reset look-out has seen nothing, and a slide without a way to go is none.
pub proof fn law_resting_things_do_not_slide(
    drag: &mut DragVelocity,
    snap: SnapAnimation,
    noop: bool,
    to: Point,
)
    requires
        call_ensures(DragVelocity::reset, (drag,), ()),
        call_ensures(SnapAnimation::is_noop, (snap,), noop),
        call_ensures(SnapAnimation::destination, (snap,), to),
    ensures
        final(drag).last is None,
        final(drag).velocity.x == 0 && final(drag).velocity.y == 0,
        noop <==> snap.from.x == snap.to.x && snap.from.y == snap.to.y,
        to == snap.to,
{
}

} // verus!
