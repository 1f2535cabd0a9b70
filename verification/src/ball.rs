//! What the ball shows: ring, number and indeterminate arc, and how the panel grows out of it.
use vstd::prelude::*;

use crate::clipboard::pixel_bytes;
use crate::clipboard;
use crate::fixed;
use crate::fixed::{clamp_i64, round_div, DIP, UNIT};
use crate::layout;
use crate::layout::{lerp, BALL_RADIUS_DIP, PANEL_CORNER_DIP};
use crate::panel;
use crate::panel::{brush_for, Area, Brush};
use crate::presentation;
use crate::presentation::{ball_is_pulling, ball_quota};
use crate::quota::{AppState, QuotaColor, QuotaPull};
use crate::ring::{PointerState, RingState};
use crate::text;
use crate::text::push_rounded;
use crate::time::{Duration, Instant, SystemTime};

verus! {

/// Radius and stroke of the quota ring.
pub const RING_RADIUS_DIP: i64 = 23_000_000;

pub const RING_STROKE_DIP: i64 = 3_000_000;

/// Radius and stroke of the indeterminate arc, inside the quota ring.
pub const SPIN_RADIUS_DIP: i64 = 19_000_000;

pub const SPIN_STROKE_DIP: i64 = 2_000_000;

/// A pressed ball is this much smaller, in percent.
pub const PRESS_SCALE_PERCENT: i128 = 6;

/// Half of the space that the number takes.
pub const LABEL_HALF_WIDTH_DIP: i64 = 24_000_000;

pub const LABEL_HALF_HEIGHT_DIP: i64 = 13_000_000;

/// Corner radius of the shape that the ball becomes when it starts to expand.
pub const BALL_CORNER_DIP: i64 = 28_000_000;

/// The indeterminate arc lies inside the quota ring, and the ring inside the ball, with no
/// overlap.
pub proof fn law_rings_are_nested()
    ensures
        2 * SPIN_RADIUS_DIP + SPIN_STROKE_DIP <= 2 * RING_RADIUS_DIP - RING_STROKE_DIP,
        2 * RING_RADIUS_DIP + RING_STROKE_DIP <= 2 * BALL_RADIUS_DIP,
{
}

/// `length` scaled by a share.
pub open spec fn scaled(length: int, share: int) -> int {
    fixed::nearest(length * share, UNIT as int)
}

fn scale(length: i64, share: i64) -> (value: i64)
    requires
        0 <= length <= 1_000_000_000,
        0 <= share <= UNIT,
    ensures
        value == scaled(length as int, share as int),
        0 <= value <= length,
{
    proof {
        let u = UNIT as int;
        assert(0 <= length * share <= length * u) by (nonlinear_arith)
            requires
                length >= 0,
                0 <= share <= u,
        ;
        assert(length * share <= 1_000_000_000 * 1_000_000_000) by (nonlinear_arith)
            requires
                0 <= length <= 1_000_000_000,
                0 <= share <= 1_000_000_000,
        ;
        fixed::law_nearest_of_a_multiple(0, u);
        fixed::law_nearest_of_a_multiple(length as int, u);
        fixed::law_nearest_is_monotonic(0, length * share, u);
        fixed::law_nearest_is_monotonic(length * share, length * u, u);
    }
    let product: i128 = length as i128 * share as i128;
    round_div(product, UNIT as i128) as i64
}

/// Size of the ball while it is pressed with this strength.
pub open spec fn pressed_scale(press: int) -> int {
    UNIT - fixed::nearest(press * PRESS_SCALE_PERCENT, 100)
}

pub fn ball_scale(press: i64) -> (share: i64)
    requires
        0 <= press <= UNIT,
    ensures
        share == pressed_scale(press as int),
        0 <= share <= UNIT,
{
    proof {
        fixed::law_nearest_is_monotonic(0, press * 6, 100);
        fixed::law_nearest_is_monotonic(press * 6, 60_000_000 * 100int, 100);
        fixed::law_nearest_of_a_multiple(0, 100);
        fixed::law_nearest_of_a_multiple(60_000_000, 100);
    }
    UNIT - round_div(press as i128 * PRESS_SCALE_PERCENT, 100) as i64
}

/// How an arc of the ring is drawn.
#[derive(Clone, Copy, Debug, PartialEq, Eq, Structural)]
pub enum ArcShape {
    FullCircle,
    Large,
    Small,
}

/// An arc of 99.9 % and more closes the circle; one of more than half a turn goes the long way
/// round.
pub fn arc_shape(sweep: i64) -> (shape: ArcShape)
    ensures
        shape == (if sweep >= 999_000_000 {
            ArcShape::FullCircle
        } else if sweep > 500_000_000 {
            ArcShape::Large
        } else {
            ArcShape::Small
        }),
{
    if sweep >= 999_000_000 {
        ArcShape::FullCircle
    } else if sweep > 500_000_000 {
        ArcShape::Large
    } else {
        ArcShape::Small
    }
}

/// The quota arc: its share of the circle, and its colour.
#[derive(Clone, Copy, Debug, PartialEq, Eq, Structural)]
pub struct QuotaArc {
    pub share: i64,
    pub brush: Brush,
}

/// One frame of the ball.
#[derive(Debug)]
pub struct BallDrawing {
    pub label: String,
    pub opacity: i64,
    pub ring_radius: i64,
    /// Opacity of the neutral track and, over it, of the brighter one under the cursor.
    pub track_opacity: i64,
    pub track_hover_opacity: i64,
    /// Phase of the pulse, if it runs; it dims the arc, or the track where there is no arc.
    pub pulse: Option<Duration>,
    pub arc: Option<QuotaArc>,
    /// Where the indeterminate arc starts, if there is one, and its radius.
    pub spinner: Option<i64>,
    pub spin_radius: i64,
}

/// Whether the pulse dims the track: it does where there is no arc to dim.
pub fn pulse_dims_track(arc: Option<QuotaArc>) -> (dims: bool)
    ensures
        dims == (arc is None),
{
    arc.is_none()
}

/// The share that the ring is to show: none for nothing left, and for not known.
pub open spec fn ring_target(remaining: int) -> Option<i64> {
    if remaining > 0 {
        Some((remaining * 10) as i64)
    } else {
        None
    }
}

/// The ring once it has learned what the ball is to show. A manual refresh, which clears the
/// ball, lets the next value sweep in again.
pub open spec fn ring_for(
    ring: RingState,
    state: &AppState,
    now: Instant,
    wall: SystemTime,
) -> RingState {
    let told = if state.quota_pull == QuotaPull::Forced {
        RingState { sweep_pending: true, ..ring }
    } else {
        ring
    };
    told.retargeted(ring_target(presentation::ball_reading(state, wall).1), now)
}

/// The arc to draw: none of no length.
pub open spec fn visible_arc(share: Option<i64>) -> Option<i64> {
    if share is Some && share->0 > 0 {
        share
    } else {
        None
    }
}

/// Little, but something, is left.
pub open spec fn is_low(reading: (Seq<char>, int, QuotaColor)) -> bool {
    reading.2 == QuotaColor::Critical && reading.1 > 0
}

/// The number in the middle: rolling along with the arc, and the exact reading once it rests.
pub open spec fn ball_label(
    ring: RingState,
    reading: (Seq<char>, int, QuotaColor),
    now: Instant,
) -> Seq<char> {
    if visible_arc(ring.arc_at(now)) is Some && ring.label_at(now) is Some {
        text::rounded_text(ring.label_at(now)->0 as int, 10_000_000)
    } else {
        reading.0
    }
}

/// Composes one frame of the ball and moves the ring on to it.
pub fn draw_ball_content(
    ring: &mut RingState,
    state: &AppState,
    opacity: i64,
    size: i64,
    hover: i64,
    now: Instant,
    wall: SystemTime,
) -> (drawing: BallDrawing)
    requires
        old(ring).well_formed(),
        0 <= size <= UNIT,
    ensures
        final(ring).well_formed(),
        ({
            let reading = presentation::ball_reading(state, wall);
            let told = ring_for(*old(ring), state, now, wall);
            let arc = visible_arc(told.arc_at(now));
            let low = is_low(reading);
            let spins = presentation::pulling(state.quota_pull, state.status, reading.2);
            let kept = fixed::clamped(opacity as int, 0, UNIT as int);
            let lit = fixed::clamped(hover as int, 0, UNIT as int);
            &&& *final(ring) == told.settled(now).pulsed(now, low).spun(now, spins)
            &&& drawing.label@ == ball_label(told, reading, now)
            &&& drawing.opacity == kept
            &&& drawing.ring_radius == scaled(RING_RADIUS_DIP as int, size as int)
            &&& drawing.spin_radius == scaled(SPIN_RADIUS_DIP as int, size as int)
            &&& drawing.track_opacity == scaled(kept, UNIT - lit)
            &&& drawing.track_hover_opacity == scaled(kept, lit)
            &&& drawing.arc == (match arc {
                Some(share) => Some(QuotaArc { share, brush: panel::quota_brush(reading.2) }),
                None => None,
            })
            &&& drawing.pulse is Some <==> low && told.enabled
            &&& drawing.pulse is Some ==> drawing.pulse->0.nanos == told.pulse_nanos(now)
            &&& drawing.spinner is Some <==> spins && told.enabled
            &&& drawing.spinner is Some ==> drawing.spinner->0 == told.spin_nanos(now) * UNIT / (
            crate::motion::SPIN_PERIOD_MILLIS * 1_000_000)
        }),
{
    let kept: i64 = clamp_i64(opacity, 0, UNIT);
    let lit: i64 = clamp_i64(hover, 0, UNIT);
    let (reading, remaining, color) = ball_quota(state, wall);
    if state.quota_pull == QuotaPull::Forced {
        ring.expect_resweep();
    }
    let target: Option<i64> = if remaining > 0 {
        Some(remaining * 10)
    } else {
        None
    };
    ring.retarget(target, now);
    let ghost told = *ring;
    let arc = match ring.fraction(now) {
        Some(share) => if share > 0 {
            Some(share)
        } else {
            None
        },
        None => None,
    };
    let rolling = ring.label_fraction(now);
    let label = match (arc, rolling) {
        (Some(_), Some(share)) => {
            let mut shown = String::new();
            push_rounded(&mut shown, share, 10_000_000);
            assert(shown@ =~= text::rounded_text(share as int, 10_000_000));
            shown
        },
        _ => reading,
    };
    let low = color == QuotaColor::Critical && remaining > 0;
    let pulse = ring.pulse_phase(now, low);
    let spins = ball_is_pulling(state, color);
    let spinner = ring.spin_phase(now, spins);
    BallDrawing {
        label,
        opacity: kept,
        ring_radius: scale(RING_RADIUS_DIP, size),
        track_opacity: scale(kept, UNIT - lit),
        track_hover_opacity: scale(kept, lit),
        pulse,
        arc: match arc {
            Some(share) => Some(QuotaArc { share, brush: brush_for(color) }),
            None => None,
        },
        spinner,
        spin_radius: scale(SPIN_RADIUS_DIP, size),
    }
}

/// A ball whose reading is unknown or zero paints no quota arc once the ring has learned it,
/// and such a ball never pulses.
pub proof fn law_nothing_left_paints_no_arc(
    ring: RingState,
    state: &AppState,
    now: Instant,
    wall: SystemTime,
)
    requires
        presentation::ball_reading(state, wall).1 == 0,
        ring.well_formed(),
    ensures
        visible_arc(ring_for(ring, state, now, wall).arc_at(now)) is None,
        !is_low(presentation::ball_reading(state, wall)),
{
}

/// One frame of the collapsed ball, with the pointer's effect on it.
#[derive(Debug)]
pub struct BallFrame {
    /// Radius of the background, and how strongly the brighter one covers it.
    pub background_radius: i64,
    pub background_hover_opacity: i64,
    pub content: BallDrawing,
}

/// Composes one frame of the collapsed ball, and moves the ring and the ball's answer to the
/// pointer on to it.
pub fn draw_ball(
    ring: &mut RingState,
    pointer: &mut PointerState,
    state: &AppState,
    hovered: bool,
    pressed: bool,
    now: Instant,
    wall: SystemTime,
) -> (frame: BallFrame)
    requires
        old(ring).well_formed(),
        old(pointer).well_formed(),
    ensures
        final(ring).well_formed(),
        final(pointer).well_formed(),
        ({
            let aimed = old(pointer).aimed(hovered, pressed, now);
            let hover = aimed.hover.value_at(now);
            let press = aimed.press.value_at(now);
            let size = pressed_scale(press as int);
            let reading = presentation::ball_reading(state, wall);
            let told = ring_for(*old(ring), state, now, wall);
            &&& *final(pointer) == aimed.sampled(now)
            &&& frame.background_radius == scaled(BALL_RADIUS_DIP as int, size)
            &&& frame.background_hover_opacity == hover
            &&& frame.content.label@ == ball_label(told, reading, now)
            &&& frame.content.opacity == UNIT
            &&& frame.content.ring_radius == scaled(RING_RADIUS_DIP as int, size)
            &&& frame.content.spin_radius == scaled(SPIN_RADIUS_DIP as int, size)
            &&& frame.content.track_opacity == scaled(UNIT as int, UNIT - hover)
            &&& frame.content.track_hover_opacity == scaled(UNIT as int, hover as int)
            &&& frame.content.arc == (match visible_arc(told.arc_at(now)) {
                Some(share) => Some(QuotaArc { share, brush: panel::quota_brush(reading.2) }),
                None => None,
            })
            &&& frame.content.pulse is Some <==> is_low(reading) && told.enabled
            &&& frame.content.pulse is Some ==> frame.content.pulse->0.nanos == told.pulse_nanos(
                now,
            )
            &&& frame.content.spinner is Some <==> presentation::pulling(
                state.quota_pull,
                state.status,
                reading.2,
            ) && told.enabled
            &&& frame.content.spinner is Some ==> frame.content.spinner->0 == told.spin_nanos(now)
                * UNIT / (crate::motion::SPIN_PERIOD_MILLIS * 1_000_000)
            &&& *final(ring) == told.settled(now).pulsed(now, is_low(reading)).spun(
                now,
                presentation::pulling(state.quota_pull, state.status, reading.2),
            )
        }),
{
    pointer.set_targets(hovered, pressed, now);
    let (hover, press) = pointer.sample(now);
    let size: i64 = ball_scale(press);
    let content = draw_ball_content(ring, state, UNIT, size, hover, now, wall);
    BallFrame {
        background_radius: scale(BALL_RADIUS_DIP, size),
        background_hover_opacity: hover,
        content,
    }
}

/// What a frame between ball and panel consists of.
#[derive(Clone, Copy, Debug, PartialEq, Eq, Structural)]
pub struct TransitionPlan {
    pub corner_radius: i64,
    pub draws_ball: bool,
    pub draws_panel: bool,
}

/// Plans a frame of the transition: the corners go from the ball's to the panel's, and content
/// that cannot be seen is not drawn.
pub fn draw_transition(expansion: i64, ball_opacity: i64, panel_opacity: i64) -> (plan:
    TransitionPlan)
    ensures
        plan.corner_radius == layout::between(
            BALL_CORNER_DIP as int,
            PANEL_CORNER_DIP as int,
            expansion as int,
        ),
        plan.draws_ball == (ball_opacity > 0),
        plan.draws_panel == (panel_opacity > 0),
{
    TransitionPlan {
        corner_radius: lerp(BALL_CORNER_DIP, PANEL_CORNER_DIP, expansion),
        draws_ball: ball_opacity > 0,
        draws_panel: panel_opacity > 0,
    }
}

/// The background is drawn half a pixel inside its bounds, to keep its edge crisp.
pub fn inset_background(bounds: Area) -> (inset: Area)
    requires
        bounds.left <= i64::MAX - DIP,
        bounds.top <= i64::MAX - DIP,
        bounds.right >= i64::MIN + DIP,
        bounds.bottom >= i64::MIN + DIP,
    ensures
        inset.left == bounds.left + DIP / 2,
        inset.top == bounds.top + DIP / 2,
        inset.right == bounds.right - DIP / 2,
        inset.bottom == bounds.bottom - DIP / 2,
{
    Area {
        left: bounds.left + DIP / 2,
        top: bounds.top + DIP / 2,
        right: bounds.right - DIP / 2,
        bottom: bounds.bottom - DIP / 2,
    }
}

/// What has to be made anew before drawing at another size or resolution.
#[derive(Clone, Copy, Debug, PartialEq, Eq, Structural)]
pub struct ResizePlan {
    pub new_surface: bool,
    pub new_device_resources: bool,
}

pub fn resize_plan(
    current: (i32, i32, u32),
    width: i32,
    height: i32,
    dpi: u32,
) -> (plan: ResizePlan)
    ensures
        plan.new_surface == (current.0 != width || current.1 != height),
        plan.new_device_resources == (current.2 != dpi),
{
    ResizePlan {
        new_surface: current.0 != width || current.1 != height,
        new_device_resources: current.2 != dpi,
    }
}

/// Bytes of a drawing surface; none for a size that makes no sense.
pub fn surface_bytes(width: i32, height: i32) -> (bytes: usize)
    ensures
        bytes == (match clipboard::size_in_bytes(width as int, height as int) {
            Some(size) => size,
            None => 0,
        }),
{
    match pixel_bytes(width, height) {
        Some(size) => size,
        None => 0,
    }
}

/// A ball pressed with full strength is six hundredths smaller, and in between in proportion.
pub proof fn law_a_press_shrinks_the_ball_by_six_hundredths(press: i64, share: i64)
    requires
        0 <= press <= 1_000_000_000,
        call_ensures(ball_scale, (press,), share),
    ensures
        -100 <= 2 * ((1_000_000_000 - share) * 100 - press * 6) <= 100,
        press == 0 ==> share == 1_000_000_000,
        press == 1_000_000_000 ==> share == 940_000_000,
{
    fixed::law_nearest_is_within_half_a_step(press * 6, 100);
    fixed::law_nearest_of_a_multiple(0, 100);
    fixed::law_nearest_of_a_multiple(60_000_000, 100);
}

/// An arc closes the circle from 99.9 % on, and goes the long way round from half a turn on.
pub proof fn law_arcs_take_their_shape(
    sweep: i64,
    shape: ArcShape,
    arc: Option<QuotaArc>,
    dims: bool,
)
    requires
        call_ensures(arc_shape, (sweep,), shape),
        call_ensures(pulse_dims_track, (arc,), dims),
    ensures
        shape is FullCircle <==> sweep >= 999_000_000,
        shape is Small <==> sweep <= 500_000_000,
        shape is Large <==> 500_000_000 < sweep < 999_000_000,
        dims <==> arc is None,
{
}

/// The arc is the share that the ring shows once it has learned ten million times the percentage
/// left, in the colour of the reading; there is none of no length. The number rolls along with the
/// arc, and at rest is the reading itself.
#[verifier::spinoff_prover]
#[verifier::rlimit(40)]
pub proof fn law_the_ball_shows_the_ring(
    ring: &mut RingState,
    state: &AppState,
    opacity: i64,
    size: i64,
    hover: i64,
    now: Instant,
    wall: SystemTime,
    drawing: BallDrawing,
    reading: (String, i64, QuotaColor),
    brush: Brush,
    told: &mut RingState,
    target: Option<i64>,
    shown: &mut RingState,
    arc: Option<i64>,
    labelled: &mut RingState,
    label: Option<i64>,
)
    requires
        old(ring).well_formed(),
        0 <= size <= 1_000_000_000,
        call_ensures(
            draw_ball_content,
            (ring, state, opacity, size, hover, now, wall),
            drawing,
        ),
        call_ensures(ball_quota, (state, wall), reading),
        call_ensures(brush_for, (reading.2,), brush),
        *old(told) == (RingState {
            sweep_pending: old(ring).sweep_pending || state.quota_pull is Forced,
            ..*old(ring)
        }),
        reading.1 > 0 ==> target == Some((reading.1 * 10) as i64),
        reading.1 <= 0 ==> target is None,
        call_ensures(RingState::retarget, (told, target, now), ()),
        *old(shown) == *final(told),
        call_ensures(RingState::fraction, (shown, now), arc),
        *old(labelled) == *final(told),
        call_ensures(RingState::label_fraction, (labelled, now), label),
    ensures
        drawing.arc is Some <==> arc is Some && arc->0 > 0,
        drawing.arc is Some ==> drawing.arc->0.share == arc->0 && drawing.arc->0.brush == brush,
        drawing.arc is None || label is None ==> drawing.label@ == reading.0@,
        drawing.arc is Some && label is Some && label->0 >= 0 ==> {
            let percent = text::value_of(drawing.label@);
            -10_000_000 <= 2 * (percent * 10_000_000 - label->0) <= 10_000_000
        },
        final(ring).target == target,
{
    assert(*old(told) == (if state.quota_pull == QuotaPull::Forced {
        RingState { sweep_pending: true, ..*old(ring) }
    } else {
        *old(ring)
    }));
    assert(reading.1 == presentation::ball_reading(state, wall).1);
    assert(target == ring_target(presentation::ball_reading(state, wall).1));
    assert(*final(told) == ring_for(*old(ring), state, now, wall));
    if label is Some && label->0 >= 0 {
        text::law_decimal_reads_back(text::nearest_even(label->0 as nat, 10_000_000));
    }
}

/// The ball pulses while little but something is left, and the indeterminate arc turns while the
/// quota is being fetched; neither does where nothing may move.
pub proof fn law_the_ball_pulses_while_little_is_left(
    ring: &mut RingState,
    state: &AppState,
    opacity: i64,
    size: i64,
    hover: i64,
    now: Instant,
    wall: SystemTime,
    drawing: BallDrawing,
    reading: (String, i64, QuotaColor),
    spins: bool,
)
    requires
        old(ring).well_formed(),
        0 <= size <= 1_000_000_000,
        call_ensures(
            draw_ball_content,
            (ring, state, opacity, size, hover, now, wall),
            drawing,
        ),
        call_ensures(ball_quota, (state, wall), reading),
        call_ensures(ball_is_pulling, (state, reading.2), spins),
    ensures
        drawing.pulse is Some <==> old(ring).enabled && reading.2 is Critical && reading.1 > 0,
        drawing.spinner is Some <==> old(ring).enabled && spins,
        drawing.pulse is Some ==> drawing.pulse->0.nanos < 1_400_000_000,
        drawing.spinner is Some ==> 0 <= drawing.spinner->0 < 1_000_000_000,
        final(ring).pulsing == (drawing.pulse is Some),
        final(ring).spinning == (drawing.spinner is Some),
        final(ring).enabled == old(ring).enabled,
{
    let told = ring_for(*old(ring), state, now, wall);
    let n = told.spin_nanos(now) as int;
    assert(0 <= n < 1_600_000_000);
    assert(0 <= n * 1_000_000_000 / 1_600_000_000 < 1_000_000_000);
}

/// The rings shrink with the ball and the tracks share its opacity: the brighter one takes as much
/// of it as the pointer hovers, the neutral one the rest.
pub proof fn law_rings_and_tracks_keep_their_shares(
    ring: &mut RingState,
    state: &AppState,
    opacity: i64,
    size: i64,
    hover: i64,
    now: Instant,
    wall: SystemTime,
    drawing: BallDrawing,
)
    requires
        old(ring).well_formed(),
        0 <= size <= 1_000_000_000,
        0 <= opacity <= 1_000_000_000,
        0 <= hover <= 1_000_000_000,
        call_ensures(
            draw_ball_content,
            (ring, state, opacity, size, hover, now, wall),
            drawing,
        ),
    ensures
        drawing.opacity == opacity,
        is_share_of(drawing.ring_radius, 23_000_000, size),
        is_share_of(drawing.spin_radius, 19_000_000, size),
        is_share_of(drawing.track_hover_opacity, opacity, hover),
        is_share_of(drawing.track_opacity, opacity, (1_000_000_000 - hover) as i64),
{
    lemma_share(23_000_000, size as int);
    lemma_share(19_000_000, size as int);
    lemma_share(opacity as int, hover as int);
    lemma_share(opacity as int, 1_000_000_000 - hover);
}

/// The nearest number to `share` billionths of `length`.
pub open spec fn is_share_of(value: i64, length: i64, share: i64) -> bool {
    -1_000_000_000 <= 2 * (value * 1_000_000_000 - length * share) <= 1_000_000_000
}

proof fn lemma_share(length: int, share: int)
    ensures
        -1_000_000_000 <= 2 * (scaled(length, share) * 1_000_000_000 - length * share)
            <= 1_000_000_000,
{
    fixed::law_nearest_is_within_half_a_step(length * share, 1_000_000_000);
}

/// The collapsed ball is drawn with the strengths of the pointer: it brightens as the pointer
/// hovers, shrinks as it is pressed, and is otherwise drawn in full.
#[verifier::spinoff_prover]
#[verifier::rlimit(40)]
pub proof fn law_the_ball_answers_the_pointer(
    ring: &mut RingState,
    pointer: &mut PointerState,
    state: &AppState,
    hovered: bool,
    pressed: bool,
    now: Instant,
    wall: SystemTime,
    frame: BallFrame,
    aimed: &mut PointerState,
    sampled: &mut PointerState,
    strengths: (i64, i64),
    size: i64,
    drawn: &mut RingState,
    content: BallDrawing,
)
    requires
        old(ring).well_formed(),
        old(pointer).well_formed(),
        call_ensures(
            draw_ball,
            (ring, pointer, state, hovered, pressed, now, wall),
            frame,
        ),
        *old(aimed) == *old(pointer),
        call_ensures(PointerState::set_targets, (aimed, hovered, pressed, now), ()),
        *old(sampled) == *final(aimed),
        call_ensures(PointerState::sample, (sampled, now), strengths),
        call_ensures(ball_scale, (strengths.1,), size),
        *old(drawn) == *old(ring),
        call_ensures(
            draw_ball_content,
            (drawn, state, 1_000_000_000, size, strengths.0, now, wall),
            content,
        ),
    ensures
        *final(pointer) == *final(sampled),
        *final(ring) == *final(drawn),
        frame.background_hover_opacity == strengths.0,
        is_share_of(frame.background_radius, 27_000_000, size),
        frame.content.label@ == content.label@,
        frame.content.opacity == content.opacity,
        frame.content.ring_radius == content.ring_radius,
        frame.content.spin_radius == content.spin_radius,
        frame.content.track_opacity == content.track_opacity,
        frame.content.track_hover_opacity == content.track_hover_opacity,
        frame.content.arc == content.arc,
        frame.content.pulse is Some <==> content.pulse is Some,
        frame.content.pulse is Some ==> frame.content.pulse->0.nanos == content.pulse->0.nanos,
        frame.content.spinner is Some <==> content.spinner is Some,
        frame.content.spinner is Some ==> frame.content.spinner->0 == content.spinner->0,
{
    lemma_share(27_000_000, size as int);
}

/// Between ball and panel the corners go from 28 to 16 device-independent pixels, and content that
/// cannot be seen is not drawn.
pub proof fn law_transitions_draw_what_can_be_seen(
    expansion: i64,
    ball_opacity: i64,
    panel_opacity: i64,
    plan: TransitionPlan,
    corner: i64,
)
    requires
        call_ensures(draw_transition, (expansion, ball_opacity, panel_opacity), plan),
        call_ensures(lerp, (28_000_000, 16_000_000, expansion), corner),
    ensures
        plan.corner_radius == corner,
        plan.draws_ball <==> ball_opacity > 0,
        plan.draws_panel <==> panel_opacity > 0,
{
}

/// The background is one device-independent pixel narrower and lower than its bounds, and centred
/// in them.
pub proof fn law_the_background_is_centred(bounds: Area, inset: Area)
    requires
        call_ensures(inset_background, (bounds,), inset),
    ensures
        inset.left - bounds.left == bounds.right - inset.right,
        inset.top - bounds.top == bounds.bottom - inset.bottom,
        (inset.right - inset.left) + 1_000_000 == bounds.right - bounds.left,
        (inset.bottom - inset.top) + 1_000_000 == bounds.bottom - bounds.top,
{
}

/// A surface is made anew exactly for another size, and the device's resources for another
/// resolution; a surface has four bytes a pixel, and none of a size that makes no sense.
pub proof fn law_surfaces_follow_their_size(
    current: (i32, i32, u32),
    width: i32,
    height: i32,
    dpi: u32,
    plan: ResizePlan,
    size: usize,
)
    requires
        call_ensures(resize_plan, (current, width, height, dpi), plan),
        call_ensures(surface_bytes, (width, height), size),
    ensures
        !plan.new_surface <==> current.0 == width && current.1 == height,
        !plan.new_device_resources <==> current.2 == dpi,
        width >= 0 && height >= 0 && 4 * (width * height) <= usize::MAX ==> size == 4 * (width
            * height),
        width < 0 || height < 0 || 4 * (width * height) > usize::MAX ==> size == 0,
{
    if width >= 0 && height >= 0 {
        assert(width * height >= 0) by (nonlinear_arith)
            requires
                width >= 0,
                height >= 0,
        ;
    }
}

} // verus!
