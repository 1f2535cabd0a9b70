//! The ball in motion: the ring that follows the quota, and the ball's answer to the pointer.
use vstd::prelude::*;

use crate::fixed::UNIT;
use crate::motion;
use crate::motion::{
    phase_at, Tween, HOVER_TWEEN_MILLIS, PRESS_TWEEN_MILLIS, PULSE_PERIOD_MILLIS,
    RELEASE_TWEEN_MILLIS, RING_PULSE_FRAME_MILLIS, RING_SPIN_FRAME_MILLIS,
    RING_TWEEN_FRAME_MILLIS, SPIN_PERIOD_MILLIS,
};
use crate::time::{Duration, Instant, MAX_SPAN_NANOS};

verus! {

/// The ring around the ball: an arc and a number that move to each new value, a pulse while
/// little is left, and an indeterminate arc while the quota is being read.
#[derive(Clone, Copy, Debug, PartialEq, Eq, Structural)]
pub struct RingState {
    pub animation: Option<Tween>,
    pub label_animation: Option<Tween>,
    /// The share to show; none while it is unknown or zero, when there is no arc.
    pub target: Option<i64>,
    pub pulse_epoch: Instant,
    pub spin_epoch: Instant,
    /// Whether anything may move.
    pub enabled: bool,
    pub pulsing: bool,
    pub spinning: bool,
    /// The next known value sweeps in from zero.
    pub sweep_pending: bool,
}

/// A running tween can be sampled.
pub open spec fn can_sample(tween: Option<Tween>) -> bool {
    tween is Some ==> tween->0.duration.nanos <= MAX_SPAN_NANOS
}

/// Whether a tween is there and not over.
pub open spec fn is_running(tween: Option<Tween>, now: Instant) -> bool {
    tween is Some && !tween->0.at(now).finished
}

impl RingState {
    /// What moves, moves to the target; where there is none, nothing does.
    pub open spec fn well_formed(self) -> bool {
        &&& can_sample(self.animation)
        &&& can_sample(self.label_animation)
        &&& self.animation is Some ==> self.target == Some(self.animation->0.to)
        &&& self.label_animation is Some ==> self.target == Some(self.label_animation->0.to)
    }

    pub fn new(now: Instant) -> (ring: RingState)
        ensures
            ring == (RingState {
                animation: None,
                label_animation: None,
                target: None,
                pulse_epoch: now,
                spin_epoch: now,
                enabled: true,
                pulsing: false,
                spinning: false,
                sweep_pending: true,
            }),
            ring.well_formed(),
    {
        RingState {
            animation: None,
            label_animation: None,
            target: None,
            pulse_epoch: now,
            spin_epoch: now,
            enabled: true,
            pulsing: false,
            spinning: false,
            sweep_pending: true,
        }
    }

    /// Switching motion off drops whatever is under way, so that nothing freezes halfway.
    pub fn set_enabled(&mut self, enabled: bool)
        requires
            old(self).well_formed(),
        ensures
            final(self).well_formed(),
            *final(self) == (if enabled {
                RingState { enabled, ..*old(self) }
            } else {
                RingState {
                    enabled,
                    animation: None,
                    label_animation: None,
                    pulsing: false,
                    spinning: false,
                    ..*old(self)
                }
            }),
    {
        self.enabled = enabled;
        if !enabled {
            self.animation = None;
            self.label_animation = None;
            self.pulsing = false;
            self.spinning = false;
        }
    }

    /// The ball appears again: the next known value sweeps in from zero.
    pub fn expect_appearance(&mut self)
        ensures
            final(self).well_formed(),
            *final(self) == (RingState {
                animation: None,
                label_animation: None,
                target: None,
                sweep_pending: true,
                ..*old(self)
            }),
    {
        self.animation = None;
        self.label_animation = None;
        self.target = None;
        self.sweep_pending = true;
    }

    /// The next known value sweeps in from zero; the current one stays.
    pub fn expect_resweep(&mut self)
        requires
            old(self).well_formed(),
        ensures
            final(self).well_formed(),
            *final(self) == (RingState { sweep_pending: true, ..*old(self) }),
    {
        self.sweep_pending = true;
    }

    /// The share that the arc shows at `now`; none where there is no arc.
    pub open spec fn arc_at(self, now: Instant) -> Option<i64> {
        match self.animation {
            Some(tween) => Some(tween.at(now).fraction),
            None => self.target,
        }
    }

    /// The share that the number rolls through at `now`; none while it stands still.
    pub open spec fn label_at(self, now: Instant) -> Option<i64> {
        if is_running(self.label_animation, now) {
            Some(self.label_animation->0.at(now).fraction)
        } else {
            None
        }
    }

    /// The ring after the value became `target`. An unchanged value lets a running tween
    /// finish. The first value after an appearance sweeps in from zero, a changed one starts
    /// from what is shown right now, and a value that becomes unknown, or known again, jumps.
    pub open spec fn retargeted(self, target: Option<i64>, now: Instant) -> RingState {
        if self.target == target {
            self
        } else if !self.enabled {
            RingState { target, animation: None, label_animation: None, ..self }
        } else {
            match (self.arc_at(now), target) {
                (None, Some(to)) => if self.sweep_pending {
                    RingState {
                        target,
                        animation: Some(Tween::lasting(0, to, now, motion::SWEEP_MILLIS)),
                        label_animation: Some(
                            Tween::lasting(0, to, now, motion::LABEL_SWEEP_MILLIS),
                        ),
                        sweep_pending: false,
                        ..self
                    }
                } else {
                    RingState { target, animation: None, label_animation: None, ..self }
                },
                (Some(from), Some(to)) => RingState {
                    target,
                    animation: Some(Tween::lasting(from, to, now, motion::TWEEN_MILLIS)),
                    label_animation: match (self.label_at(now), self.target) {
                        (Some(shown), _) => Some(
                            Tween::lasting(shown, to, now, motion::LABEL_TWEEN_MILLIS),
                        ),
                        (None, Some(shown)) => Some(
                            Tween::lasting(shown, to, now, motion::LABEL_TWEEN_MILLIS),
                        ),
                        (None, None) => None,
                    },
                    ..self
                },
                _ => RingState { target, animation: None, label_animation: None, ..self },
            }
        }
    }

    pub fn retarget(&mut self, target: Option<i64>, now: Instant)
        requires
            old(self).well_formed(),
        ensures
            final(self).well_formed(),
            *final(self) == old(self).retargeted(target, now),
    {
        if self.target == target {
            return;
        }
        let arc_from = self.fraction(now);
        let label_from = match self.label_fraction(now) {
            Some(shown) => Some(shown),
            None => self.target,
        };
        self.target = target;
        self.animation = None;
        self.label_animation = None;
        if !self.enabled {
            return;
        }
        if let Some(to) = target {
            match arc_from {
                None => {
                    if self.sweep_pending {
                        self.sweep_pending = false;
                        self.animation = Some(Tween::sweep(to, now));
                        self.label_animation = Some(Tween::label_sweep(to, now));
                    }
                },
                Some(from) => {
                    self.animation = Some(Tween::new(from, to, now));
                    self.label_animation = match label_from {
                        Some(shown) => Some(Tween::label_tween(shown, to, now)),
                        None => None,
                    };
                },
            }
        }
    }

    /// The share that the arc shows; a tween that is over is dropped.
    pub fn fraction(&mut self, now: Instant) -> (share: Option<i64>)
        requires
            old(self).well_formed(),
        ensures
            final(self).well_formed(),
            share == old(self).arc_at(now),
            *final(self) == (RingState {
                animation: if is_running(old(self).animation, now) {
                    old(self).animation
                } else {
                    None
                },
                ..*old(self)
            }),
    {
        if let Some(tween) = self.animation {
            let sample = tween.sample(now);
            if sample.finished {
                self.animation = None;
            }
            return Some(sample.fraction);
        }
        self.target
    }

    /// The share that the number rolls through; a roll that is over is dropped.
    pub fn label_fraction(&mut self, now: Instant) -> (share: Option<i64>)
        requires
            old(self).well_formed(),
        ensures
            final(self).well_formed(),
            share == old(self).label_at(now),
            *final(self) == (RingState {
                label_animation: if is_running(old(self).label_animation, now) {
                    old(self).label_animation
                } else {
                    None
                },
                ..*old(self)
            }),
    {
        if let Some(tween) = self.label_animation {
            let sample = tween.sample(now);
            if sample.finished {
                self.label_animation = None;
                return None;
            }
            return Some(sample.fraction);
        }
        None
    }

    /// The ring without the tweens that are over.
    pub open spec fn settled(self, now: Instant) -> RingState {
        RingState {
            animation: if is_running(self.animation, now) {
                self.animation
            } else {
                None
            },
            label_animation: if is_running(self.label_animation, now) {
                self.label_animation
            } else {
                None
            },
            ..self
        }
    }

    /// The phase of the pulse at `now`, in nanoseconds.
    pub open spec fn pulse_nanos(self, now: Instant) -> nat {
        now.since(self.pulse_epoch) % ((PULSE_PERIOD_MILLIS * 1_000_000) as nat)
    }

    /// The ring after the pulse was asked for.
    pub open spec fn pulsed(self, now: Instant, wanted: bool) -> RingState {
        if wanted && self.enabled {
            RingState {
                pulsing: true,
                pulse_epoch: Instant { nanos: (now.nanos - self.pulse_nanos(now)) as u128 },
                ..self
            }
        } else {
            RingState { pulsing: false, ..self }
        }
    }

    /// How far the indeterminate arc has turned, in nanoseconds of its period.
    pub open spec fn spin_nanos(self, now: Instant) -> nat {
        now.since(self.spin_epoch) % ((SPIN_PERIOD_MILLIS * 1_000_000) as nat)
    }

    /// The ring after the indeterminate arc was asked for.
    pub open spec fn spun(self, now: Instant, wanted: bool) -> RingState {
        if wanted && self.enabled {
            RingState {
                spinning: true,
                spin_epoch: Instant { nanos: (now.nanos - self.spin_nanos(now)) as u128 },
                ..self
            }
        } else {
            RingState { spinning: false, ..self }
        }
    }

    /// The phase of the pulse, where there is one: while little, but something, is left.
    pub fn pulse_phase(&mut self, now: Instant, wanted: bool) -> (phase: Option<Duration>)
        requires
            old(self).well_formed(),
        ensures
            final(self).well_formed(),
            phase is Some <==> wanted && old(self).enabled,
            phase is Some ==> phase->0.nanos == old(self).pulse_nanos(now),
            *final(self) == old(self).pulsed(now, wanted),
    {
        self.pulsing = wanted && self.enabled;
        if !self.pulsing {
            return None;
        }
        let mut epoch = self.pulse_epoch;
        let phase = phase_at(&mut epoch, now, Duration::from_millis(PULSE_PERIOD_MILLIS));
        self.pulse_epoch = epoch;
        Some(phase)
    }

    /// Where the indeterminate arc starts, as a share of the turn; none where there is none.
    pub fn spin_phase(&mut self, now: Instant, wanted: bool) -> (share: Option<i64>)
        requires
            old(self).well_formed(),
        ensures
            final(self).well_formed(),
            share is Some <==> wanted && old(self).enabled,
            share is Some ==> 0 <= share->0 < UNIT && share->0 == old(self).spin_nanos(now) * UNIT / (
            SPIN_PERIOD_MILLIS * 1_000_000),
            *final(self) == old(self).spun(now, wanted),
    {
        self.spinning = wanted && self.enabled;
        if !self.spinning {
            return None;
        }
        let period = Duration::from_millis(SPIN_PERIOD_MILLIS);
        let mut epoch = self.spin_epoch;
        let phase = phase_at(&mut epoch, now, period);
        self.spin_epoch = epoch;
        assert(phase.nanos < period.nanos);
        let share: u128 = phase.nanos * 1_000_000_000 / period.nanos;
        proof {
            let (n, p) = (phase.nanos as int, period.nanos as int);
            assert(0 <= n * UNIT / p < UNIT) by (nonlinear_arith)
                requires
                    0 <= n < p,
                    UNIT == 1_000_000_000,
            ;
        }
        Some(share as i64)
    }

    /// How soon the next frame is due; none where nothing moves.
    pub open spec fn frame_due(self, now: Instant) -> Option<u32> {
        if !self.enabled {
            None
        } else if is_running(self.animation, now) || is_running(self.label_animation, now) {
            Some(RING_TWEEN_FRAME_MILLIS)
        } else if self.spinning {
            Some(RING_SPIN_FRAME_MILLIS)
        } else if self.pulsing {
            Some(RING_PULSE_FRAME_MILLIS)
        } else {
            None
        }
    }

    pub fn frame_interval(&self, now: Instant) -> (millis: Option<u32>)
        requires
            self.well_formed(),
        ensures
            millis == self.frame_due(now),
    {
        if !self.enabled {
            return None;
        }
        let arc_moves = match self.animation {
            Some(tween) => !tween.sample(now).finished,
            None => false,
        };
        let label_moves = match self.label_animation {
            Some(tween) => !tween.sample(now).finished,
            None => false,
        };
        if arc_moves || label_moves {
            Some(RING_TWEEN_FRAME_MILLIS)
        } else if self.spinning {
            Some(RING_SPIN_FRAME_MILLIS)
        } else if self.pulsing {
            Some(RING_PULSE_FRAME_MILLIS)
        } else {
            None
        }
    }
}

/// A new value never makes the arc jump: the moment after the change it stands where it stood.
pub proof fn law_retargeting_does_not_jump(ring: RingState, to: i64, now: Instant)
    requires
        ring.enabled,
        ring.arc_at(now) is Some,
        ring.target != Some(to),
    ensures
        ring.retargeted(Some(to), now).arc_at(now) == ring.arc_at(now),
{
    let tween = ring.retargeted(Some(to), now).animation->0;
    tween.law_tween_runs_from_old_to_new(now);
}

/// Whatever happened before, an arc that is left alone for as long as a sweep takes shows the
/// value it was given last, and needs no more frames for it.
pub proof fn law_arc_settles_on_its_target(
    ring: RingState,
    target: Option<i64>,
    now: Instant,
    later: Instant,
)
    requires
        ring.target != target,
        now.nanos + motion::SWEEP_MILLIS * 1_000_000 <= later.nanos,
    ensures
        ring.retargeted(target, now).arc_at(later) == target,
        ring.retargeted(target, now).label_at(later) is None,
        !is_running(ring.retargeted(target, now).animation, later),
{
    let after = ring.retargeted(target, now);
    if after.animation is Some {
        after.animation->0.law_tween_runs_from_old_to_new(later);
    }
    if after.label_animation is Some {
        after.label_animation->0.law_tween_runs_from_old_to_new(later);
    }
}

/// The number comes to rest before the arc that it accompanies.
pub proof fn law_number_rests_before_the_arc(ring: RingState, target: Option<i64>, now: Instant)
    requires
        ring.target != target,
    ensures
        ({
            let after = ring.retargeted(target, now);
            after.label_animation is Some ==> after.animation is Some
                && after.label_animation->0.duration.nanos < after.animation->0.duration.nanos
                && after.label_animation->0.started_at == after.animation->0.started_at
        }),
{
}

/// With motion switched off a new value shows at once.
pub proof fn law_without_motion_values_show_at_once(
    ring: RingState,
    target: Option<i64>,
    now: Instant,
)
    requires
        !ring.enabled,
        ring.target != target,
    ensures
        ring.retargeted(target, now).arc_at(now) == target,
        ring.retargeted(target, now).label_at(now) is None,
        ring.retargeted(target, now).frame_due(now) is None,
{
}

/// The strength of something that is either on or off, and moves between the two.
#[derive(Clone, Copy, Debug, PartialEq, Eq, Structural)]
pub struct BoolTween {
    pub target: bool,
    pub value: i64,
    pub tween: Option<Tween>,
}

/// Full strength or none.
pub open spec fn strength(on: bool) -> i64 {
    if on {
        UNIT
    } else {
        0
    }
}

fn strength_of(on: bool) -> (value: i64)
    ensures
        value == strength(on),
{
    if on {
        UNIT
    } else {
        0
    }
}

impl BoolTween {
    /// The strength is a share, a tween leads to the target, and without one the target is
    /// reached.
    pub open spec fn well_formed(self) -> bool {
        &&& 0 <= self.value <= UNIT
        &&& can_sample(self.tween)
        &&& self.tween is Some ==> self.tween->0.to == strength(self.target) && 0
            <= self.tween->0.from <= UNIT
        &&& self.tween is None ==> self.value == strength(self.target)
    }

    pub fn new() -> (tween: BoolTween)
        ensures
            tween == (BoolTween { target: false, value: 0, tween: None }),
            tween.well_formed(),
    {
        BoolTween { target: false, value: 0, tween: None }
    }

    /// After the target was set: an unchanged one changes nothing, a changed one is approached
    /// from the current strength, or reached at once where nothing may move.
    pub open spec fn with_target(
        self,
        target: bool,
        duration: Duration,
        enabled: bool,
        now: Instant,
    ) -> BoolTween {
        if target == self.target {
            self
        } else if enabled {
            BoolTween {
                target,
                value: self.value,
                tween: Some(
                    Tween { started_at: now, duration, from: self.value, to: strength(target) },
                ),
            }
        } else {
            BoolTween { target, value: strength(target), tween: None }
        }
    }

    pub fn set_target(&mut self, target: bool, duration: Duration, enabled: bool, now: Instant)
        requires
            old(self).well_formed(),
            duration.nanos <= MAX_SPAN_NANOS,
        ensures
            final(self).well_formed(),
            *final(self) == old(self).with_target(target, duration, enabled, now),
    {
        if target == self.target {
            return;
        }
        self.target = target;
        let to: i64 = strength_of(target);
        if enabled {
            self.tween = Some(Tween::timed(self.value, to, now, duration));
        } else {
            self.tween = None;
            self.value = to;
        }
    }

    /// Goes to the target at once.
    pub fn snap(&mut self)
        ensures
            final(self).well_formed(),
            *final(self) == (BoolTween {
                target: old(self).target,
                value: strength(old(self).target),
                tween: None,
            }),
    {
        self.tween = None;
        self.value = strength_of(self.target);
    }

    /// The strength at `now`.
    pub open spec fn value_at(self, now: Instant) -> i64 {
        match self.tween {
            Some(tween) => tween.at(now).fraction,
            None => self.value,
        }
    }

    /// After the strength was read at `now`: it is the value from then on, and a tween that is
    /// over is gone.
    pub open spec fn sampled(self, now: Instant) -> BoolTween {
        BoolTween {
            target: self.target,
            value: self.value_at(now),
            tween: if is_running(self.tween, now) {
                self.tween
            } else {
                None
            },
        }
    }

    pub fn sample(&mut self, now: Instant) -> (value: i64)
        requires
            old(self).well_formed(),
        ensures
            final(self).well_formed(),
            value == old(self).value_at(now),
            *final(self) == old(self).sampled(now),
    {
        if let Some(tween) = self.tween {
            let sample = tween.sample(now);
            proof {
                tween.law_tween_runs_from_old_to_new(now);
            }
            self.value = sample.fraction;
            if sample.finished {
                self.tween = None;
            }
        }
        self.value
    }

    pub fn tweening(&self) -> (moves: bool)
        ensures
            moves == (self.tween is Some),
    {
        self.tween.is_some()
    }

    /// The strength stays a share, settles on the target, and then asks for no more frames.
    pub proof fn law_strength_settles(self, now: Instant)
        requires
            self.well_formed(),
        ensures
            0 <= self.value_at(now) <= UNIT,
            !is_running(self.tween, now) ==> self.value_at(now) == strength(self.target),
    {
        if self.tween is Some {
            self.tween->0.law_tween_runs_from_old_to_new(now);
        }
    }
}

/// The ball's answer to the pointer: brighter under the cursor, smaller while pressed.
#[derive(Clone, Copy, Debug, PartialEq, Eq, Structural)]
pub struct PointerState {
    pub hover: BoolTween,
    pub press: BoolTween,
    pub enabled: bool,
}

/// How long the ball takes to follow a press or a release.
pub open spec fn press_millis(pressed: bool) -> u64 {
    if pressed {
        PRESS_TWEEN_MILLIS
    } else {
        RELEASE_TWEEN_MILLIS
    }
}

impl PointerState {
    pub open spec fn well_formed(self) -> bool {
        self.hover.well_formed() && self.press.well_formed()
    }

    pub fn new() -> (pointer: PointerState)
        ensures
            pointer == (PointerState {
                hover: BoolTween { target: false, value: 0, tween: None },
                press: BoolTween { target: false, value: 0, tween: None },
                enabled: true,
            }),
            pointer.well_formed(),
    {
        PointerState { hover: BoolTween::new(), press: BoolTween::new(), enabled: true }
    }

    /// Switching motion off shows the state at once instead of hiding it.
    pub fn set_enabled(&mut self, enabled: bool)
        requires
            old(self).well_formed(),
        ensures
            final(self).well_formed(),
            final(self).enabled == enabled,
            enabled ==> final(self).hover == old(self).hover && final(self).press
                == old(self).press,
            !enabled ==> final(self).hover == (BoolTween {
                target: old(self).hover.target,
                value: strength(old(self).hover.target),
                tween: None,
            }) && final(self).press == (BoolTween {
                target: old(self).press.target,
                value: strength(old(self).press.target),
                tween: None,
            }),
    {
        self.enabled = enabled;
        if !enabled {
            self.hover.snap();
            self.press.snap();
        }
    }

    /// On its way to what the pointer does now.
    pub open spec fn aimed(self, hovered: bool, pressed: bool, now: Instant) -> PointerState {
        PointerState {
            hover: self.hover.with_target(
                hovered,
                Duration { nanos: (HOVER_TWEEN_MILLIS * 1_000_000) as u128 },
                self.enabled,
                now,
            ),
            press: self.press.with_target(
                pressed,
                Duration { nanos: (press_millis(pressed) * 1_000_000) as u128 },
                self.enabled,
                now,
            ),
            enabled: self.enabled,
        }
    }

    /// After both strengths were read at `now`.
    pub open spec fn sampled(self, now: Instant) -> PointerState {
        PointerState {
            hover: self.hover.sampled(now),
            press: self.press.sampled(now),
            enabled: self.enabled,
        }
    }

    pub fn set_targets(&mut self, hovered: bool, pressed: bool, now: Instant)
        requires
            old(self).well_formed(),
        ensures
            final(self).well_formed(),
            *final(self) == old(self).aimed(hovered, pressed, now),
    {
        let enabled = self.enabled;
        self.hover.set_target(hovered, Duration::from_millis(HOVER_TWEEN_MILLIS), enabled, now);
        let press_duration = if pressed {
            Duration::from_millis(PRESS_TWEEN_MILLIS)
        } else {
            Duration::from_millis(RELEASE_TWEEN_MILLIS)
        };
        self.press.set_target(pressed, press_duration, enabled, now);
    }

    /// Strength of the hover and of the press.
    pub fn sample(&mut self, now: Instant) -> (strengths: (i64, i64))
        requires
            old(self).well_formed(),
        ensures
            final(self).well_formed(),
            strengths == (old(self).hover.value_at(now), old(self).press.value_at(now)),
            0 <= strengths.0 <= UNIT,
            0 <= strengths.1 <= UNIT,
            *final(self) == old(self).sampled(now),
    {
        proof {
            self.hover.law_strength_settles(now);
            self.press.law_strength_settles(now);
        }
        let hover: i64 = self.hover.sample(now);
        let press: i64 = self.press.sample(now);
        (hover, press)
    }

    pub fn tweening(&self) -> (moves: bool)
        ensures
            moves == (self.hover.tween is Some || self.press.tween is Some),
    {
        self.hover.tweening() || self.press.tweening()
    }
}

/// A press is answered faster than a release.
pub proof fn law_press_is_faster_than_release()
    ensures
        press_millis(true) < press_millis(false),
{
}

/// The more frequent of two frame intervals; none where neither asks for frames.
pub open spec fn faster(first: Option<u32>, second: Option<u32>) -> Option<u32> {
    match (first, second) {
        (Some(a), Some(b)) => Some(
            if a <= b {
                a
            } else {
                b
            },
        ),
        (Some(a), None) => Some(a),
        (None, b) => b,
    }
}

pub fn faster_interval(first: Option<u32>, second: Option<u32>) -> (millis: Option<u32>)
    ensures
        millis == faster(first, second),
{
    match (first, second) {
        (Some(a), Some(b)) => if a <= b {
            Some(a)
        } else {
            Some(b)
        },
        (Some(a), None) => Some(a),
        (None, b) => b,
    }
}

/// How soon the ball needs its next frame.
pub fn animation_frame_interval(ring: &RingState, pointer: &PointerState, now: Instant) -> (millis:
    Option<u32>)
    requires
        ring.well_formed(),
    ensures
        millis == faster(
            ring.frame_due(now),
            if pointer.hover.tween is Some || pointer.press.tween is Some {
                Some(RING_TWEEN_FRAME_MILLIS)
            } else {
                None
            },
        ),
{
    let by_pointer = if pointer.tweening() {
        Some(RING_TWEEN_FRAME_MILLIS)
    } else {
        None
    };
    faster_interval(ring.frame_interval(now), by_pointer)
}

/// A value that has not changed changes nothing. A changed one is approached from where the arc and
/// the number stand, over a quarter and a fifth of a second; the first one after an appearance
/// comes up from zero, over seven tenths and half a second; a value that is lost or comes back
/// otherwise, and any value while nothing may move, shows at once.
pub proof fn law_values_are_approached(
    ring: &mut RingState,
    shown: &mut RingState,
    labelled: &mut RingState,
    target: Option<i64>,
    now: Instant,
    arc: Option<i64>,
    label: Option<i64>,
)
    requires
        old(ring).well_formed(),
        *old(shown) == *old(ring),
        *old(labelled) == *old(ring),
        call_ensures(RingState::retarget, (ring, target, now), ()),
        call_ensures(RingState::fraction, (shown, now), arc),
        call_ensures(RingState::label_fraction, (labelled, now), label),
    ensures
        final(ring).target == target,
        target == old(ring).target ==> *final(ring) == *old(ring),
        target != old(ring).target && (!old(ring).enabled || target is None || (arc is None
            && !old(ring).sweep_pending)) ==> final(ring).animation is None
            && final(ring).label_animation is None && final(ring).sweep_pending
            == old(ring).sweep_pending,
        target != old(ring).target && old(ring).enabled && target is Some && arc is Some ==> {
            &&& final(ring).animation == Some(
                Tween {
                    started_at: now,
                    duration: Duration { nanos: 250_000_000 },
                    from: arc->0,
                    to: target->0,
                },
            )
            &&& label is Some ==> final(ring).label_animation == Some(
                Tween {
                    started_at: now,
                    duration: Duration { nanos: 200_000_000 },
                    from: label->0,
                    to: target->0,
                },
            )
            &&& label is None ==> final(ring).label_animation == Some(
                Tween {
                    started_at: now,
                    duration: Duration { nanos: 200_000_000 },
                    from: old(ring).target->0,
                    to: target->0,
                },
            )
            &&& final(ring).sweep_pending == old(ring).sweep_pending
        },
        target != old(ring).target && old(ring).enabled && target is Some && arc is None
            && old(ring).sweep_pending ==> {
            &&& final(ring).animation == Some(
                Tween {
                    started_at: now,
                    duration: Duration { nanos: 700_000_000 },
                    from: 0,
                    to: target->0,
                },
            )
            &&& final(ring).label_animation == Some(
                Tween {
                    started_at: now,
                    duration: Duration { nanos: 500_000_000 },
                    from: 0,
                    to: target->0,
                },
            )
            &&& !final(ring).sweep_pending
        },
        *final(ring) == (RingState {
            animation: final(ring).animation,
            label_animation: final(ring).label_animation,
            target: final(ring).target,
            sweep_pending: final(ring).sweep_pending,
            ..*old(ring)
        }),
{
}

/// The arc shows its tween while there is one and the target otherwise; the number shows its own
/// while that runs. A tween that is over is dropped, and nothing else changes.
pub proof fn law_the_ring_shows_its_tweens(
    ring: &mut RingState,
    labelled: &mut RingState,
    now: Instant,
    arc: Option<i64>,
    label: Option<i64>,
    arc_sample: motion::TweenSample,
    label_sample: motion::TweenSample,
)
    requires
        old(ring).well_formed(),
        old(labelled).well_formed(),
        call_ensures(RingState::fraction, (ring, now), arc),
        call_ensures(RingState::label_fraction, (labelled, now), label),
        old(ring).animation is Some ==> call_ensures(
            Tween::sample,
            (old(ring).animation->0, now),
            arc_sample,
        ),
        old(labelled).label_animation is Some ==> call_ensures(
            Tween::sample,
            (old(labelled).label_animation->0, now),
            label_sample,
        ),
    ensures
        old(ring).animation is None ==> arc == old(ring).target && *final(ring) == *old(ring),
        old(ring).animation is Some ==> {
            &&& arc == Some(arc_sample.fraction)
            &&& !arc_sample.finished ==> *final(ring) == *old(ring)
            &&& arc_sample.finished ==> *final(ring) == (RingState {
                animation: None,
                ..*old(ring)
            })
        },
        old(labelled).label_animation is None ==> label is None && *final(labelled)
            == *old(labelled),
        old(labelled).label_animation is Some ==> {
            &&& !label_sample.finished ==> label == Some(label_sample.fraction) && *final(labelled)
                == *old(labelled)
            &&& label_sample.finished ==> label is None && *final(labelled) == (RingState {
                label_animation: None,
                ..*old(labelled)
            })
        },
{
}

/// The pulse takes one and four tenths of a second, the indeterminate arc one and six tenths for a
/// turn. Both run where they are wanted and something may move, and nowhere else.
pub proof fn law_pulse_and_turn_keep_their_periods(
    pulsing: &mut RingState,
    spinning: &mut RingState,
    now: Instant,
    wanted: bool,
    pulse: Option<Duration>,
    turn: Option<i64>,
)
    requires
        old(pulsing).well_formed(),
        old(spinning).well_formed(),
        old(pulsing).pulse_epoch.nanos <= now.nanos,
        old(spinning).spin_epoch.nanos <= now.nanos,
        call_ensures(RingState::pulse_phase, (pulsing, now, wanted), pulse),
        call_ensures(RingState::spin_phase, (spinning, now, wanted), turn),
    ensures
        pulse is Some <==> wanted && old(pulsing).enabled,
        turn is Some <==> wanted && old(spinning).enabled,
        final(pulsing).pulsing == pulse is Some,
        final(spinning).spinning == turn is Some,
        pulse is Some ==> pulse->0.nanos < 1_400_000_000 && (now.nanos - pulse->0.nanos
            - old(pulsing).pulse_epoch.nanos) % 1_400_000_000 == 0,
        pulse is Some ==> final(pulsing).pulse_epoch.nanos + pulse->0.nanos == now.nanos,
        turn is Some ==> ({
            let into = now.nanos - final(spinning).spin_epoch.nanos;
            &&& 0 <= into < 1_600_000_000
            &&& (final(spinning).spin_epoch.nanos - old(spinning).spin_epoch.nanos) % 1_600_000_000
                == 0
            &&& turn->0 * 1_600_000_000 <= into * 1_000_000_000 < (turn->0 + 1) * 1_600_000_000
        }),
        pulse is None ==> *final(pulsing) == (RingState { pulsing: false, ..*old(pulsing) }),
        turn is None ==> *final(spinning) == (RingState { spinning: false, ..*old(spinning) }),
{
    let pulsed = (now.nanos - old(pulsing).pulse_epoch.nanos) as int;
    let turned = (now.nanos - old(spinning).spin_epoch.nanos) as int;
    assert(0 <= pulsed % 1_400_000_000 <= pulsed);
    assert(0 <= turned % 1_600_000_000 <= turned);
    assert(old(pulsing).pulse_nanos(now) == pulsed % 1_400_000_000);
    assert(old(spinning).spin_nanos(now) == turned % 1_600_000_000);
    assert((pulsed - pulsed % 1_400_000_000) % 1_400_000_000 == 0);
    assert((turned - turned % 1_600_000_000) % 1_600_000_000 == 0);
}

/// Frames come every ten milliseconds while a value moves or the indeterminate arc turns, every
/// hundred while only the pulse runs, and not at all otherwise.
pub proof fn law_frames_come_while_something_moves(
    ring: &RingState,
    pointer: &PointerState,
    now: Instant,
    by_ring: Option<u32>,
    millis: Option<u32>,
)
    requires
        ring.well_formed(),
        call_ensures(RingState::frame_interval, (ring, now), by_ring),
        call_ensures(animation_frame_interval, (ring, pointer, now), millis),
    ensures
        ({
            let runs = |tween: Option<Tween>|
                tween is Some && (now.nanos < tween->0.started_at.nanos + tween->0.duration.nanos)
                    && (tween->0.duration.nanos > 0);
            let moves = runs(ring.animation) || runs(ring.label_animation);
            &&& !ring.enabled ==> by_ring is None
            &&& ring.enabled && (moves || ring.spinning) ==> by_ring == Some(10u32)
            &&& ring.enabled && !moves && !ring.spinning && ring.pulsing ==> by_ring == Some(100u32)
            &&& ring.enabled && !moves && !ring.spinning && !ring.pulsing ==> by_ring is None
        }),
        pointer.hover.tween is Some || pointer.press.tween is Some ==> millis == Some(10u32),
        pointer.hover.tween is None && pointer.press.tween is None ==> millis == by_ring,
{
}

/// The more frequent of two intervals is one of them, and neither is more frequent.
pub proof fn law_the_faster_interval_wins(
    first: Option<u32>,
    second: Option<u32>,
    millis: Option<u32>,
)
    requires
        call_ensures(faster_interval, (first, second), millis),
    ensures
        millis is None <==> first is None && second is None,
        millis == first || millis == second,
        millis is Some && first is Some ==> millis->0 <= first->0,
        millis is Some && second is Some ==> millis->0 <= second->0,
{
}

/// Motion that is switched off leaves nothing moving and everything else as it was.
pub proof fn law_switching_motion_off_stops_everything(
    ring: &mut RingState,
    pointer: &mut PointerState,
    enabled: bool,
)
    requires
        old(ring).well_formed(),
        old(pointer).well_formed(),
        call_ensures(RingState::set_enabled, (ring, enabled), ()),
        call_ensures(PointerState::set_enabled, (pointer, enabled), ()),
    ensures
        final(ring).enabled == enabled,
        final(ring).target == old(ring).target,
        final(ring).sweep_pending == old(ring).sweep_pending,
        enabled ==> *final(ring) == (RingState { enabled, ..*old(ring) }),
        !enabled ==> final(ring).animation is None && final(ring).label_animation is None
            && !final(ring).pulsing && !final(ring).spinning,
        final(pointer).enabled == enabled,
        final(pointer).hover.target == old(pointer).hover.target,
        final(pointer).press.target == old(pointer).press.target,
        enabled ==> final(pointer).hover == old(pointer).hover && final(pointer).press
            == old(pointer).press,
        !enabled ==> {
            &&& final(pointer).hover.tween is None
            &&& final(pointer).press.tween is None
            &&& final(pointer).hover.value == (if old(pointer).hover.target {
                1_000_000_000i64
            } else {
                0
            })
            &&& final(pointer).press.value == (if old(pointer).press.target {
                1_000_000_000i64
            } else {
                0
            })
        },
{
}

/// A ball that appears again forgets what it showed; one that is only read anew keeps it.
pub proof fn law_an_appearance_starts_from_nothing(ring: &mut RingState, kept: &mut RingState)
    requires
        old(kept).well_formed(),
        call_ensures(RingState::expect_appearance, (ring,), ()),
        call_ensures(RingState::expect_resweep, (kept,), ()),
    ensures
        final(ring).target is None,
        final(ring).animation is None,
        final(ring).label_animation is None,
        final(ring).sweep_pending,
        final(ring).enabled == old(ring).enabled,
        final(kept).sweep_pending,
        final(kept).target == old(kept).target,
        final(kept).animation == old(kept).animation,
        final(kept).label_animation == old(kept).label_animation,
{
}

/// Hovering is followed within 150 milliseconds, a press within 80 and a release within 120, each
/// from the strength it has; what has not changed goes on as it is.
pub proof fn law_the_pointer_is_followed(
    pointer: &mut PointerState,
    hovered: bool,
    pressed: bool,
    now: Instant,
)
    requires
        old(pointer).well_formed(),
        call_ensures(PointerState::set_targets, (pointer, hovered, pressed, now), ()),
    ensures
        final(pointer).enabled == old(pointer).enabled,
        follows(
            old(pointer).hover,
            final(pointer).hover,
            hovered,
            old(pointer).enabled,
            150_000_000,
            now,
        ),
        follows(
            old(pointer).press,
            final(pointer).press,
            pressed,
            old(pointer).enabled,
            if pressed {
                80_000_000
            } else {
                120_000_000
            },
            now,
        ),
{
}

/// A strength that was `before` is on its way, as `after`, to being on or off.
pub open spec fn follows(
    before: BoolTween,
    after: BoolTween,
    on: bool,
    enabled: bool,
    nanos: u128,
    now: Instant,
) -> bool {
    let goal: i64 = if on {
        1_000_000_000
    } else {
        0
    };
    &&& after.target == on
    &&& before.target == on ==> after == before
    &&& before.target != on && enabled ==> after.value == before.value && after.tween == Some(
        Tween {
            started_at: now,
            duration: Duration { nanos },
            from: before.value,
            to: goal,
        },
    )
    &&& before.target != on && !enabled ==> after.value == goal && after.tween is None
}

/// Reading the strengths gives what their tweens show, keeps that, and drops a tween that is over.
pub proof fn law_strengths_are_read_off_their_tweens(
    pointer: &mut PointerState,
    now: Instant,
    strengths: (i64, i64),
    hover: motion::TweenSample,
    press: motion::TweenSample,
)
    requires
        old(pointer).well_formed(),
        call_ensures(PointerState::sample, (pointer, now), strengths),
        old(pointer).hover.tween is Some ==> call_ensures(
            Tween::sample,
            (old(pointer).hover.tween->0, now),
            hover,
        ),
        old(pointer).press.tween is Some ==> call_ensures(
            Tween::sample,
            (old(pointer).press.tween->0, now),
            press,
        ),
    ensures
        old(pointer).hover.tween is Some ==> strengths.0 == hover.fraction,
        old(pointer).hover.tween is None ==> strengths.0 == old(pointer).hover.value,
        old(pointer).press.tween is Some ==> strengths.1 == press.fraction,
        old(pointer).press.tween is None ==> strengths.1 == old(pointer).press.value,
        final(pointer).hover.value == strengths.0,
        final(pointer).press.value == strengths.1,
        final(pointer).hover.target == old(pointer).hover.target,
        final(pointer).press.target == old(pointer).press.target,
        final(pointer).hover.tween == (if old(pointer).hover.tween is Some && !hover.finished {
            old(pointer).hover.tween
        } else {
            None
        }),
        final(pointer).press.tween == (if old(pointer).press.tween is Some && !press.finished {
            old(pointer).press.tween
        } else {
            None
        }),
{
}

/// A new ring and a new pointer are at rest, may move, and sweep the first value in.
pub proof fn law_new_rings_are_at_rest(now: Instant, ring: RingState, pointer: PointerState)
    requires
        call_ensures(RingState::new, (now,), ring),
        call_ensures(PointerState::new, (), pointer),
    ensures
        ring.animation is None && ring.label_animation is None && ring.target is None,
        ring.enabled && ring.sweep_pending && !ring.pulsing && !ring.spinning,
        ring.pulse_epoch == now && ring.spin_epoch == now,
        pointer.enabled,
        !pointer.hover.target && pointer.hover.value == 0 && pointer.hover.tween is None,
        !pointer.press.target && pointer.press.value == 0 && pointer.press.tween is None,
{
}

/// A strength follows its target, snaps to it when told to, and is read off its tween.
pub proof fn law_strengths_follow_their_target(
    aimed: &mut BoolTween,
    snapped: &mut BoolTween,
    read: &mut BoolTween,
    on: bool,
    duration: Duration,
    enabled: bool,
    now: Instant,
    value: i64,
    sample: motion::TweenSample,
    moves: bool,
    pointer: &PointerState,
    pointer_moves: bool,
)
    requires
        old(aimed).well_formed(),
        old(read).well_formed(),
        call_ensures(BoolTween::set_target, (aimed, on, duration, enabled, now), ()),
        call_ensures(BoolTween::snap, (snapped,), ()),
        call_ensures(BoolTween::sample, (read, now), value),
        old(read).tween is Some ==> call_ensures(
            Tween::sample,
            (old(read).tween->0, now),
            sample,
        ),
        call_ensures(BoolTween::tweening, (old(read),), moves),
        call_ensures(PointerState::tweening, (pointer,), pointer_moves),
    ensures
        follows(*old(aimed), *final(aimed), on, enabled, duration.nanos, now),
        final(snapped).target == old(snapped).target,
        final(snapped).tween is None,
        final(snapped).value == (if old(snapped).target {
            1_000_000_000i64
        } else {
            0
        }),
        old(read).tween is Some ==> value == sample.fraction,
        old(read).tween is None ==> value == old(read).value,
        final(read).value == value,
        final(read).target == old(read).target,
        final(read).tween is Some <==> old(read).tween is Some && !sample.finished,
        moves <==> old(read).tween is Some,
        pointer_moves <==> pointer.hover.tween is Some || pointer.press.tween is Some,
{
}

} // verus!
