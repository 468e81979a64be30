//! The runtime object driving a [`Tween`]: an animated parameter value.
//!
//! A [`Tweener`] holds the parameter's current value and, when a transition
//! is scheduled, its progress. A transition scheduled for a clock time stays
//! pending until a tick at or past the target is observed; a delayed one
//! counts its delay down in audio time; an active one advances every frame
//! and settles exactly on its target when its duration has elapsed.

use vstd::prelude::*;

use crate::fixed::{fdiv_raw, lemma_fdiv_unit, Fixed, FIXED_SCALE};
use crate::tween::{ease, ease_raw, ClockTime, StartTime, Tween};

verus! {

/// A parameter type that can be interpolated between two values.
pub trait Tweenable: Sized + Copy {
    /// The interpolated value a fraction `amount` (raw fixed point, in
    /// [0, 1]) of the way from `a` to `b`.
    spec fn lerp_spec(a: Self, b: Self, amount: int) -> Self;

    /// Interpolates between two values; exactly [`Tweenable::lerp_spec`].
    fn lerp(a: Self, b: Self, amount: Fixed) -> (r: Self)
        ensures
            r == Self::lerp_spec(a, b, amount.raw as int),
    ;
}

/// Progress of a tweener's scheduled transition.
#[derive(Clone, Copy, Debug)]
pub enum TweenerState<T> {
    /// No transition is scheduled.
    Idle,
    /// The transition waits for the clock time in its tween.
    WaitingOnClock { from: T, to: T, tween: Tween },
    /// The transition waits for a countdown of audio time.
    Delayed { from: T, to: T, tween: Tween, remaining: Fixed },
    /// The transition is running; `elapsed` seconds of it have passed.
    Active { from: T, to: T, tween: Tween, elapsed: Fixed },
}

/// An animated parameter value.
#[derive(Clone, Copy, Debug)]
pub struct Tweener<T> {
    /// The parameter's current value.
    pub value: T,
    /// The scheduled transition, if any.
    pub state: TweenerState<T>,
}

/// The eased progress fraction of a transition, in raw fixed point: elapsed
/// time over duration, clamped to [0, 1], then eased.
pub open spec fn progress_raw(tween: Tween, elapsed: int) -> int {
    if elapsed >= tween.duration.raw {
        ease_raw(tween.easing, FIXED_SCALE as int)
    } else {
        ease_raw(tween.easing, fdiv_raw(elapsed, tween.duration.raw as int))
    }
}

/// A tweener is well formed when its progress values are non-negative.
pub open spec fn tweener_wf<T>(s: Tweener<T>) -> bool {
    match s.state {
        TweenerState::Active { elapsed, .. } => elapsed.raw >= 0,
        _ => true,
    }
}

/// The tweener after one audio frame of `dt` seconds.
pub open spec fn tweener_after_update<T: Tweenable>(s: Tweener<T>, dt: int) -> Tweener<T> {
    match s.state {
        TweenerState::Idle => s,
        TweenerState::WaitingOnClock { .. } => s,
        TweenerState::Delayed { from, to, tween, remaining } => {
            if remaining.raw - dt <= 0 {
                Tweener {
                    value: s.value,
                    state: TweenerState::Active { from, to, tween, elapsed: Fixed { raw: 0 } },
                }
            } else {
                Tweener {
                    value: s.value,
                    state: TweenerState::Delayed {
                        from,
                        to,
                        tween,
                        remaining: Fixed { raw: (remaining.raw - dt) as i64 },
                    },
                }
            }
        },
        TweenerState::Active { from, to, tween, elapsed } => {
            if elapsed.raw + dt >= tween.duration.raw {
                Tweener { value: to, state: TweenerState::Idle }
            } else {
                Tweener {
                    value: T::lerp_spec(from, to, progress_raw(tween, elapsed.raw + dt)),
                    state: TweenerState::Active {
                        from,
                        to,
                        tween,
                        elapsed: Fixed { raw: (elapsed.raw + dt) as i64 },
                    },
                }
            }
        },
    }
}

/// Whether one audio frame of `dt` seconds completes the transition.
pub open spec fn tweener_update_finishes<T: Tweenable>(s: Tweener<T>, dt: int) -> bool {
    match s.state {
        TweenerState::Active { tween, elapsed, .. } => elapsed.raw + dt >= tween.duration.raw,
        _ => false,
    }
}

/// Whether an observed tick releases a transition waiting on `target`.
pub open spec fn tick_releases(target: ClockTime, time: ClockTime) -> bool {
    time.clock == target.clock && time.ticks >= target.ticks
}

/// The tweener after a clock tick is observed.
pub open spec fn tweener_after_tick<T: Tweenable>(s: Tweener<T>, time: ClockTime) -> Tweener<T> {
    match s.state {
        TweenerState::WaitingOnClock { from, to, tween } => {
            match tween.start_time {
                StartTime::ClockTime(target) => {
                    if tick_releases(target, time) {
                        Tweener {
                            value: s.value,
                            state: TweenerState::Active {
                                from,
                                to,
                                tween,
                                elapsed: Fixed { raw: 0 },
                            },
                        }
                    } else {
                        s
                    }
                },
                _ => s,
            }
        },
        _ => s,
    }
}

/// The tweener after a new target is scheduled: an immediate tween becomes
/// active at once, the others wait; the current value is kept as the
/// starting point.
pub open spec fn tweener_after_set<T: Tweenable>(s: Tweener<T>, target: T, tween: Tween) -> Tweener<
    T,
> {
    match tween.start_time {
        StartTime::Immediate => Tweener {
            value: s.value,
            state: TweenerState::Active {
                from: s.value,
                to: target,
                tween,
                elapsed: Fixed { raw: 0 },
            },
        },
        StartTime::Delayed(d) => Tweener {
            value: s.value,
            state: TweenerState::Delayed { from: s.value, to: target, tween, remaining: d },
        },
        StartTime::ClockTime(_) => Tweener {
            value: s.value,
            state: TweenerState::WaitingOnClock { from: s.value, to: target, tween },
        },
    }
}

impl<T: Tweenable> Tweener<T> {
    /// A tweener resting at `value`.
    pub fn new(value: T) -> (r: Tweener<T>)
        ensures
            r.value == value,
            r.state is Idle,
            tweener_wf(r),
    {
        Tweener { value, state: TweenerState::Idle }
    }

    /// Schedules a transition of this parameter toward `target`.
    pub fn set(&mut self, target: T, tween: Tween)
        ensures
            *final (self) == tweener_after_set(*old(self), target, tween),
            tweener_wf(*final (self)),
    {
        match tween.start_time {
            StartTime::Immediate => {
                self.state = TweenerState::Active {
                    from: self.value,
                    to: target,
                    tween,
                    elapsed: Fixed { raw: 0 },
                };
            },
            StartTime::Delayed(d) => {
                self.state = TweenerState::Delayed {
                    from: self.value,
                    to: target,
                    tween,
                    remaining: d,
                };
            },
            StartTime::ClockTime(_) => {
                self.state = TweenerState::WaitingOnClock { from: self.value, to: target, tween };
            },
        }
    }

    /// Advances the transition by one audio frame of `dt` seconds. Returns
    /// whether the transition completed during this frame.
    pub fn update(&mut self, dt: Fixed) -> (finished: bool)
        requires
            dt.raw >= 0,
            tweener_wf(*old(self)),
        ensures
            *final (self) == tweener_after_update(*old(self), dt.raw as int),
            finished == tweener_update_finishes(*old(self), dt.raw as int),
            tweener_wf(*final (self)),
    {
        let state = self.state;
        match state {
            TweenerState::Idle => false,
            TweenerState::WaitingOnClock { .. } => false,
            TweenerState::Delayed { from, to, tween, remaining } => {
                if remaining.raw <= dt.raw {
                    self.state = TweenerState::Active { from, to, tween, elapsed: Fixed { raw: 0 } };
                } else {
                    self.state = TweenerState::Delayed {
                        from,
                        to,
                        tween,
                        remaining: Fixed { raw: remaining.raw - dt.raw },
                    };
                }
                false
            },
            TweenerState::Active { from, to, tween, elapsed } => {
                if (elapsed.raw as i128) + (dt.raw as i128) >= tween.duration.raw as i128 {
                    self.value = to;
                    self.state = TweenerState::Idle;
                    true
                } else {
                    let elapsed2 = Fixed { raw: elapsed.raw + dt.raw };
                    proof {
                        lemma_fdiv_unit(elapsed2.raw as int, tween.duration.raw as int);
                    }
                    let amount = ease(tween.easing, elapsed2.fdiv(tween.duration));
                    self.value = T::lerp(from, to, amount);
                    self.state = TweenerState::Active { from, to, tween, elapsed: elapsed2 };
                    false
                }
            },
        }
    }

    /// Reacts to an observed clock tick: a transition waiting on that clock
    /// for a tick this late becomes active.
    pub fn on_clock_tick(&mut self, time: ClockTime)
        requires
            tweener_wf(*old(self)),
        ensures
            *final (self) == tweener_after_tick(*old(self), time),
            tweener_wf(*final (self)),
    {
        let state = self.state;
        match state {
            TweenerState::WaitingOnClock { from, to, tween } => {
                match tween.start_time {
                    StartTime::ClockTime(target) => {
                        if time.clock == target.clock && time.ticks >= target.ticks {
                            self.state = TweenerState::Active {
                                from,
                                to,
                                tween,
                                elapsed: Fixed { raw: 0 },
                            };
                        }
                    },
                    _ => {},
                }
            },
            _ => {},
        }
    }

    /// The parameter's current value.
    pub fn get(&self) -> (r: T)
        ensures
            r == self.value,
    {
        self.value
    }
}

/// A transition scheduled for a clock time is inactive until a tick at or
/// past its target tick is observed on that clock: audio frames alone never
/// start it or move the value, an unrelated or early tick leaves it pending,
/// and the first qualifying tick activates it at once. It resolves exactly
/// once: further ticks leave the now-active transition alone.
pub proof fn law_clock_gated_tween_waits<T: Tweenable>(
    s: Tweener<T>,
    dt: int,
    target: ClockTime,
    time: ClockTime,
    later: ClockTime,
)
    requires
        s.state matches TweenerState::WaitingOnClock { tween, .. } && tween.start_time
            == StartTime::ClockTime(target),
    ensures
        tweener_after_update(s, dt) == s,
        !tick_releases(target, time) ==> tweener_after_tick(s, time) == s,
        tick_releases(target, time) ==> (tweener_after_tick(s, time).state matches
            TweenerState::Active { elapsed, .. } && elapsed.raw == 0) && tweener_after_tick(
            s,
            time,
        ).value == s.value,
        tick_releases(target, time) ==> tweener_after_tick(tweener_after_tick(s, time), later)
            == tweener_after_tick(s, time),
{
}

/// A zero-duration transition completes on the first audio frame after it
/// becomes active: the value settles exactly on the target.
pub proof fn law_zero_duration_tween_settles<T: Tweenable>(s: Tweener<T>, dt: int)
    requires
        dt >= 0,
        tweener_wf(s),
        s.state matches TweenerState::Active { tween, .. } && tween.duration.raw <= 0,
    ensures
        tweener_update_finishes(s, dt),
        s.state matches TweenerState::Active { to, .. } ==> tweener_after_update(s, dt).value == to,
        tweener_after_update(s, dt).state is Idle,
{
}

} // verus!
