//! Clocks: periodic tick sources that synchronize tweens and playback
//! starts.
//!
//! A clock is driven at the audio sample rate: each frame its speed tween
//! advances, the ticks-per-second value times the time step accumulates,
//! and every whole unit of accumulation becomes one tick. Ticks are
//! broadcast to every clock-aware consumer before sounds process the same
//! frame, so a transition scheduled for tick `n` fires in the frame the
//! tick occurs. A frame that produces several ticks at once broadcasts one
//! event carrying the newest count; subscribers wait for a tick count to be
//! reached, so a coalesced event releases them exactly as the individual
//! events would.

use vstd::prelude::*;

use ringbuf::Consumer;

use crate::channel::pop_command;
use crate::command::Command;
use crate::fixed::{fdiv_raw, fint_part, fmul_raw, sat64, Fixed, FIXED_SCALE};
use crate::tween::ClockId;
use crate::tweener::{
    tweener_after_set,
    tweener_after_tick,
    tweener_after_update,
    tweener_wf,
    Tweenable,
    Tweener,
};

verus! {

/// How fast a clock ticks.
#[derive(Clone, Copy, Debug, PartialEq, Eq, Structural)]
pub enum ClockSpeed {
    /// Ticks per second of audio time.
    TicksPerSecond(Fixed),
    /// Seconds of audio time per tick.
    SecondsPerTick(Fixed),
}

/// The ticks-per-second value of a clock speed, never negative: the
/// reciprocal of a positive seconds-per-tick, zero for one that is not
/// positive.
pub open spec fn ticks_per_second_raw(s: ClockSpeed) -> int {
    match s {
        ClockSpeed::TicksPerSecond(t) => {
            if t.raw < 0 {
                0
            } else {
                t.raw as int
            }
        },
        ClockSpeed::SecondsPerTick(p) => {
            if p.raw <= 0 {
                0
            } else {
                fdiv_raw(FIXED_SCALE as int, p.raw as int)
            }
        },
    }
}

impl ClockSpeed {
    /// The ticks-per-second value of this speed.
    pub fn as_ticks_per_second(self) -> (r: Fixed)
        ensures
            r.raw == ticks_per_second_raw(self),
    {
        match self {
            ClockSpeed::TicksPerSecond(t) => {
                if t.raw < 0 {
                    Fixed { raw: 0 }
                } else {
                    t
                }
            },
            ClockSpeed::SecondsPerTick(p) => {
                if p.raw <= 0 {
                    Fixed { raw: 0 }
                } else {
                    Fixed { raw: FIXED_SCALE }.fdiv(p)
                }
            },
        }
    }
}

impl Tweenable for ClockSpeed {
    /// Clock speeds interpolate in ticks-per-second space.
    open spec fn lerp_spec(a: ClockSpeed, b: ClockSpeed, amount: int) -> ClockSpeed {
        ClockSpeed::TicksPerSecond(
            Fixed {
                raw: crate::volume::lerp_raw(
                    ticks_per_second_raw(a),
                    ticks_per_second_raw(b),
                    amount,
                ) as i64,
            },
        )
    }

    fn lerp(a: ClockSpeed, b: ClockSpeed, amount: Fixed) -> (r: ClockSpeed) {
        let ta = a.as_ticks_per_second();
        let tb = b.as_ticks_per_second();
        ClockSpeed::TicksPerSecond(ta.fadd(tb.fsub(ta).fmul(amount)))
    }
}

/// How many commands a clock's handle-side queue can hold.
pub const CLOCK_COMMAND_CAPACITY: usize = 8;

/// A periodic tick source.
pub struct Clock {
    /// This clock's identity among the clock arena's keys.
    pub id: ClockId,
    /// Whether the clock is currently ticking.
    pub ticking: bool,
    /// How many ticks have occurred.
    pub ticks: u64,
    /// The animated speed.
    pub speed: Tweener<ClockSpeed>,
    /// The fraction of the next tick already accumulated, in [0, 1).
    pub fractional: Fixed,
    /// Whether the control side wants this clock removed.
    pub removed: bool,
    /// The queue of commands from the clock's handle.
    pub commands: Consumer<Command>,
}

/// Well-formedness of a clock: the accumulator stays in [0, 1) and the
/// speed tween is well formed.
pub open spec fn clock_wf(c: &Clock) -> bool {
    &&& 0 <= c.fractional.raw < FIXED_SCALE
    &&& tweener_wf(c.speed)
}

/// How many ticks one frame of `dt` seconds produces: the whole part of the
/// accumulator after adding speed times time step. Zero while the clock is
/// not ticking.
pub open spec fn clock_ticks_produced(c: &Clock, dt: int) -> int {
    if !c.ticking {
        0
    } else {
        let speed2 = tweener_after_update(c.speed, dt);
        let sum = sat64(c.fractional.raw + fmul_raw(ticks_per_second_raw(speed2.value), dt));
        fint_part(sum)
    }
}

/// The clock after one frame of `dt` seconds: the speed tween advances;
/// while ticking, the accumulator grows by speed times time step, and each
/// whole unit becomes a tick (saturating at the tick counter's range).
pub open spec fn clock_after_process(c: Clock, dt: int) -> Clock {
    let speed2 = tweener_after_update(c.speed, dt);
    if !c.ticking {
        Clock { speed: speed2, ..c }
    } else {
        let sum = sat64(c.fractional.raw + fmul_raw(ticks_per_second_raw(speed2.value), dt));
        let produced = fint_part(sum);
        Clock {
            speed: speed2,
            ticks: if c.ticks + produced <= u64::MAX {
                (c.ticks + produced) as u64
            } else {
                u64::MAX
            },
            fractional: Fixed { raw: (sum - produced * FIXED_SCALE) as i64 },
            ..c
        }
    }
}

/// The clock after one control command: start and stop flip the ticking
/// flag, a speed command schedules the speed tween, a removal command sets
/// the removal mark.
pub open spec fn clock_apply_command(c: Clock, cmd: Command) -> Clock {
    match cmd {
        Command::StartClock => Clock { ticking: true, ..c },
        Command::StopClock => Clock { ticking: false, ..c },
        Command::SetClockSpeed(sp, t) => Clock { speed: tweener_after_set(c.speed, sp, t), ..c },
        Command::MarkForRemoval => Clock { removed: true, ..c },
        _ => c,
    }
}

/// The clock after a whole queue of commands, oldest first.
pub open spec fn clock_apply_commands(c: Clock, cmds: Seq<Command>) -> Clock
    decreases cmds.len(),
{
    if cmds.len() == 0 {
        c
    } else {
        clock_apply_commands(clock_apply_command(c, cmds[0]), cmds.drop_first())
    }
}

/// Appending one command to a drain applies it after the rest.
proof fn lemma_clock_apply_commands_snoc(c0: Clock, cs: Seq<Command>, c: Command)
    ensures
        clock_apply_commands(c0, cs.push(c)) == clock_apply_command(
            clock_apply_commands(c0, cs),
            c,
        ),
    decreases cs.len(),
{
    let v = c0;
    let pushed = cs.push(c);
    if cs.len() == 0 {
        assert(pushed[0] == c);
        assert(pushed.drop_first() =~= Seq::<Command>::empty());
        assert(clock_apply_commands(v, pushed) == clock_apply_commands(clock_apply_command(v, c), pushed.drop_first()));
        assert(clock_apply_commands(clock_apply_command(v, c), pushed.drop_first()) == clock_apply_command(v, c));
        assert(clock_apply_commands(v, cs) == v);
    } else {
        assert(pushed[0] == cs[0]);
        assert(pushed.drop_first() =~= cs.drop_first().push(c));
        lemma_clock_apply_commands_snoc(clock_apply_command(v, cs[0]), cs.drop_first(), c);
        assert(clock_apply_commands(v, pushed) == clock_apply_commands(clock_apply_command(v, cs[0]), cs.drop_first().push(c)));
        assert(clock_apply_commands(v, cs) == clock_apply_commands(clock_apply_command(v, cs[0]), cs.drop_first()));
    }
}

/// The clock after one observed tick: it reaches the speed tween.
pub open spec fn clock_after_tick(c: Clock, time: crate::tween::ClockTime) -> Clock {
    Clock { speed: tweener_after_tick(c.speed, time), ..c }
}

/// The clock after a whole sequence of observed ticks, oldest first.
pub open spec fn clock_after_ticks(c: Clock, ts: Seq<crate::tween::ClockTime>) -> Clock
    decreases ts.len(),
{
    if ts.len() == 0 {
        c
    } else {
        clock_after_ticks(clock_after_tick(c, ts[0]), ts.drop_first())
    }
}

/// Appending one tick to a delivery applies it after the rest.
pub proof fn lemma_clock_after_ticks_snoc(
    c: Clock,
    ts: Seq<crate::tween::ClockTime>,
    t: crate::tween::ClockTime,
)
    ensures
        clock_after_ticks(c, ts.push(t)) == clock_after_tick(clock_after_ticks(c, ts), t),
    decreases ts.len(),
{
    let pushed = ts.push(t);
    if ts.len() == 0 {
        assert(pushed[0] == t);
        assert(pushed.drop_first() =~= Seq::<crate::tween::ClockTime>::empty());
        assert(clock_after_ticks(c, pushed) == clock_after_ticks(
            clock_after_tick(c, t),
            pushed.drop_first(),
        ));
        assert(clock_after_ticks(clock_after_tick(c, t), pushed.drop_first()) == clock_after_tick(
            c,
            t,
        ));
        assert(clock_after_ticks(c, ts) == c);
    } else {
        assert(pushed[0] == ts[0]);
        assert(pushed.drop_first() =~= ts.drop_first().push(t));
        lemma_clock_after_ticks_snoc(clock_after_tick(c, ts[0]), ts.drop_first(), t);
        assert(clock_after_ticks(c, pushed) == clock_after_ticks(
            clock_after_tick(c, ts[0]),
            ts.drop_first().push(t),
        ));
        assert(clock_after_ticks(c, ts) == clock_after_ticks(
            clock_after_tick(c, ts[0]),
            ts.drop_first(),
        ));
    }
}

/// Whether `post` is `pre` with some received command sequence applied.
pub open spec fn clock_drained_to(pre: Clock, post: Clock) -> bool {
    exists|cs: Seq<Command>| clock_same_core(&post, &(#[trigger] clock_apply_commands(pre, cs)))
}

/// Whether two clocks agree on everything but their command queue ends.
pub open spec fn clock_same_core(a: &Clock, b: &Clock) -> bool {
    &&& a.id == b.id
    &&& a.ticking == b.ticking
    &&& a.ticks == b.ticks
    &&& a.speed == b.speed
    &&& a.fractional == b.fractional
    &&& a.removed == b.removed
}

/// Applying a queue of commands preserves agreement on everything but the
/// queues.
proof fn lemma_clock_apply_commands_core(a: Clock, b: Clock, cmds: Seq<Command>)
    requires
        clock_same_core(&a, &b),
    ensures
        clock_same_core(&clock_apply_commands(a, cmds), &clock_apply_commands(b, cmds)),
    decreases cmds.len(),
{
    if cmds.len() > 0 {
        lemma_clock_apply_commands_core(
            clock_apply_command(a, cmds[0]),
            clock_apply_command(b, cmds[0]),
            cmds.drop_first(),
        );
    }
}

impl Clock {
    /// A fresh clock with the given identity and speed: not ticking, at
    /// tick 0.
    pub fn new(id: ClockId, speed: ClockSpeed, commands: Consumer<Command>) -> (r: Clock)
        ensures
            r.id == id,
            !r.ticking,
            r.ticks == 0,
            r.speed == (Tweener::<ClockSpeed> {
                value: speed,
                state: crate::tweener::TweenerState::Idle,
            }),
            r.fractional.raw == 0,
            !r.removed,
            r.commands == commands,
            clock_wf(&r),
    {
        Clock {
            id,
            ticking: false,
            ticks: 0,
            speed: Tweener::new(speed),
            fractional: Fixed { raw: 0 },
            removed: false,
            commands,
        }
    }

    /// The clock's current time: its identity and tick count.
    pub fn time(&self) -> (r: crate::tween::ClockTime)
        ensures
            r.clock == self.id,
            r.ticks == self.ticks,
    {
        crate::tween::ClockTime { clock: self.id, ticks: self.ticks }
    }

    /// Drains and applies queued commands, oldest first - at most the
    /// queue's capacity per block. Which commands the shared ring hands
    /// over cannot be pinned to either end's value, so the contract holds
    /// for some received sequence.
    pub fn on_start_processing(&mut self)
        requires
            clock_wf(old(self)),
        ensures
            clock_drained_to(*old(self), *final (self)),
            clock_wf(final (self)),
    {
        let ghost mut cs: Seq<Command> = Seq::empty();
        let mut budget: usize = 0;
        loop
            invariant
                clock_wf(self),
                budget <= CLOCK_COMMAND_CAPACITY,
                clock_same_core(self, &clock_apply_commands(*old(self), cs)),
            ensures
                clock_wf(self),
                clock_same_core(self, &clock_apply_commands(*old(self), cs)),
            decreases CLOCK_COMMAND_CAPACITY - budget,
        {
            if budget >= CLOCK_COMMAND_CAPACITY {
                break ;
            }
            let popped = pop_command(&mut self.commands);
            match popped {
                None => {
                    break ;
                },
                Some(cmd) => {
                    let ghost pre = *self;
                    match cmd {
                        Command::StartClock => {
                            self.ticking = true;
                        },
                        Command::StopClock => {
                            self.ticking = false;
                        },
                        Command::SetClockSpeed(sp, t) => {
                            self.speed.set(sp, t);
                        },
                        Command::MarkForRemoval => {
                            self.removed = true;
                        },
                        _ => {},
                    }
                    proof {
                        lemma_clock_apply_commands_core(
                            pre,
                            clock_apply_commands(*old(self), cs),
                            seq![cmd],
                        );
                        lemma_clock_apply_commands_snoc(*old(self), cs, cmd);
                        cs = cs.push(cmd);
                    }
                },
            }
            budget = budget + 1;
        }
        proof {
            assert(clock_same_core(self, &clock_apply_commands(*old(self), cs)));
        }
    }

    /// Reacts to a tick observed on some clock: it reaches the speed tween,
    /// so one clock's speed change can be scheduled on another clock's time.
    pub fn on_clock_tick(&mut self, time: crate::tween::ClockTime)
        requires
            clock_wf(old(self)),
        ensures
            *final (self) == clock_after_tick(*old(self), time),
            clock_wf(final (self)),
    {
        self.speed.on_clock_tick(time);
    }

    /// Advances the clock by one frame of `dt` seconds; returns the new tick
    /// count exactly when at least one tick was produced this frame.
    pub fn process(&mut self, dt: Fixed) -> (r: Option<u64>)
        requires
            dt.raw >= 0,
            clock_wf(old(self)),
        ensures
            *final (self) == clock_after_process(*old(self), dt.raw as int),
            r == if clock_ticks_produced(old(self), dt.raw as int) > 0 {
                Some(final (self).ticks)
            } else {
                None::<u64>
            },
            clock_wf(final (self)),
    {
        self.speed.update(dt);
        if !self.ticking {
            return None;
        }
        let tps = self.speed.get().as_ticks_per_second();
        proof {
            crate::fixed::lemma_fmul_raw_nonneg(tps.raw as int, dt.raw as int);
        }
        let sum = self.fractional.fadd(tps.fmul(dt));
        let produced: i64 = sum.int_part();
        proof {
            vstd::arithmetic::div_mod::lemma_fundamental_div_mod(sum.raw as int, FIXED_SCALE as int);
        }
        self.fractional = Fixed { raw: sum.raw - produced * FIXED_SCALE };
        if produced > 0 {
            if (self.ticks as u128) + (produced as u128) <= u64::MAX as u128 {
                self.ticks = self.ticks + (produced as u64);
            } else {
                self.ticks = u64::MAX;
            }
            Some(self.ticks)
        } else {
            None
        }
    }
}

} // verus!
