//! Countdown timers driven by the frame clock.

use vstd::prelude::*;

verus! {

/// Nanoseconds in a second.
pub const NANOS_PER_SECOND: u64 = 1_000_000_000;

/// The period between two stars, in nanoseconds.
pub const STAR_SPAWN_TIME: u64 = 1_000_000_000;

/// The period between two enemies, in nanoseconds.
pub const ENEMY_SPAWN_TIME: u64 = 10_000_000_000;

/// What a timer is, as numbers.
pub struct TimerView {
    /// The period, in nanoseconds.
    pub duration: nat,
    /// The time counted in the current period.
    pub elapsed: nat,
    /// Whether the timer starts over when a period completes.
    pub repeating: bool,
    /// Whether the timer has completed (one-shot) or completed in the last tick (repeating).
    pub finished: bool,
    /// Whether the last tick completed a period.
    pub just_finished: bool,
}

impl TimerView {
    /// A timer that has not counted anything yet.
    pub open spec fn fresh(duration: nat, repeating: bool) -> TimerView {
        TimerView { duration, elapsed: 0, repeating, finished: false, just_finished: false }
    }

    /// How many periods a repeating timer completes in a tick of `delta`.
    pub open spec fn completions(self, delta: nat) -> nat {
        if self.duration == 0 {
            1
        } else {
            (self.elapsed + delta) / self.duration
        }
    }

    /// The timer after a tick of `delta`.
    ///
    /// A repeating timer carries the excess over into the next period; with a
    /// period of zero it completes on every tick. A one-shot timer stops at its
    /// duration, reports completion on the tick that reaches it, and ignores
    /// every later tick.
    pub open spec fn ticked(self, delta: nat) -> TimerView {
        if self.repeating {
            if self.duration == 0 {
                TimerView { elapsed: 0, finished: true, just_finished: true, ..self }
            } else {
                let total = self.elapsed + delta;
                TimerView {
                    elapsed: total % self.duration,
                    finished: total >= self.duration,
                    just_finished: total >= self.duration,
                    ..self
                }
            }
        } else if self.finished {
            TimerView { just_finished: false, ..self }
        } else if self.elapsed + delta >= self.duration {
            TimerView { elapsed: self.duration, finished: true, just_finished: true, ..self }
        } else {
            TimerView {
                elapsed: self.elapsed + delta,
                finished: false,
                just_finished: false,
                ..self
            }
        }
    }

    /// The timer after one tick for each of `deltas`, in order.
    pub open spec fn run(self, deltas: Seq<nat>) -> TimerView
        decreases deltas.len(),
    {
        if deltas.len() == 0 {
            self
        } else {
            self.run(deltas.drop_last()).ticked(deltas.last())
        }
    }

    /// On how many of the ticks for `deltas` the timer reported completion.
    pub open spec fn fired(self, deltas: Seq<nat>) -> nat
        decreases deltas.len(),
    {
        if deltas.len() == 0 {
            0
        } else if self.run(deltas).just_finished {
            self.fired(deltas.drop_last()) + 1
        } else {
            self.fired(deltas.drop_last())
        }
    }
}

/// The sum of `deltas`.
pub open spec fn total_time(deltas: Seq<nat>) -> nat
    decreases deltas.len(),
{
    if deltas.len() == 0 {
        0
    } else {
        total_time(deltas.drop_last()) + deltas.last()
    }
}

/// A countdown over nanoseconds.
#[derive(Debug, Clone, Copy, PartialEq, Eq, Structural)]
pub struct Timer {
    duration_ns: u64,
    elapsed_ns: u64,
    repeating: bool,
    finished: bool,
    just_finished: bool,
}

impl View for Timer {
    type V = TimerView;

    closed spec fn view(&self) -> TimerView {
        TimerView {
            duration: self.duration_ns as nat,
            elapsed: self.elapsed_ns as nat,
            repeating: self.repeating,
            finished: self.finished,
            just_finished: self.just_finished,
        }
    }
}

impl Timer {
    /// A fresh timer with a period of `duration_ns` nanoseconds.
    pub fn new(duration_ns: u64, repeating: bool) -> (timer: Timer)
        ensures
            timer@ == TimerView::fresh(duration_ns as nat, repeating),
    {
        Timer { duration_ns, elapsed_ns: 0, repeating, finished: false, just_finished: false }
    }

    pub fn duration_ns(&self) -> (d: u64)
        ensures
            d == self@.duration,
    {
        self.duration_ns
    }

    pub fn elapsed_ns(&self) -> (e: u64)
        ensures
            e == self@.elapsed,
    {
        self.elapsed_ns
    }

    pub fn is_repeating(&self) -> (r: bool)
        ensures
            r == self@.repeating,
    {
        self.repeating
    }

    pub fn finished(&self) -> (f: bool)
        ensures
            f == self@.finished,
    {
        self.finished
    }

    /// Whether the last tick completed a period.
    pub fn just_finished(&self) -> (f: bool)
        ensures
            f == self@.just_finished,
    {
        self.just_finished
    }

    /// Starts the count over.
    pub fn reset(&mut self)
        ensures
            final(self)@ == TimerView::fresh(old(self)@.duration, old(self)@.repeating),
    {
        self.elapsed_ns = 0;
        self.finished = false;
        self.just_finished = false;
    }

    /// Advances the timer by `delta_ns` nanoseconds.
    pub fn tick(&mut self, delta_ns: u64)
        ensures
            final(self)@ == old(self)@.ticked(delta_ns as nat),
            old(self)@.repeating && old(self)@.duration > 0 ==> final(self)@.elapsed < old(
                self
            )@.duration,
    {
        let total: u128 = self.elapsed_ns as u128 + delta_ns as u128;
        if self.repeating {
            if self.duration_ns == 0 {
                self.elapsed_ns = 0;
                self.finished = true;
                self.just_finished = true;
            } else {
                let duration = self.duration_ns as u128;
                let done = total >= duration;
                self.elapsed_ns = (total % duration) as u64;
                self.finished = done;
                self.just_finished = done;
            }
        } else if self.finished {
            self.just_finished = false;
        } else if total >= self.duration_ns as u128 {
            self.elapsed_ns = self.duration_ns;
            self.finished = true;
            self.just_finished = true;
        } else {
            self.elapsed_ns = total as u64;
            self.finished = false;
            self.just_finished = false;
        }
    }
}

/// A fresh repeating timer, ticked by steps none of which is longer than its
/// period, reports completion once for every full period of the time that
/// has passed, and carries the remainder: after exactly one period it has
/// fired once, after exactly two periods twice.
pub proof fn lemma_fires_once_per_period(duration: nat, deltas: Seq<nat>)
    requires
        duration > 0,
        forall|i: int| 0 <= i < deltas.len() ==> #[trigger] deltas[i] <= duration,
    ensures
        TimerView::fresh(duration, true).fired(deltas) == total_time(deltas) / duration,
        TimerView::fresh(duration, true).run(deltas).elapsed == total_time(deltas) % duration,
        TimerView::fresh(duration, true).run(deltas).duration == duration,
        TimerView::fresh(duration, true).run(deltas).repeating,
    decreases deltas.len(),
{
    let t = TimerView::fresh(duration, true);
    let d = duration as int;
    if deltas.len() == 0 {
        vstd::arithmetic::div_mod::lemma_fundamental_div_mod_converse(0, d, 0, 0);
    } else {
        let before = deltas.drop_last();
        let delta = deltas.last();
        lemma_fires_once_per_period(duration, before);
        let sum = total_time(before) as int;
        let q = sum / d;
        let r = sum % d;
        vstd::arithmetic::div_mod::lemma_fundamental_div_mod(sum, d);
        vstd::arithmetic::div_mod::lemma_mod_bound(sum, d);
        assert(t.run(before).elapsed == r);
        let total = r + delta;
        if total >= d {
            assert(sum + delta == (q + 1) * d + (total - d)) by (nonlinear_arith)
                requires
                    sum == d * q + r,
                    total == r + delta,
            ;
            vstd::arithmetic::div_mod::lemma_fundamental_div_mod_converse(
                sum + delta,
                d,
                q + 1,
                total - d,
            );
            vstd::arithmetic::div_mod::lemma_fundamental_div_mod_converse(total, d, 1, total - d);
        } else {
            assert(sum + delta == q * d + total) by (nonlinear_arith)
                requires
                    sum == d * q + r,
                    total == r + delta,
            ;
            vstd::arithmetic::div_mod::lemma_fundamental_div_mod_converse(sum + delta, d, q, total);
            vstd::arithmetic::div_mod::lemma_fundamental_div_mod_converse(total, d, 0, total);
        }
    }
}

/// The timer that paces the stars.
#[derive(Debug, Clone, Copy, PartialEq, Eq, Structural)]
pub struct StarSpawnTimer {
    pub timer: Timer,
}

impl Default for StarSpawnTimer {
    fn default() -> (t: StarSpawnTimer)
        ensures
            t.timer@ == TimerView::fresh(STAR_SPAWN_TIME as nat, true),
    {
        StarSpawnTimer { timer: Timer::new(STAR_SPAWN_TIME, true) }
    }
}

/// The timer that paces the enemies.
#[derive(Debug, Clone, Copy, PartialEq, Eq, Structural)]
pub struct EnemySpawnTimer {
    pub timer: Timer,
}

impl Default for EnemySpawnTimer {
    fn default() -> (t: EnemySpawnTimer)
        ensures
            t.timer@ == TimerView::fresh(ENEMY_SPAWN_TIME as nat, true),
    {
        EnemySpawnTimer { timer: Timer::new(ENEMY_SPAWN_TIME, true) }
    }
}

/// Advances the star timer by the frame's delta.
pub fn tick_star_spawn_timer(star_spawn_timer: &mut StarSpawnTimer, delta_ns: u64)
    ensures
        final(star_spawn_timer).timer@ == old(star_spawn_timer).timer@.ticked(delta_ns as nat),
{
    star_spawn_timer.timer.tick(delta_ns);
}

/// Advances the enemy timer by the frame's delta.
pub fn tick_enemy_spawn_timer(enemy_spawn_timer: &mut EnemySpawnTimer, delta_ns: u64)
    ensures
        final(enemy_spawn_timer).timer@ == old(enemy_spawn_timer).timer@.ticked(delta_ns as nat),
{
    enemy_spawn_timer.timer.tick(delta_ns);
}

} // verus!
