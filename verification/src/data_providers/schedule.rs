//! When a polling worker polls, for how long it sleeps, and when it ends.
//! The worker itself runs elsewhere: it asks here what to do next, does it,
//! and asks again.

use vstd::prelude::*;

verus! {

/// The longest the worker sleeps without looking at the stop signal, in
/// nanoseconds: one second.
pub const TICK_NANOS: u128 = 1_000_000_000;

/// The time between two poll cycles when nothing else is asked for, in
/// nanoseconds: sixty seconds.
pub const DEFAULT_POLL_NANOS: u128 = 60_000_000_000;

/// A span of time, to the nanosecond.
#[derive(Clone, Copy, Debug, PartialEq, Eq, Structural)]
pub struct PollInterval {
    pub nanos: u128,
}

impl PollInterval {
    pub open spec fn as_nanos(self) -> nat {
        self.nanos as nat
    }

    pub fn from_nanos(nanos: u128) -> (interval: Self)
        ensures
            interval == (PollInterval { nanos }),
    {
        PollInterval { nanos }
    }

    pub fn from_secs(secs: u64) -> (interval: Self)
        ensures
            interval.as_nanos() == secs * TICK_NANOS,
            interval == (PollInterval { nanos: (secs * TICK_NANOS) as u128 }),
    {
        assert(secs * TICK_NANOS <= u64::MAX * 1_000_000_000) by (nonlinear_arith)
            requires
                secs <= u64::MAX,
                TICK_NANOS == 1_000_000_000,
        ;
        let wide: u128 = secs as u128;
        PollInterval { nanos: wide * TICK_NANOS }
    }

    pub fn is_zero(&self) -> (zero: bool)
        ensures
            zero == (self.nanos == 0),
    {
        self.nanos == 0
    }
}

/// The length of the next nap of a sleep with `remaining` left: one tick,
/// or what is left if that is less.
pub open spec fn nap_nanos(remaining: nat) -> nat {
    if remaining < TICK_NANOS {
        remaining
    } else {
        TICK_NANOS as nat
    }
}

/// One round of an interruptible sleep. `None` ends the sleep: the stop
/// signal is raised or nothing is left. Otherwise the nap to take now, at
/// most one tick long, and what is left after it.
pub fn sleep_with_stop(stop_requested: bool, remaining: PollInterval) -> (round: Option<
    (PollInterval, PollInterval),
>)
    ensures
        round is None <==> stop_requested || remaining.as_nanos() == 0,
        round matches Some((nap, rest)) ==> {
            &&& nap.as_nanos() == nap_nanos(remaining.as_nanos())
            &&& rest.as_nanos() == remaining.as_nanos() - nap.as_nanos()
            &&& 0 < nap.as_nanos() <= TICK_NANOS
        },
{
    if stop_requested || remaining.nanos == 0 {
        return None;
    }
    let nap: u128 = if remaining.nanos < TICK_NANOS {
        remaining.nanos
    } else {
        TICK_NANOS
    };
    Some((PollInterval { nanos: nap }, PollInterval { nanos: remaining.nanos - nap }))
}

/// The naps of an uninterrupted sleep of `remaining`, in order.
pub open spec fn naps(remaining: nat) -> Seq<nat>
    decreases remaining,
{
    if remaining == 0 {
        Seq::empty()
    } else {
        seq![nap_nanos(remaining)] + naps((remaining - nap_nanos(remaining)) as nat)
    }
}

/// The sum of a sequence of lengths.
pub open spec fn total(lengths: Seq<nat>) -> nat
    decreases lengths.len(),
{
    if lengths.len() == 0 {
        0
    } else {
        lengths[0] + total(lengths.drop_first())
    }
}

/// An uninterrupted sleep lasts as long as asked: its naps add up to the
/// whole, none is longer than a tick, and only the last may be shorter.
pub proof fn lemma_naps_add_up(remaining: nat)
    ensures
        total(naps(remaining)) == remaining,
        naps(remaining).len() == (remaining + TICK_NANOS - 1) / (TICK_NANOS as int),
        forall|i: int|
            0 <= i < naps(remaining).len() ==> 0 < #[trigger] naps(remaining)[i] <= TICK_NANOS,
        forall|i: int|
            0 <= i < naps(remaining).len() - 1 ==> #[trigger] naps(remaining)[i] == TICK_NANOS,
    decreases remaining,
{
    if remaining > 0 {
        let nap = nap_nanos(remaining);
        let rest = (remaining - nap) as nat;
        lemma_naps_add_up(rest);
        let all = naps(remaining);
        assert(all.drop_first() =~= naps(rest));
        assert forall|i: int| 0 <= i < all.len() implies 0 < #[trigger] all[i] <= TICK_NANOS by {
            if i > 0 {
                assert(all[i] == naps(rest)[i - 1]);
            }
        }
        assert forall|i: int| 0 <= i < all.len() - 1 implies #[trigger] all[i] == TICK_NANOS by {
            if i > 0 {
                assert(all[i] == naps(rest)[i - 1]);
            } else {
                assert(naps(rest).len() > 0);
            }
        }
    }
}

/// What the worker does next.
#[derive(Clone, Copy, Debug, PartialEq, Eq, Structural)]
pub enum WorkerAction {
    /// Run one poll cycle and publish what it yields.
    Poll,
    /// Sleep this long, at most one tick.
    Sleep(PollInterval),
    /// Leave the loop for good.
    Exit,
}

/// Where a worker stands between two of its actions.
#[derive(Clone, Copy, Debug, PartialEq, Eq, Structural)]
pub struct PollSchedule {
    /// The sleep between two poll cycles.
    pub poll_interval: PollInterval,
    /// What is left of the sleep under way.
    pub remaining: PollInterval,
    /// The worker has seen the stop signal and left its loop.
    pub exited: bool,
}

impl PollSchedule {
    /// The state after one step and the action of that step. A raised stop
    /// signal ends the worker, and a worker that has ended stays so.
    /// Otherwise it polls when nothing is left to sleep, and takes one nap
    /// when something is.
    pub open spec fn step(self, stop_requested: bool) -> (PollSchedule, WorkerAction) {
        if self.exited || stop_requested {
            (PollSchedule { exited: true, ..self }, WorkerAction::Exit)
        } else if self.remaining.nanos == 0 {
            (PollSchedule { remaining: self.poll_interval, ..self }, WorkerAction::Poll)
        } else {
            let nap = nap_nanos(self.remaining.as_nanos()) as u128;
            (
                PollSchedule {
                    remaining: PollInterval { nanos: (self.remaining.nanos - nap) as u128 },
                    ..self
                },
                WorkerAction::Sleep(PollInterval { nanos: nap }),
            )
        }
    }

    /// A worker that has not run yet: its first step polls, unless the stop
    /// signal is already raised.
    pub fn new(poll_interval: PollInterval) -> (schedule: Self)
        ensures
            schedule == (PollSchedule {
                poll_interval,
                remaining: PollInterval { nanos: 0 },
                exited: false,
            }),
    {
        PollSchedule { poll_interval, remaining: PollInterval { nanos: 0 }, exited: false }
    }

    /// Takes one step, given the stop signal as it stands now.
    pub fn next(&mut self, stop_requested: bool) -> (action: WorkerAction)
        ensures
            *final(self) == old(self).step(stop_requested).0,
            action == old(self).step(stop_requested).1,
    {
        if self.exited || stop_requested {
            self.exited = true;
            return WorkerAction::Exit;
        }
        match sleep_with_stop(false, self.remaining) {
            None => {
                self.remaining = self.poll_interval;
                WorkerAction::Poll
            },
            Some((nap, rest)) => {
                self.remaining = rest;
                WorkerAction::Sleep(nap)
            },
        }
    }
}

/// The actions of a worker that finds the stop signal as `stops` says,
/// step after step.
pub open spec fn run(schedule: PollSchedule, stops: Seq<bool>) -> Seq<WorkerAction>
    decreases stops.len(),
{
    if stops.len() == 0 {
        Seq::empty()
    } else {
        seq![schedule.step(stops[0]).1] + run(schedule.step(stops[0]).0, stops.drop_first())
    }
}

/// A worker takes one action for each look at the stop signal, and never
/// sleeps longer than a tick between two looks.
pub proof fn lemma_run_is_bounded(schedule: PollSchedule, stops: Seq<bool>)
    ensures
        run(schedule, stops).len() == stops.len(),
        forall|i: int|
            0 <= i < stops.len() ==> (#[trigger] run(schedule, stops)[i] matches WorkerAction::Sleep(
                nap,
            ) ==> 0 < nap.nanos <= TICK_NANOS),
    decreases stops.len(),
{
    if stops.len() > 0 {
        let next = schedule.step(stops[0]).0;
        lemma_run_is_bounded(next, stops.drop_first());
        assert forall|i: int| 0 <= i < stops.len() implies (#[trigger] run(
            schedule,
            stops,
        )[i] matches WorkerAction::Sleep(nap) ==> 0 < nap.nanos <= TICK_NANOS) by {
            if i > 0 {
                assert(run(schedule, stops)[i] == run(next, stops.drop_first())[i - 1]);
            }
        }
    }
}

/// A worker that is left alone sleeps out what remains of the interval, nap
/// by nap, and then polls.
pub proof fn lemma_sleeps_out_the_interval(schedule: PollSchedule, stops: Seq<bool>)
    requires
        !schedule.exited,
        stops.len() == naps(schedule.remaining.as_nanos()).len() + 1,
        forall|i: int| 0 <= i < stops.len() ==> !stops[i],
    ensures
        run(schedule, stops).len() == stops.len(),
        forall|i: int|
            0 <= i < stops.len() - 1 ==> #[trigger] run(schedule, stops)[i] == WorkerAction::Sleep(
                PollInterval { nanos: naps(schedule.remaining.as_nanos())[i] as u128 },
            ),
        run(schedule, stops)[stops.len() - 1] == WorkerAction::Poll,
        total(naps(schedule.remaining.as_nanos())) == schedule.remaining.as_nanos(),
    decreases schedule.remaining.nanos,
{
    lemma_run_is_bounded(schedule, stops);
    lemma_naps_add_up(schedule.remaining.as_nanos());
    let remaining = schedule.remaining.as_nanos();
    if remaining > 0 {
        let next = schedule.step(stops[0]).0;
        let rest = stops.drop_first();
        let nap = nap_nanos(remaining);
        assert(next.remaining.as_nanos() == remaining - nap);
        assert(naps(remaining).drop_first() =~= naps(next.remaining.as_nanos()));
        lemma_sleeps_out_the_interval(next, rest);
        assert forall|i: int| 0 <= i < stops.len() - 1 implies #[trigger] run(schedule, stops)[i]
            == WorkerAction::Sleep(PollInterval { nanos: naps(remaining)[i] as u128 }) by {
            if i > 0 {
                assert(run(schedule, stops)[i] == run(next, rest)[i - 1]);
                assert(naps(remaining)[i] == naps(next.remaining.as_nanos())[i - 1]);
            }
        }
        assert(run(schedule, stops)[stops.len() - 1] == run(next, rest)[rest.len() - 1]);
    }
}

/// Once a worker has found the stop signal raised it does nothing more:
/// every later action is `Exit`, so no poll and no publish follows.
pub proof fn lemma_nothing_after_stop(
    schedule: PollSchedule,
    stops: Seq<bool>,
    seen: int,
    later: int,
)
    requires
        0 <= seen <= later < stops.len(),
        stops[seen] || schedule.exited,
    ensures
        run(schedule, stops).len() == stops.len(),
        run(schedule, stops)[later] == WorkerAction::Exit,
    decreases stops.len(),
{
    lemma_run_is_bounded(schedule, stops);
    let next = schedule.step(stops[0]).0;
    let rest = stops.drop_first();
    if later > 0 {
        lemma_run_is_bounded(next, rest);
        assert(run(schedule, stops)[later] == run(next, rest)[later - 1]);
        if seen > 0 {
            assert(rest[seen - 1] == stops[seen]);
            lemma_nothing_after_stop(next, rest, seen - 1, later - 1);
        } else {
            assert(next.exited);
            lemma_nothing_after_stop(next, rest, 0, later - 1);
        }
    }
}

} // verus!
