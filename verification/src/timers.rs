//! The timer subsystem: per-timer countdown state, ticked externally by an
//! elapsed duration (in milliseconds), emitting expired timer ids into the
//! bounded pending buffer. It never calls dispatch itself: the dispatch
//! engine pops the triggered ids and synthesizes the timeout events.

use vstd::prelude::*;

use crate::defs::TimerSettings;
use crate::pending::pending_new;
use crate::pending::pending_pop_back;
use crate::pending::pending_push_front;
use crate::pending::pending_seq;
use crate::pending::PendingBuffer;
use crate::FsmResult;

verus! {

/// The countdown state of one armed timer. Durations are milliseconds.
#[derive(Clone, Copy, Debug, PartialEq, Eq, Structural)]
pub enum CoreTimer {
    /// A one-shot timer: clears itself when it fires.
    Timeout { time_remaining: u64 },
    /// A renewing timer: re-arms to its interval when it fires.
    Interval { time_remaining: u64, interval: u64 },
}

/// The timer a `create` call installs: nothing when the settings are
/// disabled, else an interval or a one-shot countdown of the declared
/// timeout.
pub open spec fn spec_create(settings: TimerSettings) -> Option<CoreTimer> {
    if settings.enabled {
        if settings.renew {
            Some(CoreTimer::Interval { time_remaining: settings.timeout, interval: settings.timeout })
        } else {
            Some(CoreTimer::Timeout { time_remaining: settings.timeout })
        }
    } else {
        None
    }
}

/// One timer slot after a tick by `elapsed`, paired with whether it fired.
/// A timer fires when its remaining time is within the elapsed duration;
/// sub-tick precision below the elapsed granularity is intentionally not
/// carried over.
pub open spec fn spec_tick_one(t: Option<CoreTimer>, elapsed: u64) -> (Option<CoreTimer>, bool) {
    match t {
        Some(CoreTimer::Timeout { time_remaining }) => if time_remaining <= elapsed {
            (None::<CoreTimer>, true)
        } else {
            (Some(CoreTimer::Timeout { time_remaining: (time_remaining - elapsed) as u64 }), false)
        },
        Some(CoreTimer::Interval { time_remaining, interval }) => if time_remaining <= elapsed {
            (Some(CoreTimer::Interval { time_remaining: interval, interval }), true)
        } else {
            (
                Some(
                    CoreTimer::Interval {
                        time_remaining: (time_remaining - elapsed) as u64,
                        interval,
                    },
                ),
                false,
            )
        },
        None => (None::<CoreTimer>, false),
    }
}

/// How many of the timers `0..upto` fire when ticked by `elapsed`.
pub open spec fn spec_fired_count(timers: Seq<Option<CoreTimer>>, elapsed: u64, upto: int) -> int
    decreases upto,
{
    if upto <= 0 {
        0
    } else {
        spec_fired_count(timers, elapsed, upto - 1) + if spec_tick_one(
            timers[upto - 1],
            elapsed,
        ).1 {
            1int
        } else {
            0int
        }
    }
}

/// The timer slots and the pending buffer after ticking every timer id from
/// `i` upward, in declaration order. A fired id is pushed onto the front of
/// the pending buffer.
pub open spec fn spec_tick(
    timers: Seq<Option<CoreTimer>>,
    pending: Seq<usize>,
    elapsed: u64,
    i: int,
) -> (Seq<Option<CoreTimer>>, Seq<usize>)
    decreases timers.len() - i,
{
    if i < 0 || i >= timers.len() {
        (timers, pending)
    } else {
        let (slot, fired) = spec_tick_one(timers[i], elapsed);
        let pending2 = if fired {
            seq![i as usize] + pending
        } else {
            pending
        };
        spec_tick(timers.update(i, slot), pending2, elapsed, i + 1)
    }
}

/// The pending buffer never overflows during a tick: before each timer id is
/// visited, the buffer must not be full. Exceeding the fixed capacity is a
/// configuration error, excluded by the contract of `tick` rather than
/// handled at run time.
pub open spec fn tick_fits(timers: Seq<Option<CoreTimer>>, pending: Seq<usize>, elapsed: u64) -> bool {
    timers.len() == 0 || pending.len() + spec_fired_count(timers, elapsed, timers.len() - 1) < 16
}

/// The timer subsystem: one optional countdown per declared timer id, and
/// the bounded list of ids that have fired and not yet been served.
pub struct TimersCore {
    timers: Vec<Option<CoreTimer>>,
    pending: PendingBuffer,
}

impl TimersCore {
    /// The armed state of every declared timer id.
    pub closed spec fn timers_seq(self) -> Seq<Option<CoreTimer>> {
        self.timers@
    }

    /// The fired ids not yet served, front first; `get_triggered_timer`
    /// serves from the back.
    pub closed spec fn pending_view(self) -> Seq<usize> {
        pending_seq(self.pending)
    }

    /// A fresh subsystem for `count` declared timer ids, none armed, none
    /// pending.
    pub fn new(count: usize) -> (t: Self)
        ensures
            t.timers_seq() == Seq::new(count as nat, |i: int| None::<CoreTimer>),
            t.pending_view() == Seq::<usize>::empty(),
    {
        let timers: Vec<Option<CoreTimer>> = vec![None; count];
        TimersCore { timers, pending: pending_new() }
    }

    /// How many fired ids wait to be served.
    pub fn pending_count(&self) -> (n: usize)
        ensures
            n == self.pending_view().len(),
    {
        crate::pending::pending_len(&self.pending)
    }

    /// How many timer ids are declared.
    pub fn timer_count(&self) -> (n: usize)
        ensures
            n == self.timers_seq().len(),
    {
        self.timers.len()
    }

    /// Cancels any existing timer at `id` (idempotent re-arm), then installs
    /// the declared countdown if the settings are enabled.
    pub fn create(&mut self, id: usize, settings: &TimerSettings) -> (r: FsmResult<()>)
        requires
            id < old(self).timers_seq().len(),
        ensures
            r is Ok,
            final(self).timers_seq() == old(self).timers_seq().update(
                id as int,
                spec_create(*settings),
            ),
            final(self).pending_view() == old(self).pending_view(),
    {
        if settings.enabled {
            if settings.renew {
                self.timers.set(
                    id,
                    Some(
                        CoreTimer::Interval {
                            time_remaining: settings.timeout,
                            interval: settings.timeout,
                        },
                    ),
                );
            } else {
                self.timers.set(
                    id,
                    Some(CoreTimer::Timeout { time_remaining: settings.timeout }),
                );
            }
        } else {
            self.timers.set(id, None);
        }
        Ok(())
    }

    /// Clears the timer at `id`.
    pub fn cancel(&mut self, id: usize) -> (r: FsmResult<()>)
        requires
            id < old(self).timers_seq().len(),
        ensures
            r is Ok,
            final(self).timers_seq() == old(self).timers_seq().update(id as int, None::<CoreTimer>),
            final(self).pending_view() == old(self).pending_view(),
    {
        self.timers.set(id, None);
        Ok(())
    }

    /// Ticks every declared timer id in declaration order by the elapsed
    /// duration. Fired ids are pushed onto the pending buffer; a one-shot
    /// timer clears, a renewing timer re-arms to its interval.
    pub fn tick(&mut self, elapsed: u64)
        requires
            tick_fits(old(self).timers_seq(), old(self).pending_view(), elapsed),
        ensures
            (final(self).timers_seq(), final(self).pending_view()) == spec_tick(
                old(self).timers_seq(),
                old(self).pending_view(),
                elapsed,
                0,
            ),
    {
        let n = self.timers.len();
        let mut i: usize = 0;
        while i < n
            invariant
                n == self.timers@.len(),
                n == old(self).timers_seq().len(),
                i <= n,
                spec_tick(old(self).timers_seq(), old(self).pending_view(), elapsed, 0)
                    == spec_tick(self.timers@, pending_seq(self.pending), elapsed, i as int),
                forall|j: int| i <= j < n ==> self.timers@[j] == old(self).timers_seq()[j],
                pending_seq(self.pending).len() == old(self).pending_view().len()
                    + spec_fired_count(old(self).timers_seq(), elapsed, i as int),
                tick_fits(old(self).timers_seq(), old(self).pending_view(), elapsed),
            decreases n - i,
        {
            proof {
                lemma_fired_count_monotone(old(self).timers_seq(), elapsed, i as int, n - 1);
            }
            match self.timers[i] {
                Some(CoreTimer::Timeout { time_remaining }) => {
                    if time_remaining <= elapsed {
                        let ok = pending_push_front(&mut self.pending, i);
                        assert(ok);
                        self.timers.set(i, None);
                    } else {
                        self.timers.set(
                            i,
                            Some(CoreTimer::Timeout { time_remaining: time_remaining - elapsed }),
                        );
                    }
                },
                Some(CoreTimer::Interval { time_remaining, interval }) => {
                    if time_remaining <= elapsed {
                        let ok = pending_push_front(&mut self.pending, i);
                        assert(ok);
                        self.timers.set(
                            i,
                            Some(CoreTimer::Interval { time_remaining: interval, interval }),
                        );
                    } else {
                        self.timers.set(
                            i,
                            Some(
                                CoreTimer::Interval {
                                    time_remaining: time_remaining - elapsed,
                                    interval,
                                },
                            ),
                        );
                    }
                },
                None => {
                    self.timers.set(i, None);
                },
            }
            i = i + 1;
        }
    }

    /// Pops one pending fired id, if any. Every id that fired is returned
    /// exactly once per firing.
    pub fn get_triggered_timer(&mut self) -> (r: Option<usize>)
        ensures
            final(self).timers_seq() == old(self).timers_seq(),
            old(self).pending_view().len() == 0 ==> r is None && final(self).pending_view() == old(
                self,
            ).pending_view(),
            old(self).pending_view().len() > 0 ==> r == Some(old(self).pending_view().last())
                && final(self).pending_view() == old(self).pending_view().drop_last(),
    {
        pending_pop_back(&mut self.pending)
    }
}

/// A tick changes no timer slot's existence, only its countdown: the slot
/// sequence keeps its length.
pub proof fn lemma_spec_tick_len(
    timers: Seq<Option<CoreTimer>>,
    pending: Seq<usize>,
    elapsed: u64,
    i: int,
)
    ensures
        spec_tick(timers, pending, elapsed, i).0.len() == timers.len(),
        spec_tick(timers, pending, elapsed, i).1.len() >= pending.len(),
    decreases timers.len() - i,
{
    if 0 <= i < timers.len() {
        let slot = spec_tick_one(timers[i], elapsed).0;
        let fired = spec_tick_one(timers[i], elapsed).1;
        let pending2 = if fired {
            seq![i as usize] + pending
        } else {
            pending
        };
        lemma_spec_tick_len(timers.update(i, slot), pending2, elapsed, i + 1);
    }
}

/// Visiting more timer ids can only fire more timers.
pub proof fn lemma_fired_count_monotone(
    timers: Seq<Option<CoreTimer>>,
    elapsed: u64,
    a: int,
    b: int,
)
    requires
        a <= b,
    ensures
        spec_fired_count(timers, elapsed, a) <= spec_fired_count(timers, elapsed, b),
    decreases b - a,
{
    if a < b {
        lemma_fired_count_monotone(timers, elapsed, a, b - 1);
    }
}

} // verus!
