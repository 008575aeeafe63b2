//! What holds of every run of the heartbeat: one ping for each sleep, in
//! strict alternation, whatever the pings come to.

use crate::outcome::PingOutcomeView;
use crate::schedule::{ActionView, EventView, HeartbeatView, Phase};
use vstd::prelude::*;

verus! {

/// The action owed after `n` events in turn from a fresh start: a ping of the
/// healthy address after an even number, a sleep of the interval after an odd
/// one.
pub open spec fn owed_after(start: HeartbeatView, n: nat) -> ActionView {
    if n % 2 == 0 {
        ActionView::Ping { url: start.base }
    } else {
        ActionView::Sleep { secs: start.interval }
    }
}

/// How many of `events` report a ping.
pub open spec fn pings_among(events: Seq<EventView>) -> nat
    decreases events.len(),
{
    if events.len() == 0 {
        0
    } else {
        pings_among(events.drop_last()) + if events.last() is Pinged {
            1nat
        } else {
            0nat
        }
    }
}

/// How many of `events` report a sleep.
pub open spec fn sleeps_among(events: Seq<EventView>) -> nat
    decreases events.len(),
{
    if events.len() == 0 {
        0
    } else {
        sleeps_among(events.drop_last()) + if events.last() is Slept {
            1nat
        } else {
            0nat
        }
    }
}

impl HeartbeatView {
    /// The heartbeat after all of `events`, taken in order.
    pub open spec fn after(self, events: Seq<EventView>) -> HeartbeatView
        decreases events.len(),
    {
        if events.len() == 0 {
            self
        } else {
            self.after(events.drop_last()).next(events.last())
        }
    }

    /// Whether each of `events` answers the action that is owed when it
    /// arrives: what a driver reports that does what it is asked.
    pub open spec fn in_turn(self, events: Seq<EventView>) -> bool
        decreases events.len(),
    {
        events.len() == 0 || (self.in_turn(events.drop_last()) && self.after(
            events.drop_last(),
        ).accepts(events.last()))
    }

    /// Seconds of sleep that `events` account for: the interval for each sleep
    /// reported in turn. With pings that take no time, this is the time that
    /// has passed since the start.
    pub open spec fn secs_asleep(self, events: Seq<EventView>) -> nat
        decreases events.len(),
    {
        if events.len() == 0 {
            0
        } else {
            let before = self.after(events.drop_last());
            self.secs_asleep(events.drop_last()) + if events.last() is Slept && before.accepts(
                events.last(),
            ) {
                before.interval as nat
            } else {
                0nat
            }
        }
    }
}

/// Events never change where the heartbeat pings nor how long it sleeps.
pub proof fn lemma_configuration_is_kept(start: HeartbeatView, events: Seq<EventView>)
    ensures
        start.after(events).base == start.base,
        start.after(events).interval == start.interval,
    decreases events.len(),
{
    if events.len() > 0 {
        lemma_configuration_is_kept(start, events.drop_last());
    }
}

/// Every beginning of a run in turn is a run in turn.
pub proof fn lemma_in_turn_prefix(start: HeartbeatView, events: Seq<EventView>, k: int)
    requires
        start.in_turn(events),
        0 <= k <= events.len(),
    ensures
        start.in_turn(events.take(k)),
    decreases events.len(),
{
    if k < events.len() {
        lemma_in_turn_prefix(start, events.drop_last(), k);
        assert(events.drop_last().take(k) =~= events.take(k));
    } else {
        assert(events.take(k) =~= events);
    }
}

/// Exactly one ping for each sleep. In a run in turn from a fresh start the
/// events alternate, a ping first; so the pings reported are as many as the
/// sleeps, or one more while a sleep is owed, and the heartbeat owes a ping of
/// the base address after an even number of events and a sleep of the whole
/// interval after an odd one.
pub proof fn lemma_one_ping_per_sleep(start: HeartbeatView, events: Seq<EventView>)
    requires
        start.phase == Phase::Due,
        start.in_turn(events),
    ensures
        forall|i: int| 0 <= i < events.len() ==> (#[trigger] events[i] is Pinged <==> i % 2 == 0),
        forall|i: int| 0 <= i < events.len() ==> (#[trigger] events[i] is Slept <==> i % 2 == 1),
        pings_among(events) == (events.len() + 1) / 2,
        sleeps_among(events) == events.len() / 2,
        start.after(events).action() == owed_after(start, events.len()),
        start.after(events).phase == if events.len() % 2 == 0 {
            Phase::Due
        } else {
            Phase::Resting
        },
    decreases events.len(),
{
    if events.len() > 0 {
        let earlier = events.drop_last();
        lemma_one_ping_per_sleep(start, earlier);
        lemma_configuration_is_kept(start, earlier);
        lemma_configuration_is_kept(start, events);
        assert forall|i: int| 0 <= i < events.len() implies (#[trigger] events[i] is Pinged <==> i
            % 2 == 0) by {
            if i < earlier.len() {
                assert(events[i] == earlier[i]);
            }
        }
        assert forall|i: int| 0 <= i < events.len() implies (#[trigger] events[i] is Slept <==> i
            % 2 == 1) by {
            if i < earlier.len() {
                assert(events[i] == earlier[i]);
            }
        }
    }
}

/// At every point of a run in turn from a fresh start, the action owed is a
/// ping of the base address or a sleep of the whole interval, by turns.
pub proof fn lemma_actions_alternate(start: HeartbeatView, events: Seq<EventView>, k: int)
    requires
        start.phase == Phase::Due,
        start.in_turn(events),
        0 <= k <= events.len(),
    ensures
        start.after(events.take(k)).action() == owed_after(start, k as nat),
{
    lemma_in_turn_prefix(start, events, k);
    lemma_one_ping_per_sleep(start, events.take(k));
}

/// A failed ping stops nothing. Whatever a ping in turn came to, the
/// heartbeat then owes a sleep of the whole interval, as it would after any
/// other outcome, and after that sleep it is where it was: it owes the same
/// ping again.
pub proof fn lemma_failure_is_not_carried_over(
    start: HeartbeatView,
    outcome: PingOutcomeView,
    other: PingOutcomeView,
)
    requires
        start.phase == Phase::Due,
    ensures
        start.accepts(EventView::Pinged(outcome)),
        start.next(EventView::Pinged(outcome)).action() == (ActionView::Sleep {
            secs: start.interval,
        }),
        start.next(EventView::Pinged(outcome)) == start.next(EventView::Pinged(other)),
        start.next(EventView::Pinged(outcome)).next(EventView::Slept) == start,
        start.next(EventView::Pinged(outcome)).next(EventView::Slept).action()
            == (ActionView::Ping { url: start.base }),
{
}

/// Pings are spaced by exactly the interval. In a run in turn from a fresh
/// start, with pings that take no time, the ping owed after `2 * n` events
/// falls due `n` whole intervals after the start.
pub proof fn lemma_pings_are_one_interval_apart(start: HeartbeatView, events: Seq<EventView>)
    requires
        start.phase == Phase::Due,
        start.in_turn(events),
    ensures
        start.secs_asleep(events) == (events.len() / 2) * start.interval,
        start.secs_asleep(events) == sleeps_among(events) * start.interval,
    decreases events.len(),
{
    if events.len() > 0 {
        let earlier = events.drop_last();
        lemma_pings_are_one_interval_apart(start, earlier);
        lemma_one_ping_per_sleep(start, earlier);
        lemma_one_ping_per_sleep(start, events);
        lemma_configuration_is_kept(start, earlier);
        let halves: nat = earlier.len() / 2;
        let interval: nat = start.interval as nat;
        if events.last() is Slept {
            assert(events.len() / 2 == halves + 1);
            assert((halves + 1) * interval == halves * interval + interval) by (nonlinear_arith);
        } else {
            assert(events.len() / 2 == halves);
        }
    }
}

} // verus!
