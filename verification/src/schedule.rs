//! The heartbeat loop as a state machine: what to do next, and what follows
//! from what happened.
//!
//! The machine owes its driver one action at a time, a ping or a sleep. The
//! driver performs it and reports the matching event; the machine then owes
//! the other action. Nothing that a ping comes to changes that order.
//!
//! The loop only ever signals that the process is healthy. The failure
//! address exists ([`crate::endpoint::ping_url`] builds it), but nothing here
//! decides yet when a failure is to be signalled.

use crate::endpoint::{ping_target, ping_url, BASE_HEALTH_URL, UPDATE_FREQ};
use crate::outcome::{log_line, report, LogLine, LogLineView, PingOutcome, PingOutcomeView};
use vstd::prelude::*;
use vstd::string::*;

verus! {

/// Which action the heartbeat owes.
#[derive(Clone, Copy, Debug, PartialEq, Eq, Structural)]
pub enum Phase {
    /// A ping is owed.
    Due,
    /// A sleep is owed.
    Resting,
}

/// What the driver is asked to do.
#[derive(Clone, Debug, PartialEq, Eq)]
pub enum Action {
    /// Send one HTTP GET request to `url`.
    Ping { url: String },
    /// Sleep for `secs` seconds.
    Sleep { secs: u64 },
}

/// An [`Action`] with its address as a sequence of characters.
pub enum ActionView {
    Ping { url: Seq<char> },
    Sleep { secs: u64 },
}

impl View for Action {
    type V = ActionView;

    open spec fn view(&self) -> ActionView {
        match *self {
            Action::Ping { url } => ActionView::Ping { url: url@ },
            Action::Sleep { secs } => ActionView::Sleep { secs },
        }
    }
}

/// What the driver reports back.
#[derive(Clone, Debug, PartialEq, Eq)]
pub enum Event {
    /// The ping was attempted and ended as given.
    Pinged(PingOutcome),
    /// The sleep is over.
    Slept,
}

/// An [`Event`] over the view of its outcome.
pub enum EventView {
    Pinged(PingOutcomeView),
    Slept,
}

impl View for Event {
    type V = EventView;

    open spec fn view(&self) -> EventView {
        match *self {
            Event::Pinged(outcome) => EventView::Pinged(outcome@),
            Event::Slept => EventView::Slept,
        }
    }
}

/// An event that does not answer the action owed: a sleep reported while a
/// ping was owed, or a ping while a sleep was.
#[derive(Clone, Copy, Debug, PartialEq, Eq, Structural)]
pub struct OutOfTurn;

/// The heartbeat as a value: where it pings, how long it sleeps, and which
/// of the two it owes.
pub struct HeartbeatView {
    pub base: Seq<char>,
    pub interval: u64,
    pub phase: Phase,
}

impl HeartbeatView {
    /// The action owed: a ping of the healthy address when one is due, a sleep
    /// of the whole interval otherwise.
    pub open spec fn action(self) -> ActionView {
        match self.phase {
            Phase::Due => ActionView::Ping { url: ping_target(self.base, true) },
            Phase::Resting => ActionView::Sleep { secs: self.interval },
        }
    }

    /// Whether `event` answers the action owed.
    pub open spec fn accepts(self, event: EventView) -> bool {
        match self.phase {
            Phase::Due => event is Pinged,
            Phase::Resting => event is Slept,
        }
    }

    /// The heartbeat after `event`: the other action is owed if the event was
    /// in turn, and nothing has changed if it was not.
    pub open spec fn next(self, event: EventView) -> HeartbeatView {
        if self.accepts(event) {
            HeartbeatView {
                phase: match self.phase {
                    Phase::Due => Phase::Resting,
                    Phase::Resting => Phase::Due,
                },
                ..self
            }
        } else {
            self
        }
    }

    /// The line to log on `event`: one for each ping in turn, none otherwise.
    pub open spec fn logged(self, event: EventView) -> Option<LogLineView> {
        match event {
            EventView::Pinged(outcome) if self.phase == Phase::Due => Some(
                log_line(ping_target(self.base, true), outcome),
            ),
            _ => None,
        }
    }
}

/// The heartbeat loop's state.
#[derive(Clone, Debug, PartialEq, Eq)]
pub struct Heartbeat {
    base: String,
    interval: u64,
    phase: Phase,
}

impl View for Heartbeat {
    type V = HeartbeatView;

    closed spec fn view(&self) -> HeartbeatView {
        HeartbeatView { base: self.base@, interval: self.interval, phase: self.phase }
    }
}

impl Heartbeat {
    /// A heartbeat for the endpoint `base` that sleeps `interval` seconds
    /// between pings. Its first ping is due at once.
    pub fn new(base: &str, interval: u64) -> (heartbeat: Heartbeat)
        ensures
            heartbeat@ == (HeartbeatView { base: base@, interval, phase: Phase::Due }),
    {
        Heartbeat { base: String::from_str(base), interval, phase: Phase::Due }
    }

    /// The heartbeat of this program: the configured endpoint, every ten
    /// minutes.
    pub fn standard() -> (heartbeat: Heartbeat)
        ensures
            heartbeat@ == (HeartbeatView {
                base: BASE_HEALTH_URL@,
                interval: UPDATE_FREQ,
                phase: Phase::Due,
            }),
    {
        Heartbeat::new(BASE_HEALTH_URL, UPDATE_FREQ)
    }

    /// The endpoint's base address.
    pub fn base_url(&self) -> (base: &str)
        ensures
            base@ == self@.base,
    {
        self.base.as_str()
    }

    /// Seconds of sleep between two pings.
    pub fn interval_secs(&self) -> (secs: u64)
        ensures
            secs == self@.interval,
    {
        self.interval
    }

    /// Which action is owed.
    pub fn phase(&self) -> (phase: Phase)
        ensures
            phase == self@.phase,
    {
        self.phase
    }

    /// The action that the driver has to perform now. Asking does not change
    /// the state: the same action is owed until its event is reported.
    pub fn next_action(&self) -> (action: Action)
        ensures
            action@ == self@.action(),
    {
        match self.phase {
            Phase::Due => Action::Ping { url: ping_url(self.base.as_str(), true) },
            Phase::Resting => Action::Sleep { secs: self.interval },
        }
    }

    /// Takes the driver's report of what happened.
    ///
    /// An event in turn moves the heartbeat on to the other action; for a
    /// ping it also yields the line to log, whatever the ping came to. An
    /// event out of turn is refused and changes nothing.
    pub fn advance(&mut self, event: Event) -> (result: Result<Option<LogLine>, OutOfTurn>)
        ensures
            final(self)@ == old(self)@.next(event@),
            result is Ok <==> old(self)@.accepts(event@),
            match result {
                Ok(Some(line)) => old(self)@.accepts(event@) && old(self)@.logged(event@) == Some(
                    line@,
                ),
                Ok(None) => old(self)@.accepts(event@) && old(self)@.logged(event@) is None,
                Err(_) => !old(self)@.accepts(event@),
            },
    {
        match (self.phase, event) {
            (Phase::Due, Event::Pinged(outcome)) => {
                let url = ping_url(self.base.as_str(), true);
                let line = report(url.as_str(), &outcome);
                self.phase = Phase::Resting;
                Ok(Some(line))
            },
            (Phase::Resting, Event::Slept) => {
                self.phase = Phase::Due;
                Ok(None)
            },
            _ => Err(OutOfTurn),
        }
    }
}

} // verus!
