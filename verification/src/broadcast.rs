//! The announcer's cycle: wait, drain the queue, publish what was drained.
//!
//! The announcer itself only decides. Waiting, locking the queue, building
//! the message and handing it to the subscribers are done around it; each
//! result comes back as an event and is answered with the next thing to do.

use crate::state::PointQueue;
use vstd::prelude::*;

verus! {

/// Where the announcer stands in its cycle.
#[derive(Debug, Clone, Copy, PartialEq, Eq, Structural)]
pub enum Phase {
    /// Waiting for the period to elapse.
    Idle,
    /// The pending changes are being taken out of the queue.
    Draining,
    /// The drained changes are on their way to the subscribers.
    Publishing,
}

/// What happened around the announcer.
#[derive(Debug, Clone, Copy, PartialEq, Eq, Structural)]
pub enum Event {
    /// The period has elapsed.
    Tick,
    /// The queue was drained; `anything` tells whether a change was pending.
    Drained { anything: bool },
    /// The drained changes were turned into a message, or could not be.
    Serialized { ok: bool },
    /// The message was handed to the subscribers' channel, or the channel
    /// refused it.
    Sent { ok: bool },
}

/// What is to be done next around the announcer.
#[derive(Debug, Clone, Copy, PartialEq, Eq, Structural)]
pub enum Action {
    /// Wait for the period to elapse.
    Wait,
    /// Take the pending changes out of the queue.
    Drain,
    /// Turn the drained changes into a message.
    Serialize,
    /// Hand the message to the subscribers.
    Send,
    /// Note that the message could not be delivered, then wait for the
    /// period to elapse.
    Report,
}

/// The announcer's rule. A tick while idle starts a drain. An empty drain
/// ends the cycle; anything else is turned into a message. A message that
/// could not be built is dropped and ends the cycle; one that was built is
/// sent. The cycle ends whether or not the sending succeeded. An event that
/// does not belong to the phase is passed over.
pub open spec fn next(phase: Phase, event: Event) -> (Phase, Action) {
    match (phase, event) {
        (Phase::Idle, Event::Tick) => (Phase::Draining, Action::Drain),
        (Phase::Draining, Event::Drained { anything }) => if anything {
            (Phase::Publishing, Action::Serialize)
        } else {
            (Phase::Idle, Action::Wait)
        },
        (Phase::Publishing, Event::Serialized { ok }) => if ok {
            (Phase::Publishing, Action::Send)
        } else {
            (Phase::Idle, Action::Wait)
        },
        (Phase::Publishing, Event::Sent { ok }) => if ok {
            (Phase::Idle, Action::Wait)
        } else {
            (Phase::Idle, Action::Report)
        },
        _ => (phase, Action::Wait),
    }
}

/// The event that an action ends in, given how the work around the
/// announcer turned out.
pub open spec fn outcome_of(action: Action, anything: bool, built: bool, delivered: bool) -> Event {
    match action {
        Action::Wait => Event::Tick,
        Action::Report => Event::Tick,
        Action::Drain => Event::Drained { anything },
        Action::Serialize => Event::Serialized { ok: built },
        Action::Send => Event::Sent { ok: delivered },
    }
}

/// The event that a drain ends in: whether the changes it took out of the
/// queue are any at all.
pub fn drained(pending: &PointQueue) -> (event: Event)
    ensures
        event == (Event::Drained {
            anything: !(pending.on@.is_empty() && pending.off@.is_empty()),
        }),
{
    Event::Drained { anything: !pending.is_empty() }
}

/// One step of the announcer: from the phase it is in and what has just
/// happened to the phase it is in next and what is to be done.
pub fn step(phase: Phase, event: Event) -> (decision: (Phase, Action))
    ensures
        decision == next(phase, event),
        decision.1 == Action::Send ==> phase == Phase::Publishing && event == (Event::Serialized {
            ok: true,
        }),
        decision.1 == Action::Drain ==> phase == Phase::Idle && event == Event::Tick,
{
    match phase {
        Phase::Idle => match event {
            Event::Tick => (Phase::Draining, Action::Drain),
            _ => (Phase::Idle, Action::Wait),
        },
        Phase::Draining => match event {
            Event::Drained { anything } => if anything {
                (Phase::Publishing, Action::Serialize)
            } else {
                (Phase::Idle, Action::Wait)
            },
            _ => (Phase::Draining, Action::Wait),
        },
        Phase::Publishing => match event {
            Event::Serialized { ok } => if ok {
                (Phase::Publishing, Action::Send)
            } else {
                (Phase::Idle, Action::Wait)
            },
            Event::Sent { ok } => if ok {
                (Phase::Idle, Action::Wait)
            } else {
                (Phase::Idle, Action::Report)
            },
            _ => (Phase::Publishing, Action::Wait),
        },
    }
}

/// One whole cycle, however the work around the announcer turns out. A
/// tick starts a drain. An empty drain ends the cycle with nothing sent. A
/// message that cannot be built ends it with nothing sent. A message that
/// was built is sent, and the cycle ends whether or not the channel took it;
/// a refusal is reported. Every ending leaves the announcer idle, and what it
/// then waits for is the tick that starts the next cycle: no failure stops
/// it.
pub proof fn lemma_cycle(anything: bool, built: bool, delivered: bool)
    ensures
        ({
            let s1 = next(Phase::Idle, Event::Tick);
            let s2 = next(s1.0, outcome_of(s1.1, anything, built, delivered));
            let s3 = next(s2.0, outcome_of(s2.1, anything, built, delivered));
            let s4 = next(s3.0, outcome_of(s3.1, anything, built, delivered));
            &&& s1 == (Phase::Draining, Action::Drain)
            &&& !anything ==> s2 == (Phase::Idle, Action::Wait)
            &&& anything ==> s2 == (Phase::Publishing, Action::Serialize)
            &&& anything && !built ==> s3 == (Phase::Idle, Action::Wait)
            &&& anything && built ==> s3 == (Phase::Publishing, Action::Send)
            &&& anything && built && delivered ==> s4 == (Phase::Idle, Action::Wait)
            &&& anything && built && !delivered ==> s4 == (Phase::Idle, Action::Report)
        }),
        outcome_of(Action::Wait, anything, built, delivered) == Event::Tick,
        outcome_of(Action::Report, anything, built, delivered) == Event::Tick,
{
}

} // verus!
