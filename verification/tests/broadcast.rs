use bit_grid::broadcast::{drained, step, Action, Event, Phase};
use bit_grid::state::PointQueue;

#[test]
fn tick_starts_a_drain() {
    assert_eq!(step(Phase::Idle, Event::Tick), (Phase::Draining, Action::Drain));
}

#[test]
fn empty_drain_skips_publishing() {
    assert_eq!(
        step(Phase::Draining, Event::Drained { anything: false }),
        (Phase::Idle, Action::Wait)
    );
}

#[test]
fn full_cycle_with_delivery() {
    let (phase, action) = step(Phase::Idle, Event::Tick);
    assert_eq!(action, Action::Drain);
    let (phase, action) = step(phase, Event::Drained { anything: true });
    assert_eq!((phase, action), (Phase::Publishing, Action::Serialize));
    let (phase, action) = step(phase, Event::Serialized { ok: true });
    assert_eq!((phase, action), (Phase::Publishing, Action::Send));
    let (phase, action) = step(phase, Event::Sent { ok: true });
    assert_eq!((phase, action), (Phase::Idle, Action::Wait));
    assert_eq!(step(phase, Event::Tick), (Phase::Draining, Action::Drain));
}

#[test]
fn failures_end_the_cycle_without_stopping_the_announcer() {
    assert_eq!(
        step(Phase::Publishing, Event::Serialized { ok: false }),
        (Phase::Idle, Action::Wait)
    );
    assert_eq!(step(Phase::Publishing, Event::Sent { ok: false }), (Phase::Idle, Action::Report));
    assert_eq!(step(Phase::Idle, Event::Tick), (Phase::Draining, Action::Drain));
}

#[test]
fn events_out_of_place_are_passed_over() {
    assert_eq!(step(Phase::Idle, Event::Sent { ok: true }), (Phase::Idle, Action::Wait));
    assert_eq!(step(Phase::Idle, Event::Drained { anything: true }), (Phase::Idle, Action::Wait));
    assert_eq!(step(Phase::Draining, Event::Tick), (Phase::Draining, Action::Wait));
    assert_eq!(
        step(Phase::Draining, Event::Serialized { ok: true }),
        (Phase::Draining, Action::Wait)
    );
    assert_eq!(step(Phase::Publishing, Event::Tick), (Phase::Publishing, Action::Wait));
    assert_eq!(
        step(Phase::Publishing, Event::Drained { anything: true }),
        (Phase::Publishing, Action::Wait)
    );
}

#[test]
fn drained_tells_whether_anything_was_pending() {
    let mut queue = PointQueue::new();
    assert_eq!(drained(&queue.drain()), Event::Drained { anything: false });
    queue.record(3, true);
    assert_eq!(drained(&queue.drain()), Event::Drained { anything: true });
    queue.record(4, false);
    assert_eq!(drained(&queue.drain()), Event::Drained { anything: true });
    queue.record(4, false);
    queue.record(4, true);
    assert_eq!(drained(&queue.drain()), Event::Drained { anything: false });
}
