//! Laws of the detection machine: what holds of every step and of every
//! run.

use vstd::prelude::*;
use crate::addr::SocketAddress;
use crate::multicast::{BindError, SocketStep};
use crate::orchestrator::{ActionView, EventView, Fatal, Machine, Phase};
use crate::prober::{reachable, AttemptView};

verus! {

/// The state after the machine has taken the events in order.
pub open spec fn run(m: Machine, events: Seq<EventView>) -> Machine
    decreases events.len(),
{
    if events.len() == 0 {
        m
    } else {
        run(m, events.drop_last()).next(events.last()).0
    }
}

/// What the machine asked for at each step of a run.
pub open spec fn asked(m: Machine, events: Seq<EventView>) -> Seq<Option<ActionView>>
    decreases events.len(),
{
    if events.len() == 0 {
        Seq::empty()
    } else {
        asked(m, events.drop_last()).push(run(m, events.drop_last()).next(events.last()).1)
    }
}

/// How the machine classified each attempt that it had asked for, in order.
pub open spec fn observed(m: Machine, events: Seq<EventView>) -> Seq<bool>
    decreases events.len(),
{
    if events.len() == 0 {
        Seq::empty()
    } else {
        let before = run(m, events.drop_last());
        let earlier = observed(m, events.drop_last());
        match (before.pending, events.last()) {
            (ActionView::Probe, EventView::Probed(attempt)) => earlier.push(
                reachable(before.timeout, attempt),
            ),
            _ => earlier,
        }
    }
}

/// How often `action` was asked for.
pub open spec fn count(asked: Seq<Option<ActionView>>, action: ActionView) -> nat
    decreases asked.len(),
{
    if asked.len() == 0 {
        0
    } else {
        count(asked.drop_last(), action) + if asked.last() == Some(action) {
            1nat
        } else {
            0nat
        }
    }
}

/// How often a classification follows the opposite one as reachable: the
/// number of times the device was seen to come on.
pub open spec fn rising_edges(seen: Seq<bool>) -> nat
    decreases seen.len(),
{
    if seen.len() < 2 {
        0
    } else {
        rising_edges(seen.drop_last()) + if !seen[seen.len() - 2] && seen.last() {
            1nat
        } else {
            0nat
        }
    }
}

/// A liveness state as the classifications seen so far: none, or one.
pub open spec fn seen(alive: Option<bool>) -> Seq<bool> {
    match alive {
        Some(b) => seq![b],
        None => Seq::empty(),
    }
}

/// The latest of some classifications.
pub open spec fn latest(seen: Seq<bool>) -> Option<bool> {
    if seen.len() == 0 {
        None
    } else {
        Some(seen.last())
    }
}

/// The triggers that a state still owes: one where the device is confirmed
/// on and the machine waits for the wake listener to close before it fires.
pub open spec fn owed(m: Machine) -> nat {
    if m.phase == Phase::AwaitingOn && m.pending is Release && m.alive == Some(true) {
        1
    } else {
        0
    }
}

/// Every step leaves the machine in a state that a machine can be in.
pub proof fn law_step_stays_valid(m: Machine, event: EventView)
    requires
        m.inv(),
    ensures
        m.next(event).0.inv(),
{
}

/// Every run leaves the machine in a state that a machine can be in.
pub proof fn law_run_stays_valid(m: Machine, events: Seq<EventView>)
    requires
        m.inv(),
    ensures
        run(m, events).inv(),
    decreases events.len(),
{
    if events.len() > 0 {
        law_run_stays_valid(m, events.drop_last());
        law_step_stays_valid(run(m, events.drop_last()), events.last());
    }
}

/// The poll interval floor. While the machine polls and an attempt does not
/// show the awaited state, the machine stays in its phase and the next
/// attempt starts no sooner than one timeout after this one started: the
/// machine asks for a pause that fills the timeout, and probes again when
/// the pause is over; it probes at once only where the attempt itself took
/// the timeout or longer.
pub proof fn law_poll_interval_floor(m: Machine, attempt: AttemptView)
    requires
        m.pending is Probe,
        m.phase == Phase::AwaitingOff && reachable(m.timeout, attempt) || m.phase
            == Phase::AwaitingOn && !m.listening && !reachable(m.timeout, attempt),
    ensures
        ({
            let (after, action) = m.next(EventView::Probed(attempt));
            &&& after.phase == m.phase
            &&& if attempt.elapsed < m.timeout {
                &&& action == Some(ActionView::Sleep((m.timeout - attempt.elapsed) as nat))
                &&& after.next(EventView::Slept) == after.ask(ActionView::Probe)
            } else {
                action == Some(ActionView::Probe)
            }
        }),
{
}

/// The time that a run took at the least: the time of each attempt that the
/// machine had asked for, and each pause that it had asked for and that is
/// over.
pub open spec fn time_spent(m: Machine, events: Seq<EventView>) -> nat
    decreases events.len(),
{
    if events.len() == 0 {
        0
    } else {
        let before = run(m, events.drop_last());
        time_spent(m, events.drop_last()) + match (before.pending, events.last()) {
            (ActionView::Probe, EventView::Probed(attempt)) => attempt.elapsed,
            (ActionView::Sleep(pause), EventView::Slept) => pause,
            _ => 0,
        }
    }
}

/// The pause that a state still waits for.
pub open spec fn pause_due(m: Machine) -> nat {
    match m.pending {
        ActionView::Sleep(pause) => pause,
        _ => 0,
    }
}

/// Polling is never faster than one attempt per timeout. While the machine
/// polls and no attempt shows the awaited state, the machine stays in its
/// phase, and the attempts made so far took one timeout each at the least,
/// the pause counted that the machine is still waiting for.
pub proof fn law_polling_takes_a_timeout_per_attempt(m: Machine, events: Seq<EventView>)
    requires
        m.pending is Probe,
        m.phase == Phase::AwaitingOff || m.phase == Phase::AwaitingOn && !m.listening,
        forall|i: int|
            0 <= i < observed(m, events).len() ==> observed(m, events)[i] == (m.phase
                == Phase::AwaitingOff),
    ensures
        run(m, events).phase == m.phase,
        run(m, events).listening == m.listening,
        run(m, events).pending is Probe || run(m, events).pending is Sleep,
        time_spent(m, events) + pause_due(run(m, events)) >= observed(m, events).len()
            * m.timeout,
    decreases events.len(),
{
    if events.len() > 0 {
        let front = events.drop_last();
        let before = run(m, front);
        let earlier = observed(m, front);
        assert forall|i: int| 0 <= i < earlier.len() implies earlier[i] == (m.phase
            == Phase::AwaitingOff) by {
            assert(earlier[i] == observed(m, events)[i]);
        }
        law_polling_takes_a_timeout_per_attempt(m, front);
        law_settings_are_kept(m, front);
        match (before.pending, events.last()) {
            (ActionView::Probe, EventView::Probed(attempt)) => {
                let all = observed(m, events);
                assert(all.last() == reachable(before.timeout, attempt));
                assert(all[all.len() - 1] == (m.phase == Phase::AwaitingOff));
                assert(all.len() * m.timeout == earlier.len() * m.timeout + m.timeout)
                    by (nonlinear_arith)
                    requires
                        all.len() == earlier.len() + 1,
                ;
            },
            _ => {},
        }
    }
}

/// No step changes the timeout, the device's address or whether a wake
/// listener is configured.
pub proof fn law_settings_are_kept(m: Machine, events: Seq<EventView>)
    ensures
        run(m, events).timeout == m.timeout,
        run(m, events).device_ip == m.device_ip,
        run(m, events).wake == m.wake,
    decreases events.len(),
{
    if events.len() > 0 {
        law_settings_are_kept(m, events.drop_last());
    }
}

/// The liveness state is the latest classification: after every run it is
/// how the last attempt that the machine asked for was classified.
pub proof fn law_liveness_is_latest(m: Machine, events: Seq<EventView>)
    ensures
        run(m, events).alive == latest(seen(m.alive) + observed(m, events)),
    decreases events.len(),
{
    if events.len() == 0 {
        assert(seen(m.alive) + observed(m, events) == seen(m.alive));
    } else {
        law_liveness_is_latest(m, events.drop_last());
        let before = run(m, events.drop_last());
        let earlier = observed(m, events.drop_last());
        match (before.pending, events.last()) {
            (ActionView::Probe, EventView::Probed(attempt)) => {
                let c = reachable(before.timeout, attempt);
                assert(seen(m.alive) + earlier.push(c) == (seen(m.alive) + earlier).push(c));
            },
            _ => {},
        }
    }
}

/// No double fire and no missed fire. Over every run from a valid state,
/// the triggers asked for, with the one that the final state may still owe,
/// are as many as the times the device was seen to come on, with the one
/// that the first state owed.
pub proof fn law_one_trigger_per_rising_edge(m: Machine, events: Seq<EventView>)
    requires
        m.inv(),
    ensures
        count(asked(m, events), ActionView::Trigger) + owed(run(m, events)) == owed(m)
            + rising_edges(seen(m.alive) + observed(m, events)),
    decreases events.len(),
{
    if events.len() == 0 {
        assert(seen(m.alive) + observed(m, events) == seen(m.alive));
    } else {
        let front = events.drop_last();
        law_one_trigger_per_rising_edge(m, front);
        law_liveness_is_latest(m, front);
        law_run_stays_valid(m, front);
        let before = run(m, front);
        let earlier = observed(m, front);
        assert(asked(m, events).drop_last() == asked(m, front));
        match (before.pending, events.last()) {
            (ActionView::Probe, EventView::Probed(attempt)) => {
                let c = reachable(before.timeout, attempt);
                let all = (seen(m.alive) + earlier).push(c);
                assert(seen(m.alive) + earlier.push(c) == all);
                assert(all.drop_last() == seen(m.alive) + earlier);
            },
            _ => {},
        }
    }
}

/// From startup, the triggers asked for are as many as the times the device
/// was seen to come on; only while the wake listener is closing is the
/// latest one still to come.
pub proof fn law_triggers_from_startup(m: Machine, events: Seq<EventView>)
    requires
        m.inv(),
        m.phase == Phase::Starting,
        m.alive is None,
    ensures
        count(asked(m, events), ActionView::Trigger) + owed(run(m, events)) == rising_edges(
            observed(m, events),
        ),
{
    law_one_trigger_per_rising_edge(m, events);
    assert(seen(m.alive) + observed(m, events) == observed(m, events));
}

/// A trigger is asked for only in the phase that waits for the device to
/// come on, and only when the latest attempt found it reachable.
pub proof fn law_trigger_needs_confirmation(m: Machine, event: EventView)
    requires
        m.inv(),
        m.next(event).1 == Some(ActionView::Trigger),
    ensures
        m.phase == Phase::AwaitingOn,
        m.next(event).0.phase == Phase::AwaitingOn,
        m.next(event).0.alive == Some(true),
{
}

/// Whatever a run of the trigger command came to, the machine goes on to
/// wait for the device to go off.
pub proof fn law_trigger_result_is_ignored(m: Machine, event: EventView)
    requires
        m.pending is Trigger,
        event is Triggered,
    ensures
        m.next(event) == m.enter_off(),
        m.next(event).0.phase == Phase::AwaitingOff,
        m.next(event).1 == Some(ActionView::Probe),
{
}

/// The events of datagrams: one for each length and sender.
pub open spec fn datagrams(arrivals: Seq<(usize, SocketAddress)>) -> Seq<EventView> {
    Seq::new(
        arrivals.len(),
        |i: int| EventView::Datagram { len: arrivals[i].0, from: arrivals[i].1 },
    )
}

/// Datagrams from other senders than the device change nothing: after any
/// number of them the machine is in the state it was in, and each time it
/// has only asked to receive again.
pub proof fn law_foreign_datagrams_change_nothing(
    m: Machine,
    arrivals: Seq<(usize, SocketAddress)>,
)
    requires
        m.pending is Receive,
        forall|i: int| 0 <= i < arrivals.len() ==> (#[trigger] arrivals[i]).1.spec_ip()
            != m.device_ip,
    ensures
        run(m, datagrams(arrivals)) == m,
        asked(m, datagrams(arrivals)).len() == arrivals.len(),
        forall|i: int|
            0 <= i < arrivals.len() ==> #[trigger] asked(m, datagrams(arrivals))[i] == Some(
                ActionView::Receive,
            ),
    decreases arrivals.len(),
{
    let events = datagrams(arrivals);
    if arrivals.len() > 0 {
        let front = arrivals.drop_last();
        law_foreign_datagrams_change_nothing(m, front);
        assert(events.drop_last() == datagrams(front));
        assert(events.last() == EventView::Datagram {
            len: arrivals.last().0,
            from: arrivals.last().1,
        });
        assert(arrivals.last().1.spec_ip() != m.device_ip);
        assert(m.next(events.last()).0 == m);
        assert forall|i: int| 0 <= i < arrivals.len() implies #[trigger] asked(m, events)[i]
            == Some(ActionView::Receive) by {
            if i < front.len() {
                assert(asked(m, events)[i] == asked(m, datagrams(front))[i]);
            }
        }
    }
}

/// A datagram from the device makes the machine ask for exactly one probe:
/// nothing else in its state changes.
pub proof fn law_peer_datagram_asks_one_probe(m: Machine, len: usize, from: SocketAddress)
    requires
        m.pending is Receive,
        from.spec_ip() == m.device_ip,
    ensures
        m.next(EventView::Datagram { len, from }) == m.ask(ActionView::Probe),
{
}

/// A malformed device address leaves no machine, so that nothing is ever
/// asked for, whatever else the settings hold.
pub proof fn law_invalid_address_starts_nothing(
    timeout: nat,
    wake: Option<Result<Seq<SocketStep>, BindError>>,
)
    ensures
        Machine::startup(timeout, None, wake) == Err::<(Machine, ActionView), Fatal>(
            Fatal::InvalidDeviceAddress,
        ),
{
}

/// Only startup can stop the machine: past it, no step asks to stop, so the
/// machine runs for as long as it is given events.
pub proof fn law_stops_only_at_startup(m: Machine, event: EventView)
    requires
        m.phase != Phase::Starting,
        !(m.pending is Stop),
    ensures
        !(m.next(event).0.pending is Stop),
        !(m.next(event).1 matches Some(ActionView::Stop(_))),
        m.next(event).0.phase != Phase::Starting,
{
}

/// A machine that has stopped stays as it is and asks for nothing more.
pub proof fn law_stopped_machine_asks_nothing(m: Machine, events: Seq<EventView>)
    requires
        m.pending is Stop,
    ensures
        run(m, events) == m,
        asked(m, events).len() == events.len(),
        forall|i: int| 0 <= i < events.len() ==> #[trigger] asked(m, events)[i] is None,
    decreases events.len(),
{
    if events.len() > 0 {
        let front = events.drop_last();
        law_stopped_machine_asks_nothing(m, front);
        assert forall|i: int| 0 <= i < events.len() implies #[trigger] asked(m, events)[i]
            is None by {
            if i < front.len() {
                assert(asked(m, events)[i] == asked(m, front)[i]);
            }
        }
    }
}

} // verus!
