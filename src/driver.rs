//! The decisions of the background I/O driver, as a state machine.
//!
//! The driver owns the socket. Whoever runs it (a task on a thread pool, or a
//! browser event loop) waits for the next [`Event`], hands it to
//! [`Driver::step`] and performs the [`Action`] it returns. The machine goes
//! `Connecting -> Open -> Closed(reason)` and never leaves `Closed`: once
//! there, it asks for no socket operation and forwards nothing. A socket
//! that fails or ends before its handshake completes counts as a failed
//! handshake. A frame that arrives before the handshake is reported done is
//! still forwarded; the outbound queue is read only once the socket is open.
use vstd::prelude::*;

verus! {

/// Why the driver stopped.
#[derive(Clone, Copy, Debug, PartialEq, Eq, Structural)]
pub enum CloseReason {
    /// The opening handshake did not succeed.
    HandshakeFailed,
    /// The socket signalled that no more frames will come.
    TransportEnded,
    /// Reading from the socket failed.
    TransportFailed,
    /// The socket's send primitive reported a failure.
    SendFailed,
    /// The consumer dropped its outbound sender.
    ConsumerGone,
}

/// Where the driver is in its life.
#[derive(Clone, Copy, Debug, PartialEq, Eq, Structural)]
pub enum Phase {
    Connecting,
    Open,
    Closed(CloseReason),
}

/// What the driver learned since its last step.
pub enum Event<M> {
    /// The opening handshake completed.
    HandshakeDone,
    /// The opening handshake failed.
    HandshakeFailed,
    /// The consumer queued a message for the socket.
    Outbound(M),
    /// The consumer's outbound sender is gone and the queue is drained.
    OutboundClosed,
    /// The socket delivered a frame.
    Inbound(M),
    /// Reading from the socket failed.
    InboundFailed,
    /// The socket has no more frames.
    InboundEnded,
    /// Sending on the socket failed.
    SendFailed,
}

/// What the driver asks its runner to do next.
pub enum Action<M> {
    /// Give the message to the socket's send primitive.
    Transmit(M),
    /// Push the message into the consumer's inbound queue.
    Deliver(M),
    /// Nothing to do: wait for the next event.
    Idle,
    /// Leave the loop; perform no further socket operation.
    Stop,
}

/// The driver's state: its phase, and the message to send once the
/// handshake is done, if any is still pending.
pub struct Driver<M> {
    pub phase: Phase,
    pub initial: Option<M>,
}

impl Phase {
    pub open spec fn is_closed(self) -> bool {
        self is Closed
    }
}

impl<M> Event<M> {
    /// Ordinary traffic in either direction, as opposed to a lifecycle event.
    pub open spec fn is_traffic(self) -> bool {
        self is Outbound || self is Inbound
    }
}

/// One step of the machine: the next state and the action for `ev`.
pub open spec fn step_spec<M>(d: Driver<M>, ev: Event<M>) -> (Driver<M>, Action<M>) {
    match d.phase {
        Phase::Connecting => match ev {
            Event::HandshakeDone => (
                Driver { phase: Phase::Open, initial: None },
                match d.initial {
                    Some(m) => Action::Transmit(m),
                    None => Action::Idle,
                },
            ),
            Event::HandshakeFailed | Event::InboundFailed | Event::InboundEnded => (
                Driver { phase: Phase::Closed(CloseReason::HandshakeFailed), initial: None },
                Action::Stop,
            ),
            Event::OutboundClosed => (
                Driver { phase: Phase::Closed(CloseReason::ConsumerGone), initial: None },
                Action::Stop,
            ),
            Event::Inbound(m) => (d, Action::Deliver(m)),
            _ => (d, Action::Idle),
        },
        Phase::Open => match ev {
            Event::Outbound(m) => (d, Action::Transmit(m)),
            Event::Inbound(m) => (d, Action::Deliver(m)),
            Event::OutboundClosed => (
                Driver { phase: Phase::Closed(CloseReason::ConsumerGone), initial: None },
                Action::Stop,
            ),
            Event::InboundFailed => (
                Driver { phase: Phase::Closed(CloseReason::TransportFailed), initial: None },
                Action::Stop,
            ),
            Event::InboundEnded => (
                Driver { phase: Phase::Closed(CloseReason::TransportEnded), initial: None },
                Action::Stop,
            ),
            Event::SendFailed => (
                Driver { phase: Phase::Closed(CloseReason::SendFailed), initial: None },
                Action::Stop,
            ),
            _ => (d, Action::Idle),
        },
        Phase::Closed(_) => (d, Action::Stop),
    }
}

/// Runs the machine over `evs` in order: the final state and the actions,
/// one for each event.
pub open spec fn run<M>(d: Driver<M>, evs: Seq<Event<M>>) -> (Driver<M>, Seq<Action<M>>)
    decreases evs.len(),
{
    if evs.len() == 0 {
        (d, Seq::empty())
    } else {
        let (d1, a) = step_spec(d, evs[0]);
        let (d2, rest) = run(d1, evs.drop_first());
        (d2, seq![a] + rest)
    }
}

/// The messages that the events queue for the socket, in order.
pub open spec fn outbound_of<M>(evs: Seq<Event<M>>) -> Seq<M>
    decreases evs.len(),
{
    if evs.len() == 0 {
        Seq::empty()
    } else {
        let rest = outbound_of(evs.drop_first());
        match evs[0] {
            Event::Outbound(m) => seq![m] + rest,
            _ => rest,
        }
    }
}

/// The frames that the events bring from the socket, in order.
pub open spec fn inbound_of<M>(evs: Seq<Event<M>>) -> Seq<M>
    decreases evs.len(),
{
    if evs.len() == 0 {
        Seq::empty()
    } else {
        let rest = inbound_of(evs.drop_first());
        match evs[0] {
            Event::Inbound(m) => seq![m] + rest,
            _ => rest,
        }
    }
}

/// The messages that the actions give to the socket, in order.
pub open spec fn transmitted<M>(acts: Seq<Action<M>>) -> Seq<M>
    decreases acts.len(),
{
    if acts.len() == 0 {
        Seq::empty()
    } else {
        let rest = transmitted(acts.drop_first());
        match acts[0] {
            Action::Transmit(m) => seq![m] + rest,
            _ => rest,
        }
    }
}

/// The messages that the actions push to the consumer, in order.
pub open spec fn delivered<M>(acts: Seq<Action<M>>) -> Seq<M>
    decreases acts.len(),
{
    if acts.len() == 0 {
        Seq::empty()
    } else {
        let rest = delivered(acts.drop_first());
        match acts[0] {
            Action::Deliver(m) => seq![m] + rest,
            _ => rest,
        }
    }
}

/// An open driver fed only traffic stays open, gives the socket exactly the
/// queued messages in the order they were queued, and hands the consumer
/// exactly the arriving frames in the order they arrived: nothing is lost,
/// duplicated or reordered in either direction.
pub proof fn lemma_traffic_kept_in_order<M>(d: Driver<M>, evs: Seq<Event<M>>)
    requires
        d.phase == Phase::Open,
        forall|i: int| 0 <= i < evs.len() ==> (#[trigger] evs[i]).is_traffic(),
    ensures
        run(d, evs).0 == d,
        transmitted(run(d, evs).1) == outbound_of(evs),
        delivered(run(d, evs).1) == inbound_of(evs),
    decreases evs.len(),
{
    if evs.len() > 0 {
        let tail = evs.drop_first();
        assert(evs[0].is_traffic());
        assert forall|i: int| 0 <= i < tail.len() implies (#[trigger] tail[i]).is_traffic() by {
            assert(tail[i] == evs[i + 1]);
        }
        lemma_traffic_kept_in_order(d, tail);
        let (d1, a) = step_spec(d, evs[0]);
        let rest = run(d1, tail).1;
        assert((seq![a] + rest).drop_first() =~= rest);
        assert((seq![a] + rest)[0] == a);
    }
}

/// A closed driver stays closed whatever happens, and answers every event
/// with `Stop`: it performs no socket operation and forwards no frame.
pub proof fn lemma_closed_is_final<M>(d: Driver<M>, evs: Seq<Event<M>>)
    requires
        d.phase.is_closed(),
    ensures
        run(d, evs).0 == d,
        run(d, evs).1.len() == evs.len(),
        forall|i: int| 0 <= i < evs.len() ==> (#[trigger] run(d, evs).1[i]) is Stop,
        transmitted(run(d, evs).1) == Seq::<M>::empty(),
        delivered(run(d, evs).1) == Seq::<M>::empty(),
    decreases evs.len(),
{
    if evs.len() > 0 {
        let tail = evs.drop_first();
        lemma_closed_is_final(d, tail);
        let rest = run(d, tail).1;
        let acts = seq![Action::<M>::Stop] + rest;
        assert(acts.drop_first() =~= rest);
        assert forall|i: int| 0 <= i < evs.len() implies (#[trigger] run(d, evs).1[i]) is Stop by {
            if i > 0 {
                assert(acts[i] == rest[i - 1]);
            }
        }
    }
}

/// When the socket ends, the open driver stops at once, and afterwards no
/// event makes it forward a frame to the consumer or touch the socket.
pub proof fn lemma_transport_end_is_final<M>(d: Driver<M>, evs: Seq<Event<M>>)
    requires
        d.phase == Phase::Open,
    ensures
        ({
            let (d1, a) = step_spec(d, Event::InboundEnded);
            &&& a is Stop
            &&& d1.phase == Phase::Closed(CloseReason::TransportEnded)
            &&& run(d1, evs).0 == d1
            &&& forall|i: int| 0 <= i < evs.len() ==> (#[trigger] run(d1, evs).1[i]) is Stop
            &&& delivered(run(d1, evs).1) == Seq::<M>::empty()
            &&& transmitted(run(d1, evs).1) == Seq::<M>::empty()
        }),
{
    let (d1, a) = step_spec(d, Event::InboundEnded);
    lemma_closed_is_final(d1, evs);
}

/// When the consumer drops its outbound sender while the driver waits on
/// the socket, the driver stops on that very step and never again gives the
/// socket anything, whatever arrives afterwards.
pub proof fn lemma_consumer_drop_stops<M>(d: Driver<M>, evs: Seq<Event<M>>)
    requires
        d.phase == Phase::Open,
    ensures
        ({
            let (d1, a) = step_spec(d, Event::OutboundClosed);
            &&& a is Stop
            &&& d1.phase == Phase::Closed(CloseReason::ConsumerGone)
            &&& forall|i: int| 0 <= i < evs.len() ==> (#[trigger] run(d1, evs).1[i]) is Stop
            &&& transmitted(run(d1, evs).1) == Seq::<M>::empty()
        }),
{
    let (d1, a) = step_spec(d, Event::OutboundClosed);
    lemma_closed_is_final(d1, evs);
}

/// The handshake outcome decides the first action: a failed handshake (or a
/// socket that fails or ends first) stops the driver with no socket
/// operation; a successful one opens it and sends the initial message, if
/// there is one, before any other traffic.
pub proof fn lemma_handshake_outcome<M>(d: Driver<M>, ev: Event<M>)
    requires
        d.phase == Phase::Connecting,
        ev is HandshakeFailed || ev is InboundFailed || ev is InboundEnded,
    ensures
        step_spec(d, ev).1 is Stop,
        step_spec(d, ev).0.phase == Phase::Closed(CloseReason::HandshakeFailed),
        step_spec(d, Event::HandshakeDone).0.phase == Phase::Open,
        step_spec(d, Event::HandshakeDone).0.initial is None,
        d.initial is Some ==> step_spec(d, Event::HandshakeDone).1 == Action::Transmit(d.initial->0),
        d.initial is None ==> step_spec(d, Event::HandshakeDone).1 is Idle,
{
}

impl<M> Driver<M> {
    /// A driver about to perform its handshake, holding the message to send
    /// first once the socket is open.
    pub fn new(initial: Option<M>) -> (r: Driver<M>)
        ensures
            r.phase == Phase::Connecting,
            r.initial == initial,
    {
        Driver { phase: Phase::Connecting, initial }
    }

    /// Whether the loop should keep waiting for events.
    pub fn is_running(&self) -> (r: bool)
        ensures
            r == !self.phase.is_closed(),
    {
        !matches!(self.phase, Phase::Closed(_))
    }

    /// Feeds one event to the machine and returns what to do about it. The
    /// outbound queue is read only once the socket is open, so no outbound
    /// message is fed before: it would have no socket to go to.
    pub fn step(&mut self, ev: Event<M>) -> (a: Action<M>)
        requires
            old(self).phase is Connecting ==> !(ev is Outbound),
        ensures
            (*final(self), a) == step_spec(*old(self), ev),
    {
        match self.phase {
            Phase::Connecting => match ev {
                Event::HandshakeDone => {
                    self.phase = Phase::Open;
                    match self.initial.take() {
                        Some(m) => Action::Transmit(m),
                        None => Action::Idle,
                    }
                },
                Event::HandshakeFailed | Event::InboundFailed | Event::InboundEnded => self.close(
                    CloseReason::HandshakeFailed,
                ),
                Event::OutboundClosed => self.close(CloseReason::ConsumerGone),
                Event::Inbound(m) => Action::Deliver(m),
                _ => Action::Idle,
            },
            Phase::Open => match ev {
                Event::Outbound(m) => Action::Transmit(m),
                Event::Inbound(m) => Action::Deliver(m),
                Event::OutboundClosed => self.close(CloseReason::ConsumerGone),
                Event::InboundFailed => self.close(CloseReason::TransportFailed),
                Event::InboundEnded => self.close(CloseReason::TransportEnded),
                Event::SendFailed => self.close(CloseReason::SendFailed),
                _ => Action::Idle,
            },
            Phase::Closed(_) => Action::Stop,
        }
    }

    fn close(&mut self, reason: CloseReason) -> (a: Action<M>)
        ensures
            final(self).phase == Phase::Closed(reason),
            final(self).initial is None,
            a is Stop,
    {
        self.phase = Phase::Closed(reason);
        self.initial = None;
        Action::Stop
    }
}

} // verus!
