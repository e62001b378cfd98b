//! The consumer's handle on a connection, and the driver's ends of the same
//! two queues.
//!
//! Each connection has two unbounded FIFO queues: outbound (consumer to
//! driver) and inbound (driver to consumer). The consumer only ever writes
//! the first and reads the second; the driver does the opposite. No call
//! here blocks.
use vstd::prelude::*;

use crate::driver::Event;
use crate::error::RecvError;

verus! {

#[verifier::external_type_specification]
#[verifier::external_body]
#[verifier::reject_recursive_types(T)]
pub struct ExSender<T>(async_channel::Sender<T>);

#[verifier::external_type_specification]
#[verifier::external_body]
#[verifier::reject_recursive_types(T)]
pub struct ExReceiver<T>(async_channel::Receiver<T>);

#[verifier::external_type_specification]
#[verifier::reject_recursive_types(T)]
pub struct ExTrySendError<T>(async_channel::TrySendError<T>);

#[verifier::external_type_specification]
#[verifier::external_body]
pub struct ExMessage(tungstenite::Message);

/// Relies on async_channel::unbounded: a fresh queue with no capacity bound,
/// whose two ends are returned.
pub assume_specification<T>[ async_channel::unbounded::<T> ]() -> (
    async_channel::Sender<T>,
    async_channel::Receiver<T>,
);

/// Relies on async_channel::Sender::try_send: it never waits, and a refused
/// message comes back inside the error.
pub assume_specification<T>[ async_channel::Sender::<T>::try_send ](
    sender: &async_channel::Sender<T>,
    msg: T,
) -> (r: Result<(), async_channel::TrySendError<T>>)
    ensures
        r matches Err(async_channel::TrySendError::Full(m)) ==> m == msg,
        r matches Err(async_channel::TrySendError::Closed(m)) ==> m == msg,
;

/// Relies on async_channel::Receiver::try_recv: it never waits; it yields the
/// oldest queued message, or says whether the queue is merely empty or also
/// closed.
pub assume_specification<T>[ async_channel::Receiver::<T>::try_recv ](
    receiver: &async_channel::Receiver<T>,
) -> Result<T, async_channel::TryRecvError>;

/// The result of a non-blocking receive, given what the queue answered.
pub open spec fn recv_outcome<M>(raw: Result<M, async_channel::TryRecvError>) -> Result<
    M,
    RecvError,
> {
    match raw {
        Ok(m) => Ok(m),
        Err(e) => Err(crate::error::signal_of_async(e)),
    }
}

/// Turns the queue's answer into the consumer's: a message passes through
/// unchanged; an error becomes `Empty` or `Closed`.
pub fn settle_recv<M>(raw: Result<M, async_channel::TryRecvError>) -> (r: Result<M, RecvError>)
    ensures
        r == recv_outcome(raw),
{
    match raw {
        Ok(m) => Ok(m),
        Err(e) => Err(RecvError::from(e)),
    }
}

/// Turns the queue's answer to a send into whether it took the message.
pub fn settle_send<M>(raw: Result<(), async_channel::TrySendError<M>>) -> (r: bool)
    ensures
        r == (raw is Ok),
{
    match raw {
        Ok(()) => true,
        Err(_) => false,
    }
}

/// The driver's event for what the wait on the outbound queue produced: a
/// message to send, or (`None`) the news that the consumer's sender is gone
/// and the queue drained.
pub open spec fn outbound_event_spec<M>(raw: Option<M>) -> Event<M> {
    match raw {
        Some(m) => Event::Outbound(m),
        None => Event::OutboundClosed,
    }
}

/// The driver's event for what the wait on the socket produced: a frame,
/// a read error, or the end of the stream.
pub open spec fn inbound_event_spec<M, E>(raw: Option<Result<M, E>>) -> Event<M> {
    match raw {
        Some(Ok(m)) => Event::Inbound(m),
        Some(Err(_)) => Event::InboundFailed,
        None => Event::InboundEnded,
    }
}

/// Classifies the outcome of waiting on the outbound queue.
pub fn outbound_event<M>(raw: Option<M>) -> (ev: Event<M>)
    ensures
        ev == outbound_event_spec(raw),
{
    match raw {
        Some(m) => Event::Outbound(m),
        None => Event::OutboundClosed,
    }
}

/// Classifies the outcome of waiting on the socket's stream of frames.
pub fn inbound_event<M, E>(raw: Option<Result<M, E>>) -> (ev: Event<M>)
    ensures
        ev == inbound_event_spec(raw),
{
    match raw {
        Some(Ok(m)) => Event::Inbound(m),
        Some(Err(_)) => Event::InboundFailed,
        None => Event::InboundEnded,
    }
}

/// The driver's event for a non-blocking look at the outbound queue:
/// nothing while it is merely empty, a message to send, or the news that the
/// consumer's sender is gone.
pub open spec fn outbound_poll_spec<M>(raw: Result<M, async_channel::TryRecvError>) -> Option<Event<M>> {
    match raw {
        Ok(m) => Some(Event::Outbound(m)),
        Err(async_channel::TryRecvError::Empty) => None,
        Err(async_channel::TryRecvError::Closed) => Some(Event::OutboundClosed),
    }
}

/// Classifies the outcome of a non-blocking look at the outbound queue.
pub fn outbound_poll_event<M>(raw: Result<M, async_channel::TryRecvError>) -> (r: Option<Event<M>>)
    ensures
        r == outbound_poll_spec(raw),
{
    match raw {
        Ok(m) => Some(Event::Outbound(m)),
        Err(async_channel::TryRecvError::Empty) => None,
        Err(async_channel::TryRecvError::Closed) => Some(Event::OutboundClosed),
    }
}

/// What the consumer holds: the sending end of the outbound queue and the
/// receiving end of the inbound one. The driver runs detached from it:
/// dropping the handle drops the outbound sender, which the driver observes
/// as [`Event::OutboundClosed`] on its next wait, and then stops. Frames
/// still in flight are dropped with the inbound receiver.
pub struct WsConnection {
    tx: async_channel::Sender<tungstenite::Message>,
    rx: async_channel::Receiver<tungstenite::Message>,
}

/// What the driver holds: the receiving end of the outbound queue and the
/// sending end of the inbound one.
pub struct DriverPorts {
    pub outbound: async_channel::Receiver<tungstenite::Message>,
    pub inbound: async_channel::Sender<tungstenite::Message>,
}

/// Creates the two queues of a new connection and splits their ends between
/// the consumer and the driver.
pub fn open_channels() -> (r: (WsConnection, DriverPorts)) {
    let (tx, outbound) = async_channel::unbounded::<tungstenite::Message>();
    let (inbound, rx) = async_channel::unbounded::<tungstenite::Message>();
    (WsConnection { tx, rx }, DriverPorts { outbound, inbound })
}

impl DriverPorts {
    /// Pushes a frame from the socket to the consumer, without waiting;
    /// `false` when the consumer has dropped its handle.
    pub fn deliver(&self, message: tungstenite::Message) -> (r: bool) {
        settle_send(self.inbound.try_send(message))
    }

    /// Looks at the outbound queue without waiting: `None` while nothing is
    /// queued, otherwise the event for what was found there.
    pub fn poll_outbound(&self) -> (r: Option<Event<tungstenite::Message>>)
        ensures
            r matches Some(ev) ==> (ev is Outbound || ev is OutboundClosed),
    {
        outbound_poll_event(self.outbound.try_recv())
    }
}

impl WsConnection {
    /// Takes the oldest message that the driver delivered, without waiting:
    /// `Err(Empty)` when none is queued yet, `Err(Closed)` when the queue is
    /// drained and the driver has let go of it.
    pub fn recv(&self) -> (r: Result<tungstenite::Message, RecvError>) {
        let raw = self.rx.try_recv();
        settle_recv(raw)
    }

    /// Queues a message for the driver, without waiting; `false` when the
    /// driver has let go of the queue.
    pub fn send(&self, message: tungstenite::Message) -> (r: bool) {
        settle_send(self.tx.try_send(message))
    }
}

} // verus!
