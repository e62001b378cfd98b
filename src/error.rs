use vstd::prelude::*;

verus! {

#[verifier::external_type_specification]
pub struct ExAsyncTryRecvError(async_channel::TryRecvError);

#[verifier::external_type_specification]
pub struct ExCrossbeamTryRecvError(crossbeam_channel::TryRecvError);

/// What a non-blocking receive reports when it has no message to hand out.
#[derive(Clone, Copy, Debug, PartialEq, Eq, Structural)]
pub enum RecvError {
    /// Nothing is queued right now; a later poll may yield a message.
    Empty,
    /// The queue is drained and its sending side is gone: no message will ever come.
    Closed,
}

/// The signal for an error of an `async_channel` receiver: `Empty` stays
/// `Empty`, `Closed` stays `Closed`.
pub open spec fn signal_of_async(e: async_channel::TryRecvError) -> RecvError {
    match e {
        async_channel::TryRecvError::Empty => RecvError::Empty,
        async_channel::TryRecvError::Closed => RecvError::Closed,
    }
}

/// The signal for an error of a `crossbeam_channel` receiver: `Empty` stays
/// `Empty`, `Disconnected` becomes `Closed`.
pub open spec fn signal_of_crossbeam(e: crossbeam_channel::TryRecvError) -> RecvError {
    match e {
        crossbeam_channel::TryRecvError::Empty => RecvError::Empty,
        crossbeam_channel::TryRecvError::Disconnected => RecvError::Closed,
    }
}

impl From<async_channel::TryRecvError> for RecvError {
    fn from(e: async_channel::TryRecvError) -> (r: RecvError)
        ensures
            r == signal_of_async(e),
    {
        match e {
            async_channel::TryRecvError::Empty => RecvError::Empty,
            async_channel::TryRecvError::Closed => RecvError::Closed,
        }
    }
}

impl vstd::std_specs::convert::FromSpecImpl<async_channel::TryRecvError> for RecvError {
    open spec fn obeys_from_spec() -> bool {
        true
    }

    open spec fn from_spec(e: async_channel::TryRecvError) -> RecvError {
        signal_of_async(e)
    }
}

impl From<crossbeam_channel::TryRecvError> for RecvError {
    fn from(e: crossbeam_channel::TryRecvError) -> (r: RecvError)
        ensures
            r == signal_of_crossbeam(e),
    {
        match e {
            crossbeam_channel::TryRecvError::Empty => RecvError::Empty,
            crossbeam_channel::TryRecvError::Disconnected => RecvError::Closed,
        }
    }
}

impl vstd::std_specs::convert::FromSpecImpl<crossbeam_channel::TryRecvError> for RecvError {
    open spec fn obeys_from_spec() -> bool {
        true
    }

    open spec fn from_spec(e: crossbeam_channel::TryRecvError) -> RecvError {
        signal_of_crossbeam(e)
    }
}

} // verus!
