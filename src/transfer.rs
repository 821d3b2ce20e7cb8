//! The decisions of the transfer pipeline. A producer reads the response body
//! and writes it into a bounded pipe; a consumer decompresses and unpacks what
//! it reads from the pipe. The caller runs both and reports what happens as
//! events; `TransferState::step` says what to do next and holds the outcome.
use crate::error::TransferError;
use vstd::prelude::*;

verus! {

/// The capacity, in bytes, of the pipe between the producer and the consumer.
pub const PIPE_CAPACITY: usize = 1024;

/// Whether an HTTP status is a success (2xx).
pub open spec fn is_success(status: u16) -> bool {
    200 <= status <= 299
}

/// Accepts a success status; any other is a `BadResponse` carrying it.
pub fn check_status(status: u16) -> (r: Result<(), TransferError>)
    ensures
        is_success(status) ==> r is Ok,
        !is_success(status) ==> r == Err::<(), TransferError>(TransferError::BadResponse(status)),
{
    if 200 <= status && status <= 299 {
        Ok(())
    } else {
        Err(TransferError::BadResponse(status))
    }
}

/// What happened on one side of the pipeline.
pub enum TransferEvent {
    /// The producer read a chunk of this many bytes.
    Chunk(u64),
    /// The producer reached the end of the body.
    BodyEnded,
    /// The producer failed.
    ProducerFailed(TransferError),
    /// The consumer unpacked the whole archive.
    UnpackFinished,
    /// The consumer failed.
    UnpackFailed(TransferError),
}

/// What the caller does next.
#[derive(PartialEq, Eq, Structural)]
pub enum TransferAction {
    /// Report the chunk's length as progress and write the chunk into the pipe.
    Forward,
    /// Report the chunk's length as progress and drop the chunk: the archive
    /// is already unpacked.
    Discard,
    /// Close the writing end of the pipe, so the consumer sees the end of input.
    CloseWriter,
    /// Wait for the other side.
    Wait,
    /// Close the pipe on both ends, stop the other side, and return the outcome.
    Finish,
}

/// The progress and outcome of one transfer.
pub struct TransferState {
    /// The size the catalog announced; for progress display only.
    pub expected: u64,
    /// The bytes read from the body so far, saturating at `u64::MAX`.
    pub received: u64,
    pub body_done: bool,
    pub unpack_done: bool,
    /// The outcome, once there is one; it never changes after that.
    pub result: Option<Result<(), TransferError>>,
}

/// The bytes counted after a chunk of `n`, saturating at `u64::MAX`.
pub open spec fn add_saturating(a: u64, n: u64) -> u64 {
    if a + n > u64::MAX {
        u64::MAX
    } else {
        (a + n) as u64
    }
}

/// The state and action after an event.
pub open spec fn step_spec(s: TransferState, e: TransferEvent) -> (TransferState, TransferAction) {
    if s.result is Some {
        (s, TransferAction::Finish)
    } else {
        match e {
            TransferEvent::Chunk(n) => (
                TransferState { received: add_saturating(s.received, n), ..s },
                if s.unpack_done {
                    TransferAction::Discard
                } else {
                    TransferAction::Forward
                },
            ),
            TransferEvent::BodyEnded => if s.unpack_done {
                (
                    TransferState { body_done: true, result: Some(Ok(())), ..s },
                    TransferAction::Finish,
                )
            } else {
                (TransferState { body_done: true, ..s }, TransferAction::CloseWriter)
            },
            TransferEvent::ProducerFailed(err) => (
                TransferState { result: Some(Err(err)), ..s },
                TransferAction::Finish,
            ),
            TransferEvent::UnpackFinished => if s.body_done {
                (
                    TransferState { unpack_done: true, result: Some(Ok(())), ..s },
                    TransferAction::Finish,
                )
            } else {
                (TransferState { unpack_done: true, ..s }, TransferAction::Wait)
            },
            TransferEvent::UnpackFailed(err) => (
                TransferState { result: Some(Err(err)), ..s },
                TransferAction::Finish,
            ),
        }
    }
}

/// The state after a sequence of events.
pub open spec fn run(s: TransferState, events: Seq<TransferEvent>) -> TransferState
    decreases events.len(),
{
    if events.len() == 0 {
        s
    } else {
        run(step_spec(s, events[0]).0, events.drop_first())
    }
}

impl TransferState {
    /// A consistent state: success only once both sides are done, and
    /// both sides done only with an outcome.
    pub open spec fn wf(&self) -> bool {
        &&& self.result == Some(Ok::<(), TransferError>(())) ==> self.body_done && self.unpack_done
        &&& self.body_done && self.unpack_done ==> self.result is Some
    }

    /// The state of a transfer that has not started; `expected` is the
    /// announced size.
    pub fn new(expected: u64) -> (r: TransferState)
        ensures
            r.wf(),
            r == (TransferState {
                expected,
                received: 0,
                body_done: false,
                unpack_done: false,
                result: None,
            }),
    {
        TransferState { expected, received: 0, body_done: false, unpack_done: false, result: None }
    }

    /// Takes in one event and says what to do next. Once there is an
    /// outcome, later events change nothing and the answer is `Finish`.
    pub fn step(self, event: TransferEvent) -> (r: (TransferState, TransferAction))
        requires
            self.wf(),
        ensures
            r == step_spec(self, event),
            r.0.wf(),
            r.1 == TransferAction::Finish <==> r.0.result is Some,
    {
        if self.result.is_some() {
            return (self, TransferAction::Finish);
        }
        match event {
            TransferEvent::Chunk(n) => {
                let received = if n > u64::MAX - self.received {
                    u64::MAX
                } else {
                    self.received + n
                };
                let action = if self.unpack_done {
                    TransferAction::Discard
                } else {
                    TransferAction::Forward
                };
                (TransferState { received, ..self }, action)
            },
            TransferEvent::BodyEnded => {
                if self.unpack_done {
                    (
                        TransferState { body_done: true, result: Some(Ok(())), ..self },
                        TransferAction::Finish,
                    )
                } else {
                    (TransferState { body_done: true, ..self }, TransferAction::CloseWriter)
                }
            },
            TransferEvent::ProducerFailed(err) => {
                (TransferState { result: Some(Err(err)), ..self }, TransferAction::Finish)
            },
            TransferEvent::UnpackFinished => {
                if self.body_done {
                    (
                        TransferState { unpack_done: true, result: Some(Ok(())), ..self },
                        TransferAction::Finish,
                    )
                } else {
                    (TransferState { unpack_done: true, ..self }, TransferAction::Wait)
                }
            },
            TransferEvent::UnpackFailed(err) => {
                (TransferState { result: Some(Err(err)), ..self }, TransferAction::Finish)
            },
        }
    }
}

/// The first outcome stands: once a transfer has an outcome, no sequence of
/// later events changes the state; and from a consistent state, whatever the
/// events, the transfer succeeds only if the body was read to its end and the
/// archive was unpacked, while a failure of either side, reported before any
/// outcome, becomes the outcome.
pub proof fn lemma_transfer_outcome(s: TransferState, events: Seq<TransferEvent>)
    requires
        s.wf(),
    ensures
        s.result is Some ==> run(s, events) == s,
        run(s, events).wf(),
        run(s, events).result == Some(Ok::<(), TransferError>(())) ==> run(s, events).body_done
            && run(s, events).unpack_done,
        s.result is None && events.len() > 0 ==> (events[0] matches TransferEvent::ProducerFailed(
            err,
        ) ==> run(s, events).result == Some(Err::<(), TransferError>(err))),
        s.result is None && events.len() > 0 ==> (events[0] matches TransferEvent::UnpackFailed(
            err,
        ) ==> run(s, events).result == Some(Err::<(), TransferError>(err))),
    decreases events.len(),
{
    if events.len() > 0 {
        let next = step_spec(s, events[0]).0;
        lemma_transfer_outcome(next, events.drop_first());
        if s.result is Some {
            assert(next == s);
        }
    }
}

} // verus!
