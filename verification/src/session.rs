//! The dump state machine: classifies each received message by type
//! and decides whether the session continues, terminates normally, or
//! terminates on error.
//!
//! The transport itself is an external collaborator. It hands the
//! session one event per receive call: either a transport failure or
//! the bytes of one message. `session_step` is the whole decision;
//! the caller performs the receive and loops until a terminal verdict.
//! The multipart flag of received headers is informational only:
//! termination is driven solely by message type.

use vstd::prelude::*;

use crate::codec;
use crate::codec::spec_decode;
use crate::codec::HEADER_LENGTH;
use crate::error::SessionError;

verus! {

/// Message type: nothing, skip this message.
pub const NLMSG_NOOP: u16 = 0x1;

/// Message type: the kernel reports an error.
pub const NLMSG_ERROR: u16 = 0x2;

/// Message type: end of a dump.
pub const NLMSG_DONE: u16 = 0x3;

/// Message type: data was lost between kernel and receiver.
pub const NLMSG_OVERRUN: u16 = 0x4;

/// What a received message is, judged by its `message_type` alone.
#[derive(Clone, Copy, PartialEq, Eq, Structural, Debug)]
pub enum MessageClassification {
    /// A data record of the dump.
    Data,
    /// The kernel reports an error; the session fails.
    Error,
    /// End of the dump; the session completes.
    Done,
    /// The kernel lost data; the dump continues but is incomplete.
    Overrun,
    /// Nothing; the message is skipped.
    Noop,
}

/// The classification table: the four reserved control types, and any
/// other value is a data record.
pub open spec fn spec_classify(message_type: u16) -> MessageClassification {
    if message_type == NLMSG_NOOP {
        MessageClassification::Noop
    } else if message_type == NLMSG_ERROR {
        MessageClassification::Error
    } else if message_type == NLMSG_DONE {
        MessageClassification::Done
    } else if message_type == NLMSG_OVERRUN {
        MessageClassification::Overrun
    } else {
        MessageClassification::Data
    }
}

/// Classifies a received message by its `message_type` field.
pub fn classify(message_type: u16) -> (c: MessageClassification)
    ensures
        c == spec_classify(message_type),
{
    if message_type == NLMSG_NOOP {
        MessageClassification::Noop
    } else if message_type == NLMSG_ERROR {
        MessageClassification::Error
    } else if message_type == NLMSG_DONE {
        MessageClassification::Done
    } else if message_type == NLMSG_OVERRUN {
        MessageClassification::Overrun
    } else {
        MessageClassification::Data
    }
}

/// One receive call's outcome, as the transport hands it to the
/// session: a socket-layer failure, or the bytes of one message.
#[derive(Debug)]
pub enum ReceiveEvent {
    /// The transport failed to deliver a message.
    Failure,
    /// The bytes of one received message, header first.
    Message(Vec<u8>),
}

/// What a session has seen so far: how many data records were handed
/// on, and whether the kernel signalled lost data.
#[derive(Clone, Copy, PartialEq, Eq, Structural, Debug)]
pub struct SessionState {
    /// Data records seen and handed to the payload decoder.
    pub records: u64,
    /// The kernel signalled an overrun: the dump is known incomplete.
    pub overrun: bool,
}

/// The verdict after one received event: loop back for another
/// message, or stop with the session's final state.
#[derive(Clone, Copy, PartialEq, Eq, Structural, Debug)]
pub enum StepVerdict {
    /// Await the next message.
    Continue(SessionState),
    /// The dump ended normally.
    Done(SessionState),
    /// The session failed; no further messages are awaited.
    Failed(SessionError, SessionState),
}

/// The state a session starts in: nothing seen yet.
pub open spec fn spec_initial_state() -> SessionState {
    SessionState { records: 0, overrun: false }
}

/// A fresh session state: no records, no overrun.
pub fn session_start() -> (s: SessionState)
    ensures
        s == spec_initial_state(),
{
    SessionState { records: 0, overrun: false }
}

/// The transition table of the session, one received event at a time:
///
/// - a transport failure fails the session;
/// - fewer bytes than one header fails it as truncated;
/// - otherwise the decoded header's type decides: an error message
///   fails the session, a done message completes it, a noop is
///   skipped, an overrun marks the dump incomplete and continues,
///   and any other message counts as one data record and continues.
pub open spec fn spec_step(state: SessionState, event: ReceiveEvent) -> StepVerdict {
    match event {
        ReceiveEvent::Failure => StepVerdict::Failed(SessionError::TransportError, state),
        ReceiveEvent::Message(bytes) => {
            if bytes@.len() < HEADER_LENGTH {
                StepVerdict::Failed(SessionError::TruncatedMessage, state)
            } else {
                match spec_classify(spec_decode(bytes@).message_type) {
                    MessageClassification::Noop => StepVerdict::Continue(state),
                    MessageClassification::Error => StepVerdict::Failed(
                        SessionError::ProtocolError,
                        state,
                    ),
                    MessageClassification::Done => StepVerdict::Done(state),
                    MessageClassification::Overrun => StepVerdict::Continue(
                        SessionState { overrun: true, ..state },
                    ),
                    MessageClassification::Data => StepVerdict::Continue(
                        SessionState { records: (state.records + 1) as u64, ..state },
                    ),
                }
            }
        },
    }
}

/// Feeds one received event through the state machine and returns the
/// verdict of the transition table.
pub fn session_step(state: SessionState, event: &ReceiveEvent) -> (v: StepVerdict)
    requires
        state.records < u64::MAX,
    ensures
        v == spec_step(state, *event),
{
    match event {
        ReceiveEvent::Failure => StepVerdict::Failed(SessionError::TransportError, state),
        ReceiveEvent::Message(bytes) => {
            if bytes.len() < codec::nlmsg_hdrlen() {
                return StepVerdict::Failed(SessionError::TruncatedMessage, state);
            }
            match codec::decode(bytes.as_slice()) {
                Err(_) => {
                    proof {
                        assert(false);
                    }
                    StepVerdict::Failed(SessionError::TruncatedMessage, state)
                },
                Ok(header) => match classify(header.message_type) {
                    MessageClassification::Noop => StepVerdict::Continue(state),
                    MessageClassification::Error => StepVerdict::Failed(
                        SessionError::ProtocolError,
                        state,
                    ),
                    MessageClassification::Done => StepVerdict::Done(state),
                    MessageClassification::Overrun => StepVerdict::Continue(
                        SessionState { overrun: true, ..state },
                    ),
                    MessageClassification::Data => StepVerdict::Continue(
                        SessionState { records: state.records + 1, ..state },
                    ),
                },
            }
        },
    }
}

/// A whole session's outcome over a finite sequence of receive
/// events: terminal, or still awaiting messages when the events ran
/// out.
#[derive(Clone, Copy, PartialEq, Eq, Structural, Debug)]
pub enum DumpOutcome {
    /// The dump ended normally with this final state.
    Done(SessionState),
    /// The session failed with this error and final state.
    Failed(SessionError, SessionState),
    /// Every event was consumed without reaching a terminal verdict;
    /// the session would await another message.
    Pending(SessionState),
}

/// The session's outcome from `state` over `events`, applying the
/// transition table to each event in order until a terminal verdict.
pub open spec fn spec_run(state: SessionState, events: Seq<ReceiveEvent>) -> DumpOutcome
    decreases events.len(),
{
    if events.len() == 0 {
        DumpOutcome::Pending(state)
    } else {
        match spec_step(state, events[0]) {
            StepVerdict::Continue(next) => spec_run(next, events.drop_first()),
            StepVerdict::Done(fin) => DumpOutcome::Done(fin),
            StepVerdict::Failed(e, fin) => DumpOutcome::Failed(e, fin),
        }
    }
}

/// Drives a fresh session over a sequence of receive events: each
/// event goes through the state machine in order until a terminal
/// verdict is reached or the events are exhausted.
pub fn run_dump(events: &Vec<ReceiveEvent>) -> (outcome: DumpOutcome)
    ensures
        outcome == spec_run(spec_initial_state(), events@),
{
    let mut state = session_start();
    let mut i: usize = 0;
    proof {
        assert(events@.skip(0) =~= events@);
    }
    while i < events.len()
        invariant
            i <= events@.len(),
            state.records <= i,
            spec_run(spec_initial_state(), events@) == spec_run(state, events@.skip(i as int)),
        decreases events@.len() - i,
    {
        let suffix = Ghost(events@.skip(i as int));
        proof {
            assert(suffix@[0] == events@[i as int]);
            assert(suffix@.drop_first() =~= events@.skip(i as int + 1));
        }
        match session_step(state, &events[i]) {
            StepVerdict::Continue(next) => {
                state = next;
            },
            StepVerdict::Done(fin) => {
                return DumpOutcome::Done(fin);
            },
            StepVerdict::Failed(e, fin) => {
                return DumpOutcome::Failed(e, fin);
            },
        }
        i = i + 1;
    }
    proof {
        assert(events@.skip(i as int) =~= Seq::<ReceiveEvent>::empty());
    }
    DumpOutcome::Pending(state)
}

} // verus!
