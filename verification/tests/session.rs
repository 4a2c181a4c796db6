use ss::codec::{encode, MessageHeader};
use ss::error::SessionError;
use ss::session::{
    classify, run_dump, session_start, session_step, DumpOutcome, MessageClassification,
    ReceiveEvent, SessionState, StepVerdict,
};

fn message_with_type(message_type: u16) -> ReceiveEvent {
    let header = MessageHeader {
        total_length: 16,
        message_type,
        flags: 0,
        sequence: 0,
        sender_port: 0,
    };
    ReceiveEvent::Message(encode(&header))
}

fn data_record() -> ReceiveEvent {
    // any type outside the four reserved control values is a data record
    message_with_type(20)
}

#[test]
fn classification_table() {
    assert_eq!(classify(0x1), MessageClassification::Noop);
    assert_eq!(classify(0x2), MessageClassification::Error);
    assert_eq!(classify(0x3), MessageClassification::Done);
    assert_eq!(classify(0x4), MessageClassification::Overrun);
    assert_eq!(classify(0x0), MessageClassification::Data);
    assert_eq!(classify(0x5), MessageClassification::Data);
    assert_eq!(classify(20), MessageClassification::Data);
    assert_eq!(classify(u16::MAX), MessageClassification::Data);
}

#[test]
fn step_counts_a_data_record() {
    let v = session_step(session_start(), &data_record());
    assert_eq!(
        v,
        StepVerdict::Continue(SessionState { records: 1, overrun: false })
    );
}

#[test]
fn step_skips_a_noop() {
    let v = session_step(session_start(), &message_with_type(0x1));
    assert_eq!(
        v,
        StepVerdict::Continue(SessionState { records: 0, overrun: false })
    );
}

#[test]
fn step_marks_an_overrun_and_continues() {
    let v = session_step(session_start(), &message_with_type(0x4));
    assert_eq!(
        v,
        StepVerdict::Continue(SessionState { records: 0, overrun: true })
    );
}

#[test]
fn step_fails_on_transport_failure() {
    let v = session_step(session_start(), &ReceiveEvent::Failure);
    assert_eq!(
        v,
        StepVerdict::Failed(
            SessionError::TransportError,
            SessionState { records: 0, overrun: false }
        )
    );
}

#[test]
fn step_fails_on_a_short_message() {
    let v = session_step(session_start(), &ReceiveEvent::Message(vec![3, 0]));
    assert_eq!(
        v,
        StepVerdict::Failed(
            SessionError::TruncatedMessage,
            SessionState { records: 0, overrun: false }
        )
    );
}

#[test]
fn dump_of_done_alone_completes_empty() {
    // scenario: the very first message ends the dump
    let outcome = run_dump(&vec![message_with_type(0x3)]);
    assert_eq!(
        outcome,
        DumpOutcome::Done(SessionState { records: 0, overrun: false })
    );
}

#[test]
fn dump_counts_data_records_then_completes() {
    // scenario: two data records, then the done message
    let outcome = run_dump(&vec![data_record(), data_record(), message_with_type(0x3)]);
    assert_eq!(
        outcome,
        DumpOutcome::Done(SessionState { records: 2, overrun: false })
    );
}

#[test]
fn dump_fails_on_an_error_message() {
    // scenario: the kernel answers with an error message first
    let outcome = run_dump(&vec![
        message_with_type(0x2),
        data_record(),
        message_with_type(0x3),
    ]);
    assert_eq!(
        outcome,
        DumpOutcome::Failed(
            SessionError::ProtocolError,
            SessionState { records: 0, overrun: false }
        )
    );
}

#[test]
fn dump_fails_on_a_truncated_first_message() {
    // scenario: the first receive hands back fewer bytes than a header
    let outcome = run_dump(&vec![ReceiveEvent::Message(vec![0u8; 15])]);
    assert_eq!(
        outcome,
        DumpOutcome::Failed(
            SessionError::TruncatedMessage,
            SessionState { records: 0, overrun: false }
        )
    );
}

#[test]
fn dump_fails_on_transport_failure() {
    let outcome = run_dump(&vec![data_record(), ReceiveEvent::Failure]);
    assert_eq!(
        outcome,
        DumpOutcome::Failed(
            SessionError::TransportError,
            SessionState { records: 1, overrun: false }
        )
    );
}

#[test]
fn dump_records_an_overrun_but_completes() {
    let outcome = run_dump(&vec![
        message_with_type(0x4),
        data_record(),
        message_with_type(0x3),
    ]);
    assert_eq!(
        outcome,
        DumpOutcome::Done(SessionState { records: 1, overrun: true })
    );
}

#[test]
fn dump_stops_at_the_first_terminal_message() {
    // events after the done message are never consumed
    let outcome = run_dump(&vec![message_with_type(0x3), ReceiveEvent::Failure]);
    assert_eq!(
        outcome,
        DumpOutcome::Done(SessionState { records: 0, overrun: false })
    );
}

#[test]
fn dump_without_a_terminal_message_stays_pending() {
    let outcome = run_dump(&vec![data_record(), message_with_type(0x1)]);
    assert_eq!(
        outcome,
        DumpOutcome::Pending(SessionState { records: 1, overrun: false })
    );
    assert_eq!(
        run_dump(&vec![]),
        DumpOutcome::Pending(SessionState { records: 0, overrun: false })
    );
}

#[test]
fn termination_ignores_the_multipart_flag() {
    // a done message still terminates with the multipart flag clear,
    // and a data record does not terminate with it set
    let done_plain = MessageHeader {
        total_length: 16,
        message_type: 0x3,
        flags: 0,
        sequence: 0,
        sender_port: 0,
    };
    let data_multipart = MessageHeader {
        total_length: 16,
        message_type: 20,
        flags: 0x2,
        sequence: 0,
        sender_port: 0,
    };
    let outcome = run_dump(&vec![
        ReceiveEvent::Message(encode(&data_multipart)),
        ReceiveEvent::Message(encode(&done_plain)),
    ]);
    assert_eq!(
        outcome,
        DumpOutcome::Done(SessionState { records: 1, overrun: false })
    );
}
