use guest_launcher::envelope::initial_data;
use guest_launcher::error::LaunchError;
use guest_launcher::framing::{ByteOrder, FrameFormat};
use guest_launcher::handshake::{Event, Handshake, Operation, Step, DEFAULT_READ_TIMEOUT_SECS};
use guest_launcher::params::InitialDataVersion;

fn format() -> FrameFormat {
    FrameFormat::new(4, ByteOrder::LittleEndian, 64).unwrap()
}

fn sending(exchange_evidence: bool, payload: &[u8]) -> Handshake {
    let mut handshake = Handshake::new(format(), 30, exchange_evidence, Some(payload.to_vec()));
    assert_eq!(handshake.advance(Event::Start), Operation::SetReadTimeout { seconds: 30 });
    let mut frame = vec![payload.len() as u8, 0, 0, 0];
    frame.extend_from_slice(payload);
    assert_eq!(handshake.advance(Event::Done), Operation::Write { bytes: frame });
    assert_eq!(handshake.step(), Step::Sending);
    handshake
}

#[test]
fn default_timeout_is_thirty_seconds() {
    assert_eq!(DEFAULT_READ_TIMEOUT_SECS, 30);
}

#[test]
fn without_payload_nothing_is_exchanged() {
    for exchange_evidence in [false, true] {
        let mut handshake = Handshake::new(format(), 30, exchange_evidence, None);
        assert_eq!(handshake.step(), Step::Idle);
        assert_eq!(handshake.advance(Event::Start), Operation::Finish);
        assert_eq!(handshake.step(), Step::Complete);
        assert_eq!(handshake.advance(Event::Done), Operation::Finish);
        assert_eq!(handshake.advance(Event::TimedOut), Operation::Finish);
        assert_eq!(handshake.step(), Step::Complete);
        assert_eq!(handshake.into_evidence(), None);
    }
}

#[test]
fn payload_is_sent_and_evidence_received() {
    let mut handshake = sending(true, b"app");
    assert_eq!(handshake.advance(Event::Done), Operation::Read { len: 4 });
    assert_eq!(handshake.step(), Step::EvidenceLengthAwaited);
    assert_eq!(handshake.advance(Event::Data(vec![5, 0, 0, 0])), Operation::Read { len: 5 });
    assert_eq!(handshake.step(), Step::EvidenceAwaited { len: 5 });
    assert_eq!(handshake.advance(Event::Data(b"proof".to_vec())), Operation::ClearReadTimeout);
    assert_eq!(handshake.step(), Step::Disarming);
    assert_eq!(handshake.advance(Event::Done), Operation::Finish);
    assert_eq!(handshake.step(), Step::Complete);
    assert!(handshake.step().is_terminal());
    assert_eq!(handshake.into_evidence(), Some(b"proof".to_vec()));
}

#[test]
fn without_evidence_exchange_nothing_is_read() {
    let mut handshake = sending(false, b"app");
    assert_eq!(handshake.advance(Event::Done), Operation::ClearReadTimeout);
    assert_eq!(handshake.step(), Step::Disarming);
    assert_eq!(handshake.advance(Event::Done), Operation::Finish);
    assert_eq!(handshake.step(), Step::Complete);
    assert_eq!(handshake.into_evidence(), None);
}

#[test]
fn v0_initial_data_go_out_behind_the_prefix_only() {
    let app = vec![9u8, 8, 7];
    let payload = initial_data(InitialDataVersion::V0, app, b"HDR");
    let mut handshake = Handshake::new(format(), 30, false, Some(payload));
    handshake.advance(Event::Start);
    assert_eq!(handshake.advance(Event::Done), Operation::Write { bytes: vec![3, 0, 0, 0, 9, 8, 7] });
}

#[test]
fn v1_initial_data_go_out_with_header_and_envelope() {
    let payload = initial_data(InitialDataVersion::V1, vec![9u8, 8, 7], b"HDR");
    let mut handshake = Handshake::new(format(), 30, false, Some(payload));
    handshake.advance(Event::Start);
    assert_eq!(
        handshake.advance(Event::Done),
        Operation::Write { bytes: vec![8, 0, 0, 0, b'H', b'D', b'R', 0x0a, 3, 9, 8, 7] }
    );
}

#[test]
fn configured_timeout_is_installed_first() {
    let mut handshake = Handshake::new(format(), 7, true, Some(vec![1]));
    assert_eq!(handshake.advance(Event::Start), Operation::SetReadTimeout { seconds: 7 });
    assert_eq!(handshake.step(), Step::Arming);
}

#[test]
fn empty_evidence_is_legal() {
    let mut handshake = sending(true, b"");
    assert_eq!(handshake.advance(Event::Done), Operation::Read { len: 4 });
    assert_eq!(handshake.advance(Event::Data(vec![0, 0, 0, 0])), Operation::Read { len: 0 });
    assert_eq!(handshake.advance(Event::Data(vec![])), Operation::ClearReadTimeout);
    assert_eq!(handshake.advance(Event::Done), Operation::Finish);
    assert_eq!(handshake.into_evidence(), Some(vec![]));
}

#[test]
fn silent_guest_times_out() {
    let mut handshake = sending(true, b"app");
    assert_eq!(handshake.advance(Event::Done), Operation::Read { len: 4 });
    assert_eq!(
        handshake.advance(Event::TimedOut),
        Operation::Abort(LaunchError::HandshakeTimeout)
    );
    assert_eq!(handshake.step(), Step::Failed(LaunchError::HandshakeTimeout));
    assert!(handshake.step().is_terminal());
    assert_eq!(handshake.into_evidence(), None);
}

#[test]
fn timeout_fails_the_handshake_at_every_step() {
    for steps in 0..5usize {
        let mut handshake = Handshake::new(format(), 30, true, Some(b"a".to_vec()));
        let events = [
            Event::Start,
            Event::Done,
            Event::Done,
            Event::Data(vec![1, 0, 0, 0]),
            Event::Data(vec![1]),
        ];
        for event in events.into_iter().take(steps) {
            handshake.advance(event);
        }
        assert!(!handshake.step().is_terminal());
        assert_eq!(
            handshake.advance(Event::TimedOut),
            Operation::Abort(LaunchError::HandshakeTimeout)
        );
        assert_eq!(handshake.step(), Step::Failed(LaunchError::HandshakeTimeout));
    }
}

#[test]
fn evidence_over_the_maximum_is_a_protocol_violation() {
    let mut handshake = sending(true, b"app");
    handshake.advance(Event::Done);
    assert_eq!(
        handshake.advance(Event::Data(vec![65, 0, 0, 0])),
        Operation::Abort(LaunchError::ProtocolViolation)
    );
    assert_eq!(handshake.step(), Step::Failed(LaunchError::ProtocolViolation));
}

#[test]
fn evidence_of_the_maximum_is_accepted() {
    let mut handshake = sending(true, b"app");
    handshake.advance(Event::Done);
    assert_eq!(handshake.advance(Event::Data(vec![64, 0, 0, 0])), Operation::Read { len: 64 });
}

#[test]
fn closed_stream_fails_the_handshake() {
    let mut handshake = sending(true, b"app");
    handshake.advance(Event::Done);
    assert_eq!(handshake.advance(Event::Closed), Operation::Abort(LaunchError::ConnectionClosed));
    assert_eq!(handshake.step(), Step::Failed(LaunchError::ConnectionClosed));
}

#[test]
fn short_reads_are_a_closed_connection() {
    let mut handshake = sending(true, b"app");
    handshake.advance(Event::Done);
    assert_eq!(
        handshake.advance(Event::Data(vec![1, 0])),
        Operation::Abort(LaunchError::ConnectionClosed)
    );
    let mut handshake = sending(true, b"app");
    handshake.advance(Event::Done);
    handshake.advance(Event::Data(vec![3, 0, 0, 0]));
    assert_eq!(
        handshake.advance(Event::Data(vec![1, 2])),
        Operation::Abort(LaunchError::ConnectionClosed)
    );
}

#[test]
fn failed_operation_fails_the_handshake() {
    let mut handshake = Handshake::new(format(), 30, true, Some(vec![1]));
    handshake.advance(Event::Start);
    assert_eq!(handshake.advance(Event::Failed), Operation::Abort(LaunchError::Io));
    assert_eq!(handshake.step(), Step::Failed(LaunchError::Io));
    let mut handshake = sending(false, b"app");
    handshake.advance(Event::Done);
    assert_eq!(handshake.advance(Event::Failed), Operation::Abort(LaunchError::Io));
}

#[test]
fn unexpected_events_fail_the_handshake() {
    let mut handshake = Handshake::new(format(), 30, true, Some(vec![1]));
    assert_eq!(handshake.advance(Event::Done), Operation::Abort(LaunchError::Io));
    let mut handshake = sending(true, b"app");
    assert_eq!(handshake.advance(Event::Data(vec![1])), Operation::Abort(LaunchError::Io));
    let mut handshake = sending(true, b"app");
    assert_eq!(handshake.advance(Event::Start), Operation::Abort(LaunchError::Io));
    let mut handshake = sending(true, b"app");
    handshake.advance(Event::Done);
    assert_eq!(handshake.advance(Event::Done), Operation::Abort(LaunchError::Io));
}

#[test]
fn payload_too_long_for_the_prefix_is_not_sent() {
    let narrow = FrameFormat::new(1, ByteOrder::LittleEndian, 255).unwrap();
    let mut handshake = Handshake::new(narrow, 30, false, Some(vec![0u8; 256]));
    assert_eq!(handshake.advance(Event::Start), Operation::SetReadTimeout { seconds: 30 });
    assert_eq!(handshake.advance(Event::Done), Operation::Abort(LaunchError::ProtocolViolation));
    assert_eq!(handshake.step(), Step::Failed(LaunchError::ProtocolViolation));
}

#[test]
fn handshake_that_is_over_stays_over() {
    let mut handshake = sending(true, b"app");
    handshake.advance(Event::Closed);
    for event in [Event::Start, Event::Done, Event::Data(vec![1]), Event::TimedOut, Event::Failed] {
        assert_eq!(handshake.advance(event), Operation::Abort(LaunchError::ConnectionClosed));
        assert_eq!(handshake.step(), Step::Failed(LaunchError::ConnectionClosed));
    }
}

#[test]
fn handshake_ends_within_six_events() {
    let mut handshake = Handshake::new(format(), 30, true, Some(b"a".to_vec()));
    let events = [
        Event::Start,
        Event::Done,
        Event::Done,
        Event::Data(vec![1, 0, 0, 0]),
        Event::Data(vec![1]),
        Event::Done,
    ];
    let mut count = 0;
    for event in events {
        assert!(!handshake.step().is_terminal());
        handshake.advance(event);
        count += 1;
    }
    assert_eq!(count, 6);
    assert_eq!(handshake.step(), Step::Complete);
}
