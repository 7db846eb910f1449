//! The bootstrap handshake: the one exchange on the data socket that hands
//! the guest its initial data and, where asked for, takes its attestation
//! evidence.
//!
//! The handshake is a state machine. It does no I/O itself: each call of
//! [`Handshake::advance`] takes what happened to the last operation and
//! answers with the next one for the host to carry out on the data socket.
//! Nobody else may use that socket until the machine has ended.

use vstd::prelude::*;
use crate::envelope::{initial_data_bytes, law_v1_payload_parses, parse_envelope};
use crate::error::LaunchError;
use crate::framing::{
    frame_bytes,
    law_frame_holds_payload,
    lemma_prefix_roundtrip,
    length_prefix,
    parse_length,
    radix_capacity,
    ByteOrder,
    FrameFormat,
};
use crate::params::InitialDataVersion;

verus! {

/// The bound on every read of the handshake, in seconds, where the host
/// has no reason for another.
pub const DEFAULT_READ_TIMEOUT_SECS: u64 = 30;

/// Where a handshake stands: what it has asked the host for and not yet
/// heard of.
#[derive(Debug, Clone, Copy, PartialEq, Eq, Structural)]
pub enum Step {
    /// Nothing has been asked for yet.
    Idle,
    /// The read timeout is being installed.
    Arming,
    /// The initial data are being written.
    Sending,
    /// The initial data are sent; the prefix of the evidence is being read.
    EvidenceLengthAwaited,
    /// The evidence itself, of the given length, is being read.
    EvidenceAwaited { len: usize },
    /// The exchange is done; the read timeout is being removed.
    Disarming,
    /// The handshake is over and the socket is as it was.
    Complete,
    /// The handshake is over and the instance must be torn down.
    Failed(LaunchError),
}

impl Step {
    /// Whether the handshake is over.
    pub open spec fn spec_is_terminal(self) -> bool {
        self is Complete || self is Failed
    }

    /// Whether the handshake is over.
    #[verifier::when_used_as_spec(spec_is_terminal)]
    pub fn is_terminal(self) -> (over: bool)
        ensures
            over == self.spec_is_terminal(),
    {
        match self {
            Step::Complete | Step::Failed(_) => true,
            _ => false,
        }
    }

    /// Whether the read timeout is known to be installed.
    pub open spec fn armed(self) -> bool {
        self is Sending || self is EvidenceLengthAwaited || self is EvidenceAwaited
            || self is Disarming
    }

    /// An upper bound on the number of events that the handshake can still
    /// take before it is over.
    pub open spec fn remaining(self) -> nat {
        match self {
            Step::Idle => 6,
            Step::Arming => 5,
            Step::Sending => 4,
            Step::EvidenceLengthAwaited => 3,
            Step::EvidenceAwaited { .. } => 2,
            Step::Disarming => 1,
            Step::Complete => 0,
            Step::Failed(_) => 0,
        }
    }
}

/// What happened to the operation that the machine asked for last.
#[derive(Debug, PartialEq, Eq)]
pub enum Event {
    /// The host is ready to begin.
    Start,
    /// The operation was carried out; it brought no data.
    Done,
    /// The read brought these bytes.
    Data(Vec<u8>),
    /// The read timeout ran out.
    TimedOut,
    /// The peer closed the stream.
    Closed,
    /// The operation failed in another way.
    Failed,
}

/// An event, with its bytes as a sequence.
pub enum EventModel {
    Start,
    Done,
    Data(Seq<u8>),
    TimedOut,
    Closed,
    Failed,
}

impl View for Event {
    type V = EventModel;

    open spec fn view(&self) -> EventModel {
        match self {
            Event::Start => EventModel::Start,
            Event::Done => EventModel::Done,
            Event::Data(bytes) => EventModel::Data(bytes@),
            Event::TimedOut => EventModel::TimedOut,
            Event::Closed => EventModel::Closed,
            Event::Failed => EventModel::Failed,
        }
    }
}

/// What the host is to do next on the data socket.
#[derive(Debug, PartialEq, Eq)]
pub enum Operation {
    /// Bound every read by this many seconds.
    SetReadTimeout { seconds: u64 },
    /// Write all of these bytes.
    Write { bytes: Vec<u8> },
    /// Read exactly this many bytes.
    Read { len: usize },
    /// Let reads block without bound again.
    ClearReadTimeout,
    /// Nothing: the handshake has succeeded.
    Finish,
    /// Close the sockets and end the process: the handshake has failed.
    Abort(LaunchError),
}

/// An operation, with its bytes as a sequence.
pub enum OperationModel {
    SetReadTimeout { seconds: u64 },
    Write { bytes: Seq<u8> },
    Read { len: usize },
    ClearReadTimeout,
    Finish,
    Abort(LaunchError),
}

impl View for Operation {
    type V = OperationModel;

    open spec fn view(&self) -> OperationModel {
        match self {
            Operation::SetReadTimeout { seconds } => OperationModel::SetReadTimeout {
                seconds: *seconds,
            },
            Operation::Write { bytes } => OperationModel::Write { bytes: bytes@ },
            Operation::Read { len } => OperationModel::Read { len: *len },
            Operation::ClearReadTimeout => OperationModel::ClearReadTimeout,
            Operation::Finish => OperationModel::Finish,
            Operation::Abort(error) => OperationModel::Abort(*error),
        }
    }
}

impl OperationModel {
    /// Whether the operation touches the data socket.
    pub open spec fn is_io(self) -> bool {
        !(self is Finish || self is Abort)
    }
}

/// Bytes that may be absent, as a sequence that may be absent.
pub open spec fn bytes_view(bytes: Option<Vec<u8>>) -> Option<Seq<u8>> {
    match bytes {
        Some(b) => Some(b@),
        None => None,
    }
}

/// A handshake as a plain value.
pub struct HandshakeModel {
    /// Where the handshake stands.
    pub step: Step,
    /// Width of the length prefix, in bytes.
    pub width: nat,
    /// Byte order of the length prefix.
    pub order: ByteOrder,
    /// The longest evidence that is accepted.
    pub max_payload: nat,
    /// The bound on every read, in seconds.
    pub timeout_secs: u64,
    /// Whether the guest answers the initial data with evidence.
    pub exchange_evidence: bool,
    /// The initial data, if the guest is to get any.
    pub payload: Option<Seq<u8>>,
    /// The evidence, once it has arrived.
    pub evidence: Option<Seq<u8>>,
}

impl HandshakeModel {
    /// The handshake as it is, at another step.
    pub open spec fn at(self, step: Step) -> HandshakeModel {
        HandshakeModel { step, ..self }
    }

    /// The handshake ends in failure.
    pub open spec fn fail(self, error: LaunchError) -> (HandshakeModel, OperationModel) {
        (self.at(Step::Failed(error)), OperationModel::Abort(error))
    }

    /// The host is ready. Without initial data there is nothing to
    /// exchange; with them, reads are bounded first.
    pub open spec fn begin(self) -> (HandshakeModel, OperationModel) {
        match self.payload {
            None => (self.at(Step::Complete), OperationModel::Finish),
            Some(_) => (
                self.at(Step::Arming),
                OperationModel::SetReadTimeout { seconds: self.timeout_secs },
            ),
        }
    }

    /// Reads are bounded. The initial data go out as one frame, unless the
    /// prefix cannot express their length.
    pub open spec fn send(self) -> (HandshakeModel, OperationModel) {
        match self.payload {
            Some(payload) if payload.len() < radix_capacity(self.width) => (
                self.at(Step::Sending),
                OperationModel::Write { bytes: frame_bytes(payload, self.width, self.order) },
            ),
            _ => self.fail(LaunchError::ProtocolViolation),
        }
    }

    /// The initial data are sent. Evidence is read next where it is
    /// exchanged; else the exchange is done.
    pub open spec fn sent(self) -> (HandshakeModel, OperationModel) {
        if self.exchange_evidence {
            (
                self.at(Step::EvidenceLengthAwaited),
                OperationModel::Read { len: self.width as usize },
            )
        } else {
            (self.at(Step::Disarming), OperationModel::ClearReadTimeout)
        }
    }

    /// The prefix of the evidence has arrived.
    pub open spec fn prefix_read(self, prefix: Seq<u8>) -> (HandshakeModel, OperationModel) {
        match parse_length(prefix, self.width, self.order, self.max_payload) {
            Ok(n) => (
                self.at(Step::EvidenceAwaited { len: n as usize }),
                OperationModel::Read { len: n as usize },
            ),
            Err(error) => self.fail(error),
        }
    }

    /// The evidence has arrived, or the stream ended within it.
    pub open spec fn evidence_read(self, len: usize, bytes: Seq<u8>) -> (
        HandshakeModel,
        OperationModel,
    ) {
        if bytes.len() == len {
            (
                HandshakeModel { step: Step::Disarming, evidence: Some(bytes), ..self },
                OperationModel::ClearReadTimeout,
            )
        } else {
            self.fail(LaunchError::ConnectionClosed)
        }
    }

    /// The handshake after `event`, and the operation that the host is to
    /// carry out next.
    ///
    /// A handshake that is over stays as it is. Before that a timeout, a
    /// closed stream and a failed operation end it in failure, and so does
    /// an event that the step does not wait for.
    pub open spec fn next(self, event: EventModel) -> (HandshakeModel, OperationModel) {
        match self.step {
            Step::Complete => (self, OperationModel::Finish),
            Step::Failed(error) => (self, OperationModel::Abort(error)),
            _ => match event {
                EventModel::TimedOut => self.fail(LaunchError::HandshakeTimeout),
                EventModel::Closed => self.fail(LaunchError::ConnectionClosed),
                EventModel::Failed => self.fail(LaunchError::Io),
                EventModel::Start => match self.step {
                    Step::Idle => self.begin(),
                    _ => self.fail(LaunchError::Io),
                },
                EventModel::Done => match self.step {
                    Step::Arming => self.send(),
                    Step::Sending => self.sent(),
                    Step::Disarming => (self.at(Step::Complete), OperationModel::Finish),
                    _ => self.fail(LaunchError::Io),
                },
                EventModel::Data(bytes) => match self.step {
                    Step::EvidenceLengthAwaited => self.prefix_read(bytes),
                    Step::EvidenceAwaited { len } => self.evidence_read(len, bytes),
                    _ => self.fail(LaunchError::Io),
                },
            },
        }
    }
}

/// The bootstrap handshake of one guest instance.
#[derive(Debug)]
pub struct Handshake {
    step: Step,
    format: FrameFormat,
    timeout_secs: u64,
    exchange_evidence: bool,
    payload: Option<Vec<u8>>,
    evidence: Option<Vec<u8>>,
}

impl View for Handshake {
    type V = HandshakeModel;

    closed spec fn view(&self) -> HandshakeModel {
        HandshakeModel {
            step: self.step,
            width: self.format.width(),
            order: self.format.order(),
            max_payload: self.format.max(),
            timeout_secs: self.timeout_secs,
            exchange_evidence: self.exchange_evidence,
            payload: bytes_view(self.payload),
            evidence: bytes_view(self.evidence),
        }
    }
}

impl Handshake {
    /// A handshake that has not begun. `payload` is the initial data, `None`
    /// where the guest gets none.
    pub fn new(
        format: FrameFormat,
        timeout_secs: u64,
        exchange_evidence: bool,
        payload: Option<Vec<u8>>,
    ) -> (handshake: Handshake)
        ensures
            handshake@ == (HandshakeModel {
                step: Step::Idle,
                width: format.width(),
                order: format.order(),
                max_payload: format.max(),
                timeout_secs,
                exchange_evidence,
                payload: bytes_view(payload),
                evidence: None,
            }),
    {
        Handshake { step: Step::Idle, format, timeout_secs, exchange_evidence, payload, evidence: None }
    }

    /// Where the handshake stands.
    pub fn step(&self) -> (step: Step)
        ensures
            step == self@.step,
    {
        self.step
    }

    /// The evidence that the guest sent, once it has arrived.
    pub fn into_evidence(self) -> (evidence: Option<Vec<u8>>)
        ensures
            bytes_view(evidence) == self@.evidence,
    {
        self.evidence
    }

    /// Ends the handshake in failure.
    fn fail(&mut self, error: LaunchError) -> (operation: Operation)
        ensures
            (final(self)@, operation@) == old(self)@.fail(error),
    {
        self.step = Step::Failed(error);
        Operation::Abort(error)
    }

    /// Takes what happened to the last operation and answers with the next
    /// one.
    pub fn advance(&mut self, event: Event) -> (operation: Operation)
        ensures
            (final(self)@, operation@) == old(self)@.next(event@),
    {
        match self.step {
            Step::Complete => {
                return Operation::Finish;
            },
            Step::Failed(error) => {
                return Operation::Abort(error);
            },
            _ => {},
        }
        match event {
            Event::TimedOut => self.fail(LaunchError::HandshakeTimeout),
            Event::Closed => self.fail(LaunchError::ConnectionClosed),
            Event::Failed => self.fail(LaunchError::Io),
            Event::Start => match self.step {
                Step::Idle => {
                    if self.payload.is_some() {
                        self.step = Step::Arming;
                        Operation::SetReadTimeout { seconds: self.timeout_secs }
                    } else {
                        self.step = Step::Complete;
                        Operation::Finish
                    }
                },
                _ => self.fail(LaunchError::Io),
            },
            Event::Done => match self.step {
                Step::Arming => {
                    let frame = match &self.payload {
                        Some(payload) => self.format.encode_frame(payload.as_slice()),
                        None => None,
                    };
                    match frame {
                        Some(bytes) => {
                            self.step = Step::Sending;
                            Operation::Write { bytes }
                        },
                        None => self.fail(LaunchError::ProtocolViolation),
                    }
                },
                Step::Sending => {
                    if self.exchange_evidence {
                        self.step = Step::EvidenceLengthAwaited;
                        Operation::Read { len: self.format.prefix_width() }
                    } else {
                        self.step = Step::Disarming;
                        Operation::ClearReadTimeout
                    }
                },
                Step::Disarming => {
                    self.step = Step::Complete;
                    Operation::Finish
                },
                _ => self.fail(LaunchError::Io),
            },
            Event::Data(bytes) => match self.step {
                Step::EvidenceLengthAwaited => {
                    match self.format.decode_length(bytes.as_slice()) {
                        Ok(len) => {
                            self.step = Step::EvidenceAwaited { len };
                            Operation::Read { len }
                        },
                        Err(error) => self.fail(error),
                    }
                },
                Step::EvidenceAwaited { len } => {
                    if bytes.len() == len {
                        self.step = Step::Disarming;
                        self.evidence = Some(bytes);
                        Operation::ClearReadTimeout
                    } else {
                        self.fail(LaunchError::ConnectionClosed)
                    }
                },
                _ => self.fail(LaunchError::Io),
            },
        }
    }
}

/// Without initial data the handshake is complete at once, and the host
/// is asked for nothing on the socket, then or later.
pub proof fn law_no_payload_no_io(handshake: HandshakeModel, later: EventModel)
    requires
        handshake.step == Step::Idle,
        handshake.payload is None,
    ensures
        handshake.next(EventModel::Start) == (
            handshake.at(Step::Complete),
            OperationModel::Finish,
        ),
        !handshake.next(EventModel::Start).1.is_io(),
        !handshake.next(EventModel::Start).0.next(later).1.is_io(),
{
}

/// A read that times out ends the handshake in failure, whatever it was
/// waiting for: the host is told to tear the instance down, and no instance
/// is handed out.
pub proof fn law_timeout_fails(handshake: HandshakeModel)
    requires
        !handshake.step.is_terminal(),
    ensures
        handshake.next(EventModel::TimedOut) == (
            handshake.at(Step::Failed(LaunchError::HandshakeTimeout)),
            OperationModel::Abort(LaunchError::HandshakeTimeout),
        ),
{
}

/// Each event brings a handshake that is not over closer to its end: never
/// more than six events, and it is over.
pub proof fn law_every_event_makes_progress(handshake: HandshakeModel, event: EventModel)
    requires
        !handshake.step.is_terminal(),
    ensures
        handshake.next(event).0.step.remaining() < handshake.step.remaining(),
        handshake.step.remaining() <= 6,
        handshake.next(event).0.step.remaining() == 0 <==> handshake.next(
            event,
        ).0.step.is_terminal(),
{
}

/// A handshake that is over stays as it is, and asks for nothing on the
/// socket any more.
pub proof fn law_end_is_final(handshake: HandshakeModel, event: EventModel)
    requires
        handshake.step.is_terminal(),
    ensures
        handshake.next(event).0 == handshake,
        !handshake.next(event).1.is_io(),
        handshake.step is Complete ==> handshake.next(event).1 == OperationModel::Finish,
        handshake.step matches Step::Failed(error) ==> handshake.next(event).1
            == OperationModel::Abort(error),
{
}

/// No read is asked for before the host has confirmed that reads are
/// bounded, and the bound is the configured one.
pub proof fn law_reads_are_bounded(handshake: HandshakeModel, event: EventModel)
    ensures
        handshake.next(event).1 is Read ==> handshake.step.armed(),
        handshake.next(event).0.step.armed() ==> handshake.step.armed() || (handshake.step
            is Arming && event is Done),
        handshake.next(event).1 matches OperationModel::SetReadTimeout { seconds } ==> seconds
            == handshake.timeout_secs && handshake.step is Idle,
{
}

/// The handshake completes only once the host has confirmed that the read
/// timeout is removed, or where nothing was exchanged at all.
pub proof fn law_complete_leaves_no_timeout(handshake: HandshakeModel, event: EventModel)
    requires
        !(handshake.step is Complete),
        handshake.next(event).0.step is Complete,
    ensures
        (handshake.step is Disarming && event is Done) || (handshake.step is Idle
            && handshake.payload is None && event is Start),
{
}

/// No read asks for more bytes than the prefix has or the longest evidence
/// that is accepted.
pub proof fn law_reads_are_limited(handshake: HandshakeModel, event: EventModel)
    requires
        handshake.width <= usize::MAX,
        handshake.max_payload <= usize::MAX,
        handshake.step matches Step::EvidenceAwaited { len } ==> len <= handshake.max_payload,
    ensures
        handshake.next(event).1 matches OperationModel::Read { len } ==> len == handshake.width
            || len <= handshake.max_payload,
        handshake.next(event).0.step matches Step::EvidenceAwaited { len } ==> len
            <= handshake.max_payload,
{
}

/// What goes out is the initial data as one frame, and what comes back is
/// the payload of the frame that the guest sent: after the prefix and the
/// body of that frame the evidence is held as the guest wrote it.
pub proof fn law_evidence_is_what_the_guest_sent(handshake: HandshakeModel, evidence: Seq<u8>)
    requires
        handshake.step == Step::EvidenceLengthAwaited,
        handshake.max_payload <= usize::MAX,
        evidence.len() <= handshake.max_payload,
        handshake.max_payload < radix_capacity(handshake.width),
    ensures
        ({
            let frame = frame_bytes(evidence, handshake.width, handshake.order);
            let prefix = frame.subrange(0, handshake.width as int);
            let body = frame.skip(handshake.width as int);
            let after_prefix = handshake.next(EventModel::Data(prefix));
            let after_body = after_prefix.0.next(EventModel::Data(body));
            &&& after_prefix.1 == OperationModel::Read { len: evidence.len() as usize }
            &&& after_body.0.evidence == Some(evidence)
            &&& after_body.0.step == Step::Disarming
            &&& after_body.1 == OperationModel::ClearReadTimeout
        }),
{
    let frame = frame_bytes(evidence, handshake.width, handshake.order);
    let prefix = frame.subrange(0, handshake.width as int);
    lemma_prefix_roundtrip(evidence.len(), handshake.width, handshake.order);
    assert(prefix == length_prefix(evidence.len(), handshake.width, handshake.order));
    assert(frame.skip(handshake.width as int) == evidence);
}

/// In the first layout what is written to the socket is the length prefix
/// and then the application bytes as they are: no header, and nothing
/// between or after them.
pub proof fn law_v0_goes_out_unchanged(
    handshake: HandshakeModel,
    application_bytes: Seq<u8>,
    v1_header: Seq<u8>,
)
    requires
        handshake.step == Step::Arming,
        handshake.payload == Some(
            initial_data_bytes(InitialDataVersion::V0, application_bytes, v1_header),
        ),
        application_bytes.len() < radix_capacity(handshake.width),
    ensures
        handshake.next(EventModel::Done) == (
            handshake.at(Step::Sending),
            OperationModel::Write {
                bytes: length_prefix(application_bytes.len(), handshake.width, handshake.order)
                    + application_bytes,
            },
        ),
        handshake.next(EventModel::Done).1->Write_bytes.len() == handshake.width
            + application_bytes.len(),
        handshake.next(EventModel::Done).1->Write_bytes.skip(handshake.width as int)
            == application_bytes,
{
    law_frame_holds_payload(application_bytes, handshake.width, handshake.order);
}

/// In the second layout what is written to the socket behind the length
/// prefix starts with the header, and what follows the header parses to the
/// application bytes and no endorsement.
pub proof fn law_v1_goes_out_as_header_and_envelope(
    handshake: HandshakeModel,
    application_bytes: Seq<u8>,
    v1_header: Seq<u8>,
)
    requires
        handshake.step == Step::Arming,
        handshake.payload == Some(
            initial_data_bytes(InitialDataVersion::V1, application_bytes, v1_header),
        ),
        application_bytes.len() <= usize::MAX,
        initial_data_bytes(InitialDataVersion::V1, application_bytes, v1_header).len()
            < radix_capacity(handshake.width),
    ensures
        handshake.next(EventModel::Done).1 is Write,
        ({
            let written = handshake.next(EventModel::Done).1->Write_bytes;
            let payload = written.skip(handshake.width as int);
            &&& payload.len() >= v1_header.len()
            &&& payload.subrange(0, v1_header.len() as int) == v1_header
            &&& parse_envelope(payload.skip(v1_header.len() as int)) == Some(
                (application_bytes, Seq::<u8>::empty()),
            )
        }),
{
    let payload = initial_data_bytes(InitialDataVersion::V1, application_bytes, v1_header);
    law_frame_holds_payload(payload, handshake.width, handshake.order);
    law_v1_payload_parses(application_bytes, v1_header);
}

} // verus!
