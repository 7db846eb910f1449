//! The channel bridge: many callers, one channel.
//!
//! The bridge owns the data channel of an instance once the handshake is
//! over. Callers hand it messages; each message goes out as one frame, in
//! the order in which the messages were handed in. Each message that comes
//! in answers the oldest message that is still unanswered. The bridge keeps
//! the book; the host writes the frames and reads the answers.

use vstd::prelude::*;
use crate::framing::{frame_bytes, radix_capacity, FrameFormat};

verus! {

/// A message that was taken for sending.
#[derive(Debug, PartialEq, Eq)]
pub struct Submission {
    /// The number under which the answer will be delivered.
    pub ticket: u64,
    /// The bytes to write to the channel.
    pub frame: Vec<u8>,
}

/// A message that came in, with the ticket that it answers.
#[derive(Debug, PartialEq, Eq)]
pub struct Delivery {
    /// The ticket of the message that is answered.
    pub ticket: u64,
    /// The payload that came in.
    pub payload: Vec<u8>,
}

/// The book of a bridge as a plain value.
pub struct BridgeModel {
    /// The number of tickets handed out so far, which is the next ticket.
    pub issued: nat,
    /// The tickets that are not answered yet, the oldest first.
    pub waiting: Seq<u64>,
}

impl BridgeModel {
    /// Tickets wait in the order in which they were handed out, and none
    /// waits that was not handed out.
    pub open spec fn ordered(self) -> bool {
        &&& forall|i: int, j: int|
            0 <= i < j < self.waiting.len() ==> self.waiting[i] < self.waiting[j]
        &&& forall|i: int| 0 <= i < self.waiting.len() ==> self.waiting[i] < self.issued
    }

    /// The book after a message was taken for sending.
    pub open spec fn submitted(self) -> BridgeModel {
        BridgeModel { issued: self.issued + 1, waiting: self.waiting.push(self.issued as u64) }
    }

    /// The book after the oldest waiting message was answered.
    pub open spec fn delivered(self) -> BridgeModel {
        BridgeModel { issued: self.issued, waiting: self.waiting.drop_first() }
    }
}

/// The bridge between the callers and the channel of one instance.
#[derive(Debug)]
pub struct Bridge {
    format: FrameFormat,
    next_ticket: u64,
    waiting: Vec<u64>,
}

impl View for Bridge {
    type V = BridgeModel;

    closed spec fn view(&self) -> BridgeModel {
        BridgeModel { issued: self.next_ticket as nat, waiting: self.waiting@ }
    }
}

impl Bridge {
    /// The framing of the channel.
    pub closed spec fn frame_format(&self) -> FrameFormat {
        self.format
    }

    /// A bridge on a channel on which nothing was sent yet.
    pub fn new(format: FrameFormat) -> (bridge: Bridge)
        ensures
            bridge@.issued == 0,
            bridge@.waiting == Seq::<u64>::empty(),
            bridge.frame_format() == format,
    {
        Bridge { format, next_ticket: 0, waiting: Vec::new() }
    }

    /// The framing of the channel.
    pub fn format(&self) -> (format: FrameFormat)
        ensures
            format == self.frame_format(),
    {
        self.format
    }

    /// The number of messages that are not answered yet.
    pub fn pending(&self) -> (count: usize)
        ensures
            count == self@.waiting.len(),
    {
        self.waiting.len()
    }

    /// Takes a message for sending: gives it the next ticket and frames
    /// it. The host writes the frames in the order in which they are
    /// returned. A message that the prefix cannot express is not taken, nor
    /// any once the tickets have run out.
    pub fn submit(&mut self, message: &[u8]) -> (taken: Option<Submission>)
        ensures
            final(self).frame_format() == old(self).frame_format(),
            old(self)@.issued < u64::MAX && message@.len() < radix_capacity(
                old(self).frame_format().width(),
            ) ==> taken is Some && taken->Some_0.ticket == old(self)@.issued
                && taken->Some_0.frame@ == frame_bytes(
                message@,
                old(self).frame_format().width(),
                old(self).frame_format().order(),
            ) && final(self)@ == old(self)@.submitted(),
            !(old(self)@.issued < u64::MAX && message@.len() < radix_capacity(
                old(self).frame_format().width(),
            )) ==> taken is None && final(self)@ == old(self)@,
    {
        if self.next_ticket == u64::MAX {
            return None;
        }
        match self.format.encode_frame(message) {
            None => None,
            Some(frame) => {
                let ticket = self.next_ticket;
                self.next_ticket = ticket + 1;
                self.waiting.push(ticket);
                Some(Submission { ticket, frame })
            },
        }
    }

    /// Takes a message that came in: it answers the oldest message that is
    /// still unanswered. `None` where no message waits for an answer; the
    /// payload is then dropped.
    pub fn deliver(&mut self, payload: Vec<u8>) -> (answer: Option<Delivery>)
        ensures
            final(self).frame_format() == old(self).frame_format(),
            old(self)@.waiting.len() > 0 ==> answer is Some && answer->Some_0.ticket == old(
                self,
            )@.waiting[0] && answer->Some_0.payload == payload && final(self)@ == old(
                self,
            )@.delivered(),
            old(self)@.waiting.len() == 0 ==> answer is None && final(self)@ == old(self)@,
    {
        if self.waiting.len() == 0 {
            return None;
        }
        let ticket = self.waiting.remove(0);
        proof {
            assert(self.waiting@ == old(self).waiting@.drop_first());
        }
        Some(Delivery { ticket, payload })
    }
}

/// The book of a new bridge is in order.
pub proof fn law_new_bridge_is_ordered(bridge: BridgeModel)
    requires
        bridge.waiting.len() == 0,
    ensures
        bridge.ordered(),
{
}

/// Answers go to the messages in the order in which the messages were
/// handed in: tickets are handed out in rising order, a new ticket is
/// younger than all that wait, and the ticket that is answered next is the
/// oldest that waits.
pub proof fn law_first_in_first_answered(bridge: BridgeModel, i: int)
    requires
        bridge.ordered(),
        bridge.issued < u64::MAX,
        0 <= i < bridge.waiting.len(),
    ensures
        bridge.waiting[0] <= bridge.waiting[i],
        bridge.waiting[i] < bridge.submitted().waiting.last(),
        bridge.submitted().waiting.last() == bridge.issued,
        bridge.submitted().ordered(),
        bridge.delivered().ordered(),
        i > 0 ==> bridge.delivered().waiting[i - 1] == bridge.waiting[i],
{
}

/// A message that is handed in while others wait is answered after all of
/// them: as many answers as messages waited before it go to those, and the
/// next one goes to it.
pub proof fn law_answered_in_turn(bridge: BridgeModel)
    requires
        bridge.ordered(),
        bridge.issued < u64::MAX,
    ensures
        ({
            let after = bridge.submitted();
            &&& after.waiting.len() == bridge.waiting.len() + 1
            &&& after.waiting[bridge.waiting.len() as int] == bridge.issued
            &&& forall|k: int| 0 <= k < bridge.waiting.len() ==> after.waiting[k] == bridge.waiting[k]
        }),
{
}

} // verus!
