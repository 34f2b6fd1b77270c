//! Interpretation of what the device sends back after a frame.
//!
//! The device answers with exactly one byte: an acknowledgment or a negative
//! acknowledgment. Anything else is a protocol error and is reported with
//! everything that was read.

use vstd::prelude::*;

verus! {

/// The byte with which the device accepts a frame.
pub const OPCODE_ACK: u8 = 0xBA;

/// The byte with which the device rejects a frame.
pub const OPCODE_NACK: u8 = 0xAA;

/// What one read from the link amounts to.
#[derive(Clone, Debug, PartialEq, Eq)]
pub enum ResponseOutcome {
    /// One byte was read and it was the acknowledgment.
    Acknowledged,
    /// One byte was read and it was the negative acknowledgment.
    NegativeAcknowledged,
    /// The number of bytes read was not one: the count and the bytes.
    Malformed(usize, Vec<u8>),
    /// One byte was read and it was neither opcode: the byte.
    UnexpectedOpcode(u8),
}

/// The mathematical value of a `ResponseOutcome`.
pub enum ResponseOutcomeView {
    Acknowledged,
    NegativeAcknowledged,
    Malformed(nat, Seq<u8>),
    UnexpectedOpcode(u8),
}

impl View for ResponseOutcome {
    type V = ResponseOutcomeView;

    open spec fn view(&self) -> ResponseOutcomeView {
        match *self {
            ResponseOutcome::Acknowledged => ResponseOutcomeView::Acknowledged,
            ResponseOutcome::NegativeAcknowledged => ResponseOutcomeView::NegativeAcknowledged,
            ResponseOutcome::Malformed(count, bytes) => ResponseOutcomeView::Malformed(
                count as nat,
                bytes@,
            ),
            ResponseOutcome::UnexpectedOpcode(opcode) => ResponseOutcomeView::UnexpectedOpcode(
                opcode,
            ),
        }
    }
}

/// The outcome for the bytes that were read, in the order they arrived.
pub open spec fn classified(received: Seq<u8>) -> ResponseOutcomeView {
    if received.len() != 1 {
        ResponseOutcomeView::Malformed(received.len(), received)
    } else if received[0] == OPCODE_ACK {
        ResponseOutcomeView::Acknowledged
    } else if received[0] == OPCODE_NACK {
        ResponseOutcomeView::NegativeAcknowledged
    } else {
        ResponseOutcomeView::UnexpectedOpcode(received[0])
    }
}

/// Copies the first `count` bytes of a buffer.
fn copy_prefix(buffer: &[u8], count: usize) -> (bytes: Vec<u8>)
    requires
        count <= buffer@.len(),
    ensures
        bytes@ == buffer@.take(count as int),
{
    let mut bytes: Vec<u8> = Vec::new();
    let mut i: usize = 0;
    while i < count
        invariant
            i <= count <= buffer@.len(),
            bytes@ == buffer@.take(i as int),
        decreases count - i,
    {
        bytes.push(buffer[i]);
        i += 1;
    }
    bytes
}

/// Classifies the response to a frame from the number of bytes that a read
/// returned and the buffer it read into. Only the first `bytes_read` bytes of
/// the buffer count as read. A malformed response carries all of them.
pub fn classify_response(bytes_read: usize, buffer: &[u8]) -> (outcome: ResponseOutcome)
    requires
        bytes_read <= buffer@.len(),
    ensures
        outcome@ == classified(buffer@.take(bytes_read as int)),
{
    if bytes_read != 1 {
        let received = copy_prefix(buffer, bytes_read);
        return ResponseOutcome::Malformed(bytes_read, received);
    }
    let opcode = buffer[0];
    if opcode == OPCODE_ACK {
        ResponseOutcome::Acknowledged
    } else if opcode == OPCODE_NACK {
        ResponseOutcome::NegativeAcknowledged
    } else {
        ResponseOutcome::UnexpectedOpcode(opcode)
    }
}

/// A response is an acknowledgment exactly when it is the single
/// acknowledgment byte, a negative acknowledgment exactly when it is the
/// single negative acknowledgment byte, and malformed exactly when it is not
/// one byte long.
pub proof fn lemma_classified_cases(received: Seq<u8>)
    ensures
        classified(received) is Acknowledged <==> received == seq![OPCODE_ACK],
        classified(received) is NegativeAcknowledged <==> received == seq![OPCODE_NACK],
        classified(received) is Malformed <==> received.len() != 1,
{
    if received.len() == 1 {
        assert(received =~= seq![received[0]]);
    }
}

} // verus!
