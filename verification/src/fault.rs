//! Fault injection: a diagnostic hook that deliberately sends a wrong
//! checksum with a given probability, so that the error paths of the device
//! and of this client can be exercised.

use crate::frame::Frame;
use vstd::prelude::*;

verus! {

/// What is added to the checksum of a frame to corrupt it.
pub const FAULT_CHECKSUM_OFFSET: u16 = 10;

/// The probability, in percent, with which a fault is always injected. Random
/// bytes are reduced to `0..FULL_PROBABILITY` before they are compared with a
/// probability.
pub const FULL_PROBABILITY: u8 = 100;

/// The checksum field after corruption: the offset is added modulo 2^16.
pub open spec fn corrupted_checksum(checksum: u16) -> u16 {
    ((checksum + FAULT_CHECKSUM_OFFSET) % 0x1_0000) as u16
}

/// The frame with its checksum field corrupted and its payload untouched.
pub open spec fn corrupted(frame: Frame) -> Frame {
    Frame { temperature: frame.temperature, checksum: corrupted_checksum(frame.checksum) }
}

/// Whether a fault is injected for a probability in percent and a random
/// byte: never without a probability, else when the byte reduced to
/// `0..100` falls below the probability.
pub open spec fn fault_selected(probability: Option<u8>, draw: u8) -> bool {
    match probability {
        None => false,
        Some(p) => draw % FULL_PROBABILITY < p,
    }
}

/// The frame that is transmitted for a probability and a random byte.
pub open spec fn injected(frame: Frame, probability: Option<u8>, draw: u8) -> Frame {
    if fault_selected(probability, draw) {
        corrupted(frame)
    } else {
        frame
    }
}

/// Draws a byte from `rand::rng()` with `rand::Rng::random`.
///
/// Trusted, and nothing is claimed of the byte: every value may come back,
/// and two calls may differ.
#[verifier::external_body]
fn random_byte() -> u8 {
    let mut rng = rand::rng();
    rand::Rng::random::<u8>(&mut rng)
}

/// Decides for one random byte whether a fault is injected.
pub fn selects_fault(probability: Option<u8>, draw: u8) -> (selected: bool)
    ensures
        selected == fault_selected(probability, draw),
{
    match probability {
        None => false,
        Some(p) => draw % FULL_PROBABILITY < p,
    }
}

/// Corrupts the checksum field of a frame.
pub fn corrupt(frame: Frame) -> (out: Frame)
    ensures
        out == corrupted(frame),
{
    Frame {
        temperature: frame.temperature,
        checksum: frame.checksum.wrapping_add(FAULT_CHECKSUM_OFFSET),
    }
}

/// Applies fault injection for a random byte that the caller supplies.
pub fn inject_fault(frame: Frame, probability: Option<u8>, draw: u8) -> (out: Frame)
    ensures
        out == injected(frame, probability, draw),
{
    if selects_fault(probability, draw) {
        corrupt(frame)
    } else {
        frame
    }
}

/// Applies fault injection with a fresh random byte.
///
/// Which byte is drawn is not known, so the result is stated for some byte.
/// Without a probability, or with probability 0, the frame comes back
/// unchanged; with probability 100 or more it always comes back corrupted.
pub fn apply_fault_injection(frame: Frame, probability: Option<u8>) -> (out: Frame)
    ensures
        exists|draw: u8| out == #[trigger] injected(frame, probability, draw),
        out == frame || out == corrupted(frame),
        probability is None || probability == Some(0u8) ==> out == frame,
        probability matches Some(p) && p >= FULL_PROBABILITY ==> out == corrupted(frame),
{
    match probability {
        None => {
            assert(frame == injected(frame, probability, 0u8));
            frame
        },
        Some(_) => {
            let draw = random_byte();
            let out = inject_fault(frame, probability, draw);
            out
        },
    }
}

/// With probability 0 no random byte corrupts the frame, and without a
/// probability none does either.
pub proof fn lemma_zero_probability_never_corrupts(frame: Frame, draw: u8)
    ensures
        injected(frame, Some(0u8), draw) == frame,
        injected(frame, None, draw) == frame,
{
}

/// With probability 100 every random byte corrupts the frame, and the
/// corrupted frame differs from the one it was made from in its checksum
/// field only.
pub proof fn lemma_full_probability_always_corrupts(frame: Frame, draw: u8)
    ensures
        injected(frame, Some(FULL_PROBABILITY), draw) == corrupted(frame),
        corrupted(frame).checksum != frame.checksum,
        corrupted(frame).temperature == frame.temperature,
{
}

/// A frame that was intact is no longer intact once corrupted.
pub proof fn lemma_corruption_breaks_checksum(frame: Frame)
    requires
        frame.is_intact(),
    ensures
        !corrupted(frame).is_intact(),
{
}

} // verus!
