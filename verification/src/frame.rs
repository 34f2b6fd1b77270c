//! The calibration frame and its wire encoding.
//!
//! A frame is six bytes: a start marker, the payload length, the temperature
//! in tenths of a degree Celsius as a little-endian signed 16-bit value, and a
//! little-endian CRC16/XMODEM checksum over the length byte and the payload.

use crate::checksum::{crc16_xmodem, xmodem_checksum};
use vstd::prelude::*;
use vstd::slice::slice_subrange;

verus! {

/// First byte of every frame.
pub const FRAME_START: u8 = 0xFF;

/// Number of payload bytes, sent as the second byte of every frame.
pub const PAYLOAD_LEN: u8 = 0x02;

/// Total number of bytes of a frame on the wire.
pub const FRAME_LEN: usize = 6;

/// The value in `0..65536` that has the same 16 bits as `value` in two's
/// complement.
pub open spec fn unsigned_image(value: i16) -> int {
    if value < 0 {
        value + 0x1_0000
    } else {
        value as int
    }
}

/// The signed 16-bit value whose two's complement bits are those of `word`,
/// for `word` in `0..65536`.
pub open spec fn signed_image(word: int) -> int {
    if word >= 0x8000 {
        word - 0x1_0000
    } else {
        word
    }
}

/// Little-endian bytes of a word in `0..65536`: low byte first.
pub open spec fn le_bytes(word: int) -> Seq<u8> {
    seq![(word % 256) as u8, (word / 256) as u8]
}

/// The word that two little-endian bytes stand for.
pub open spec fn le_word(bytes: Seq<u8>) -> int {
    bytes[0] + 256 * bytes[1]
}

/// Little-endian encoding of a temperature.
pub open spec fn temperature_bytes(temperature: i16) -> Seq<u8> {
    le_bytes(unsigned_image(temperature))
}

/// The temperature that two payload bytes encode.
pub open spec fn decoded_temperature(payload: Seq<u8>) -> int {
    signed_image(le_word(payload))
}

/// The bytes that the checksum of a frame covers: the length byte followed by
/// the payload. The start marker and the checksum itself are not covered.
pub open spec fn checksum_input(temperature: i16) -> Seq<u8> {
    seq![PAYLOAD_LEN] + temperature_bytes(temperature)
}

/// The checksum of an uncorrupted frame for `temperature`.
pub open spec fn intact_checksum(temperature: i16) -> u16 {
    crc16_xmodem(checksum_input(temperature))
}

/// The wire image of a frame with the given temperature and checksum field.
pub open spec fn frame_bytes(temperature: i16, checksum: u16) -> Seq<u8> {
    seq![FRAME_START, PAYLOAD_LEN] + temperature_bytes(temperature) + le_bytes(checksum as int)
}

/// One calibration frame: the temperature it carries and the value of its
/// checksum field. The view of a frame is its wire image.
#[derive(Clone, Copy, Debug, PartialEq, Eq, Structural)]
pub struct Frame {
    pub temperature: i16,
    pub checksum: u16,
}

impl View for Frame {
    type V = Seq<u8>;

    open spec fn view(&self) -> Seq<u8> {
        frame_bytes(self.temperature, self.checksum)
    }
}

/// Splits a word into its low and high byte.
fn split_word(word: u16) -> (bytes: (u8, u8))
    ensures
        seq![bytes.0, bytes.1] == le_bytes(word as int),
{
    let low: u8 = (word % 256) as u8;
    let high: u8 = (word / 256) as u8;
    (low, high)
}

/// Splits a temperature into the low and high byte of its two's complement
/// representation.
fn split_temperature(temperature: i16) -> (bytes: (u8, u8))
    ensures
        seq![bytes.0, bytes.1] == temperature_bytes(temperature),
{
    let wide: i32 = temperature as i32;
    let word: u16 = if wide < 0 {
        (wide + 0x1_0000) as u16
    } else {
        wide as u16
    };
    split_word(word)
}

/// The uncorrupted frame for `temperature`.
pub open spec fn intact_frame(temperature: i16) -> Frame {
    Frame { temperature, checksum: intact_checksum(temperature) }
}

impl Frame {
    /// True if the checksum field holds the checksum of the frame's own
    /// length byte and payload.
    pub open spec fn is_intact(self) -> bool {
        self.checksum == intact_checksum(self.temperature)
    }

    /// Serializes the frame to its six wire bytes.
    pub fn to_bytes(&self) -> (bytes: Vec<u8>)
        ensures
            bytes@ == self@,
            bytes@.len() == FRAME_LEN,
    {
        let payload = split_temperature(self.temperature);
        let check = split_word(self.checksum);
        let mut bytes: Vec<u8> = Vec::new();
        bytes.push(FRAME_START);
        bytes.push(PAYLOAD_LEN);
        bytes.push(payload.0);
        bytes.push(payload.1);
        bytes.push(check.0);
        bytes.push(check.1);
        assert(bytes@ =~= self@);
        bytes
    }
}

/// Builds the frame for a temperature: the payload is the temperature in
/// little-endian order and the checksum is CRC16/XMODEM over the length byte
/// and the payload.
pub fn encode(temperature: i16) -> (frame: Frame)
    ensures
        frame == intact_frame(temperature),
        frame.is_intact(),
        frame@.len() == FRAME_LEN,
        frame@[0] == FRAME_START,
        frame@[1] == PAYLOAD_LEN,
        frame@.subrange(2, 4) == temperature_bytes(temperature),
        frame@.subrange(4, 6) == le_bytes(crc16_xmodem(frame@.subrange(1, 4)) as int),
{
    let payload = split_temperature(temperature);
    let mut message: Vec<u8> = Vec::new();
    message.push(FRAME_START);
    message.push(PAYLOAD_LEN);
    message.push(payload.0);
    message.push(payload.1);
    let covered = slice_subrange(message.as_slice(), 1, 4);
    assert(covered@ =~= checksum_input(temperature));
    let checksum = xmodem_checksum(covered);
    let frame = Frame { temperature, checksum };
    proof {
        lemma_frame_layout(temperature, checksum);
    }
    frame
}

/// The layout of a frame's wire image: six bytes, of which the first is the
/// start marker, the second the payload length, the next two the temperature
/// and the last two the checksum field, both low byte first. The bytes at
/// positions 1 to 3 are the ones a checksum covers.
pub proof fn lemma_frame_layout(temperature: i16, checksum: u16)
    ensures
        frame_bytes(temperature, checksum).len() == FRAME_LEN,
        frame_bytes(temperature, checksum)[0] == FRAME_START,
        frame_bytes(temperature, checksum)[1] == PAYLOAD_LEN,
        frame_bytes(temperature, checksum).subrange(1, 4) == checksum_input(temperature),
        frame_bytes(temperature, checksum).subrange(2, 4) == temperature_bytes(temperature),
        frame_bytes(temperature, checksum).subrange(4, 6) == le_bytes(checksum as int),
{
}

/// Decoding the payload bytes of a frame gives back the temperature that the
/// frame was built from, for every temperature and whatever the checksum.
pub proof fn lemma_temperature_round_trip(temperature: i16, checksum: u16)
    ensures
        decoded_temperature(frame_bytes(temperature, checksum).subrange(2, 4)) == temperature,
        decoded_temperature(temperature_bytes(temperature)) == temperature,
{
    lemma_frame_layout(temperature, checksum);
}

/// Decoding the checksum bytes of a frame gives back the checksum field.
pub proof fn lemma_checksum_round_trip(temperature: i16, checksum: u16)
    ensures
        le_word(frame_bytes(temperature, checksum).subrange(4, 6)) == checksum,
{
    lemma_frame_layout(temperature, checksum);
}

} // verus!
