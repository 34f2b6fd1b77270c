//! CRC16/XMODEM, as computed by the `crc16` crate.

use vstd::prelude::*;

verus! {

/// The CRC16/XMODEM checksum of `data` (polynomial 0x1021, zero initial state).
///
/// The value is whatever `crc16::State::<crc16::XMODEM>::calculate` returns
/// for these bytes; nothing else is assumed about it.
pub uninterp spec fn crc16_xmodem(data: Seq<u8>) -> u16;

/// Calls `crc16::State::<crc16::XMODEM>::calculate`.
///
/// Trusted: the result depends on the bytes of `data` alone, so it is the
/// value that `crc16_xmodem` names for them. The call accepts every slice.
#[verifier::external_body]
pub(crate) fn xmodem_checksum(data: &[u8]) -> (crc: u16)
    ensures
        crc == crc16_xmodem(data@),
{
    crc16::State::<crc16::XMODEM>::calculate(data)
}

} // verus!
