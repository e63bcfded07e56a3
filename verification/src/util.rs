//! Checksums used by the device protocols.

use vstd::prelude::*;

verus! {

/// Generator polynomial of CRC-16/AUG-CCITT.
pub const CRC16_CCITT_POLY: u16 = 0x1021;

/// Initial register value of CRC-16/AUG-CCITT.
pub const CRC16_AUG_CCITT_INIT: u16 = 0x1d0f;

/// Shifts the CRC register `n` times, most significant bit first, feeding
/// in the polynomial whenever a one bit leaves the register.
pub open spec fn crc16_shift(crc: u16, n: nat) -> u16
    decreases n,
{
    if n == 0 {
        crc
    } else {
        let next = if crc & 0x8000u16 != 0 {
            (crc << 1u16) ^ CRC16_CCITT_POLY
        } else {
            crc << 1u16
        };
        crc16_shift(next, (n - 1) as nat)
    }
}

/// Feeds the bytes of `data` into the CRC register, one after the other.
pub open spec fn crc16_feed(crc: u16, data: Seq<u8>) -> u16
    decreases data.len(),
{
    if data.len() == 0 {
        crc
    } else {
        crc16_feed(crc16_shift(crc ^ ((data[0] as u16) << 8u16), 8), data.drop_first())
    }
}

/// CRC-16/AUG-CCITT of `data`: polynomial 0x1021, initial value 0x1d0f,
/// neither input nor output reflected, no final xor.
pub open spec fn crc16_aug_ccitt(data: Seq<u8>) -> u16 {
    crc16_feed(CRC16_AUG_CCITT_INIT, data)
}

/// CRC-16/AUG-CCITT of a message, as computed by the `crc16` crate's
/// `State::<AUG_CCITT>::calculate`. The crate documents this type by its
/// parameters (polynomial 0x1021, initial value 0x1d0f, no reflection, no
/// final xor); the contract states the checksum with those parameters.
#[verifier::external_body]
fn crc16_aug_ccitt_calculate(data: &[u8]) -> (r: u16)
    ensures
        r == crc16_aug_ccitt(data@),
{
    crc16::State::<crc16::AUG_CCITT>::calculate(data)
}

/// Implementation of CRC16_CCITT (the AUG-CCITT variant).
pub fn crc16_ccitt(data: &[u8]) -> (r: u16)
    ensures
        r == crc16_aug_ccitt(data@),
{
    crc16_aug_ccitt_calculate(data)
}

} // verus!
