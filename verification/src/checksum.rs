//! The 8-bit checksum that guards every argument sent to the CO2 sensor.

use vstd::prelude::*;

verus! {

/// Initial value of the checksum register.
pub const CRC_INIT: u8 = 0xff;

/// Generator polynomial, x^8 + x^5 + x^4 + 1 without its top bit.
pub const CRC_POLYNOMIAL: u8 = 0x31;

/// One shift of the register: the top bit leaves, and where it was set the
/// polynomial is folded in.
pub open spec fn crc_shift(crc: u8) -> u8 {
    if crc & 0x80u8 != 0 {
        (crc << 1u8) ^ CRC_POLYNOMIAL
    } else {
        crc << 1u8
    }
}

/// `count` shifts in a row.
pub open spec fn crc_shifts(crc: u8, count: nat) -> u8
    decreases count,
{
    if count == 0 {
        crc
    } else {
        crc_shift(crc_shifts(crc, (count - 1) as nat))
    }
}

/// The register after one more message byte.
pub open spec fn crc_byte(crc: u8, byte: u8) -> u8 {
    crc_shifts(crc ^ byte, 8)
}

/// High byte of a 16-bit argument.
pub open spec fn high_byte(word: u16) -> u8 {
    (word / 256) as u8
}

/// Low byte of a 16-bit argument.
pub open spec fn low_byte(word: u16) -> u8 {
    (word % 256) as u8
}

/// Checksum of a 16-bit argument: both bytes, high byte first, no final XOR.
pub open spec fn crc(arguments: u16) -> u8 {
    crc_byte(crc_byte(CRC_INIT, high_byte(arguments)), low_byte(arguments))
}

/// Feeds one byte into the register.
fn update_crc(crc: u8, byte: u8) -> (next: u8)
    ensures
        next == crc_byte(crc, byte),
{
    let mut register: u8 = crc ^ byte;
    let mut shifted: u8 = 0;
    while shifted < 8
        invariant
            shifted <= 8,
            register == crc_shifts(crc ^ byte, shifted as nat),
        decreases 8 - shifted,
    {
        if (register & 0x80u8) != 0x00u8 {
            register = (register << 1u8) ^ CRC_POLYNOMIAL;
        } else {
            register = register << 1u8;
        }
        shifted = shifted + 1;
    }
    register
}

/// Computes the checksum the sensor expects after a 16-bit argument.
pub fn calculate_crc(arguments: u16) -> (checksum: u8)
    ensures
        checksum == crc(arguments),
{
    let high: u8 = (arguments >> 8u16) as u8;
    let low: u8 = (arguments & 0x00ffu16) as u8;
    assert(arguments >> 8u16 == arguments / 256) by (bit_vector);
    assert(arguments & 0x00ffu16 == arguments % 256) by (bit_vector);
    update_crc(update_crc(CRC_INIT, high), low)
}

} // verus!
