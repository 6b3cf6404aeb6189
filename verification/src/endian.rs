//! Little-endian decoding of 16-bit words, as the Game Boy stores them.
use vstd::prelude::*;
use byteorder::ByteOrder;

verus! {

/// The 16-bit value whose low byte is `lo` and high byte is `hi`.
pub open spec fn le_word(lo: u8, hi: u8) -> u16 {
    (lo as int + 256 * (hi as int)) as u16
}

/// Calls `byteorder::LittleEndian::read_u16`, which reads the first two
/// bytes of `buf` as a little-endian `u16` (`u16::from_le_bytes(buf[..2])`)
/// and panics when `buf` holds fewer than two bytes.
#[verifier::external_body]
pub(crate) fn read_u16_le(buf: &[u8]) -> (r: u16)
    requires
        buf@.len() >= 2,
    ensures
        r == le_word(buf@[0], buf@[1]),
{
    byteorder::LittleEndian::read_u16(buf)
}

} // verus!
