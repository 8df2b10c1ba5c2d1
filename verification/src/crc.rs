//! The CRC-16 digest that trails every protocol frame.

use vstd::prelude::*;

verus! {

/// The CRC-16/CCITT digest of a byte sequence, as the Buds protocol computes
/// it. The digest is a function of the bytes alone; its value is left
/// uninterpreted and supplied by the protocol crate at run time.
pub uninterp spec fn crc_of(data: Seq<u8>) -> u16;

/// Relies on galaxy_buds_rs::utils::crc16::crc16_ccitt: the table-driven
/// CRC-16/CCITT digest over the first `data.len()` bytes, masked to 16 bits;
/// it depends on the bytes alone.
#[verifier::external_body]
pub(crate) fn crc16(data: &Vec<u8>) -> (r: u16)
    ensures
        r == crc_of(data@),
{
    (galaxy_buds_rs::utils::crc16::crc16_ccitt(data, data.len()) & 0xFFFF) as u16
}

} // verus!
