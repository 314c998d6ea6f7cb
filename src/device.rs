//! The stable per-device identifier: the PCI bus id that a vendor capability
//! query reports as four little-endian bytes.

use vstd::prelude::*;

verus! {

/// The capability query that reports a device's PCI bus id.
pub const PCI_BUS_ID_QUERY: u32 = 0x4008;

/// Why a device's identifier could not be read.
#[derive(Clone, Copy, Debug, PartialEq, Eq, Structural)]
pub enum BusIdError {
    /// The query answered with fewer than four bytes.
    ShortReply,
}

/// The little-endian value of the first four bytes.
pub open spec fn le_u32(b: Seq<u8>) -> nat {
    b[0] as nat + b[1] as nat * 0x100 + b[2] as nat * 0x1_0000 + b[3] as nat * 0x100_0000
}

/// The bus id in the raw answer of the capability query: its first four
/// bytes, least significant first.
pub fn bus_id_from_raw(raw: &Vec<u8>) -> (r: Result<u32, BusIdError>)
    ensures
        raw@.len() < 4 ==> r == Err::<u32, BusIdError>(BusIdError::ShortReply),
        raw@.len() >= 4 ==> (r matches Ok(id) && id as nat == le_u32(raw@)),
{
    if raw.len() < 4 {
        return Err(BusIdError::ShortReply);
    }
    let b0 = raw[0] as u32;
    let b1 = raw[1] as u32;
    let b2 = raw[2] as u32;
    let b3 = raw[3] as u32;
    Ok(b0 + b1 * 0x100 + b2 * 0x1_0000 + b3 * 0x100_0000)
}

} // verus!
