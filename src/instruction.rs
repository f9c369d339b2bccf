use vstd::bytes::{spec_u32_from_le_bytes, spec_u64_from_le_bytes};
use vstd::prelude::*;

use crate::error::LookupTableError;
use crate::state::PUBKEY_BYTES;

verus! {

/// Offset of the first address in an Extend payload.
pub const EXTEND_ADDRESSES_START: usize = 12;

/// An instruction, decoded from its little-endian wire form: a 4-byte
/// discriminator, then the payload.
#[derive(Clone, Copy, Debug, PartialEq, Eq, Structural)]
pub enum LookupTableInstruction {
    /// Discriminator 0: an 8-byte slot and a 1-byte bump.
    Create { recent_slot: u64, bump_seed: u8 },
    /// Discriminator 1.
    Freeze,
    /// Discriminator 2: an 8-byte count, then that many 32-byte addresses,
    /// which run from `EXTEND_ADDRESSES_START` to the end of the data.
    Extend { address_count: u64 },
    /// Discriminator 3.
    Deactivate,
    /// Discriminator 4.
    Close,
}

pub open spec fn discriminator(d: Seq<u8>) -> u32 {
    spec_u32_from_le_bytes(d.subrange(0, 4))
}

pub open spec fn payload_u64(d: Seq<u8>) -> u64 {
    spec_u64_from_le_bytes(d.subrange(4, 12))
}

/// What `data` decodes to, `None` when it is malformed.
pub open spec fn decoded(d: Seq<u8>) -> Option<LookupTableInstruction> {
    if d.len() < 4 {
        None
    } else if discriminator(d) == 0 {
        if d.len() < 13 {
            None
        } else {
            Some(LookupTableInstruction::Create { recent_slot: payload_u64(d), bump_seed: d[12] })
        }
    } else if discriminator(d) == 1 {
        Some(LookupTableInstruction::Freeze)
    } else if discriminator(d) == 2 {
        if d.len() < 12 || d.len() != EXTEND_ADDRESSES_START + PUBKEY_BYTES * payload_u64(d) {
            None
        } else {
            Some(LookupTableInstruction::Extend { address_count: payload_u64(d) })
        }
    } else if discriminator(d) == 3 {
        Some(LookupTableInstruction::Deactivate)
    } else if discriminator(d) == 4 {
        Some(LookupTableInstruction::Close)
    } else {
        None
    }
}

/// Decodes an instruction; malformed data is `InvalidInstructionData`.
pub fn unpack_instruction(data: &[u8]) -> (r: Result<LookupTableInstruction, LookupTableError>)
    ensures
        r matches Ok(i) ==> decoded(data@) == Some(i),
        r matches Err(e) ==> decoded(data@) is None && e == LookupTableError::InvalidInstructionData,
{
    let len = data.len();
    if len < 4 {
        return Err(LookupTableError::InvalidInstructionData);
    }
    let tag = vstd::bytes::u32_from_le_bytes(vstd::slice::slice_subrange(data, 0, 4));
    if tag == 0 {
        if len < 13 {
            return Err(LookupTableError::InvalidInstructionData);
        }
        let recent_slot = vstd::bytes::u64_from_le_bytes(vstd::slice::slice_subrange(data, 4, 12));
        Ok(LookupTableInstruction::Create { recent_slot, bump_seed: data[12] })
    } else if tag == 1 {
        Ok(LookupTableInstruction::Freeze)
    } else if tag == 2 {
        if len < 12 {
            return Err(LookupTableError::InvalidInstructionData);
        }
        let count = vstd::bytes::u64_from_le_bytes(vstd::slice::slice_subrange(data, 4, 12));
        let room = ((len - EXTEND_ADDRESSES_START) / PUBKEY_BYTES) as u64;
        if count > room || (len - EXTEND_ADDRESSES_START) % PUBKEY_BYTES != 0 {
            assert(len != 12 + 32 * count) by (nonlinear_arith)
                requires
                    count > room || (len - 12) % 32 != 0,
                    room == (len - 12) / 32,
                    len >= 12,
            ;
            return Err(LookupTableError::InvalidInstructionData);
        }
        if count != room {
            assert(len != 12 + 32 * count) by (nonlinear_arith)
                requires
                    count != room,
                    room == (len - 12) / 32,
                    (len - 12) % 32 == 0,
                    len >= 12,
            ;
            return Err(LookupTableError::InvalidInstructionData);
        }
        assert(len == 12 + 32 * count) by (nonlinear_arith)
            requires
                count == room,
                room == (len - 12) / 32,
                (len - 12) % 32 == 0,
                len >= 12,
        ;
        Ok(LookupTableInstruction::Extend { address_count: count })
    } else if tag == 3 {
        Ok(LookupTableInstruction::Deactivate)
    } else if tag == 4 {
        Ok(LookupTableInstruction::Close)
    } else {
        Err(LookupTableError::InvalidInstructionData)
    }
}

} // verus!
