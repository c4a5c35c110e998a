//! The instruction wire format: one leading opcode byte selects the
//! operation, and an open/modify call carries a 24-byte little-endian
//! payload of exposure delta, collateral top-up, and price. Also the
//! byte framing of the token-transfer call handed to the asset gateway.

use vstd::prelude::*;
use vstd::bytes::lemma_auto_spec_u64_to_from_le_bytes;
use vstd::bytes::spec_u64_from_le_bytes;
use vstd::bytes::spec_u64_to_le_bytes;
use vstd::bytes::u64_from_le_bytes;
use vstd::bytes::u64_to_le_bytes;
use vstd::slice::slice_index_get;
use vstd::slice::slice_subrange;

use crate::types::PerpError;

verus! {

/// A decoded instruction, ready for dispatch.
#[derive(Clone, Copy, Debug, PartialEq, Eq, Structural)]
pub enum PerpInstruction {
    /// Open a fresh position or adjust an existing one.
    OpenOrModify { base_delta: i64, collateral_delta: u64, price: u64 },
    /// Advance the market's funding index to the current tick.
    AdvanceFunding,
    /// Force-close an under-margined position.
    Liquidate,
    /// Voluntarily close the caller's own position.
    Close,
}

/// The signed reading of a 64-bit word in two's complement.
pub open spec fn twos_complement_i64(u: u64) -> int {
    if u <= i64::MAX as u64 {
        u as int
    } else {
        u as int - 0x1_0000_0000_0000_0000
    }
}

/// What a byte string decodes to: an empty or short payload is
/// malformed, an unknown leading opcode byte is invalid, and the
/// open/modify payload reads three little-endian 64-bit fields (extra
/// trailing bytes are ignored).
pub open spec fn decode_of(data: Seq<u8>) -> Result<PerpInstruction, PerpError> {
    if data.len() == 0 {
        Err(PerpError::InvalidPayload)
    } else if data[0] == 0 {
        if data.len() < 25 {
            Err(PerpError::InvalidPayload)
        } else {
            Ok(
                PerpInstruction::OpenOrModify {
                    base_delta: twos_complement_i64(
                        spec_u64_from_le_bytes(data.subrange(1, 9)),
                    ) as i64,
                    collateral_delta: spec_u64_from_le_bytes(data.subrange(9, 17)),
                    price: spec_u64_from_le_bytes(data.subrange(17, 25)),
                },
            )
        }
    } else if data[0] == 1 {
        Ok(PerpInstruction::AdvanceFunding)
    } else if data[0] == 2 {
        Ok(PerpInstruction::Liquidate)
    } else if data[0] == 3 {
        Ok(PerpInstruction::Close)
    } else {
        Err(PerpError::InvalidOpcode)
    }
}

/// Reinterpret a 64-bit word as the signed value it spells in two's
/// complement.
pub fn i64_from_twos_complement(u: u64) -> (r: i64)
    ensures
        r as int == twos_complement_i64(u),
{
    if u <= i64::MAX as u64 {
        u as i64
    } else {
        let neg: u64 = u64::MAX - u;
        -(neg as i64) - 1
    }
}

/// Decode an instruction from its wire bytes.
pub fn decode_instruction(data: &[u8]) -> (r: Result<PerpInstruction, PerpError>)
    ensures
        r == decode_of(data@),
{
    if data.len() == 0 {
        return Err(PerpError::InvalidPayload);
    }
    let tag: u8 = *slice_index_get(data, 0);
    if tag == 0 {
        if data.len() < 25 {
            return Err(PerpError::InvalidPayload);
        }
        let raw_base: u64 = u64_from_le_bytes(slice_subrange(data, 1, 9));
        let collateral_delta: u64 = u64_from_le_bytes(slice_subrange(data, 9, 17));
        let price: u64 = u64_from_le_bytes(slice_subrange(data, 17, 25));
        let base_delta: i64 = i64_from_twos_complement(raw_base);
        Ok(PerpInstruction::OpenOrModify { base_delta, collateral_delta, price })
    } else if tag == 1 {
        Ok(PerpInstruction::AdvanceFunding)
    } else if tag == 2 {
        Ok(PerpInstruction::Liquidate)
    } else if tag == 3 {
        Ok(PerpInstruction::Close)
    } else {
        Err(PerpError::InvalidOpcode)
    }
}

/// Byte framing of the token-transfer call the host hands to the asset
/// gateway: the gateway's transfer opcode byte, then the amount,
/// little-endian.
pub fn transfer_instruction_data(amount: u64) -> (r: Vec<u8>)
    ensures
        r@.len() == 9,
        r@[0] == 3u8,
        r@.subrange(1, 9) == spec_u64_to_le_bytes(amount),
{
    let mut data: Vec<u8> = Vec::new();
    data.push(3u8);
    let mut le: Vec<u8> = u64_to_le_bytes(amount);
    data.append(&mut le);
    proof {
        lemma_auto_spec_u64_to_from_le_bytes();
        assert(data@.subrange(1, 9) =~= spec_u64_to_le_bytes(amount));
    }
    data
}

} // verus!
