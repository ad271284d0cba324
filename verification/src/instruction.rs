//! The instruction wire format.
//!
//! An instruction payload is a one-byte operation tag followed by
//! fixed-width little-endian fields: tag 0 `Initialize(price, add_sol)`
//! (two 8-byte fields), tag 1 `Buy(amount)`, tag 2 `Sell(amount)`,
//! tag 3 `UpdatePrice(new_price)` (one 8-byte field each).  Any other
//! length, tag, or trailing bytes is malformed.

use vstd::prelude::*;
use vstd::bytes::{spec_u64_from_le_bytes, spec_u64_to_le_bytes, u64_from_le_bytes, u64_to_le_bytes,
    lemma_auto_spec_u64_to_from_le_bytes};
use vstd::slice::{slice_index_get, slice_subrange};

use crate::error::ProgramError;
use crate::store::{Amount, Price};

verus! {

/// One decoded operation with its parameters.
#[derive(Debug, Clone, Copy, PartialEq, Eq, Structural)]
pub enum SplStoreInstruction {
    /// Create and fund the store account if needed, set the price and the
    /// administrator, and provision the store's associated token account.
    Initialize(Price, Amount),
    /// The store buys `amount` base token units from the client.
    Buy(Amount),
    /// The store sells `amount` base token units to the client.
    Sell(Amount),
    /// Replace the stored unit price.
    UpdatePrice(Price),
}

/// The decoding of an instruction payload, if it matches any operation.
pub open spec fn parse_instruction(s: Seq<u8>) -> Option<SplStoreInstruction> {
    if s.len() == 17 && s[0] == 0u8 {
        Some(
            SplStoreInstruction::Initialize(
                spec_u64_from_le_bytes(s.subrange(1, 9)),
                spec_u64_from_le_bytes(s.subrange(9, 17)),
            ),
        )
    } else if s.len() == 9 && s[0] == 1u8 {
        Some(SplStoreInstruction::Buy(spec_u64_from_le_bytes(s.subrange(1, 9))))
    } else if s.len() == 9 && s[0] == 2u8 {
        Some(SplStoreInstruction::Sell(spec_u64_from_le_bytes(s.subrange(1, 9))))
    } else if s.len() == 9 && s[0] == 3u8 {
        Some(SplStoreInstruction::UpdatePrice(spec_u64_from_le_bytes(s.subrange(1, 9))))
    } else {
        None
    }
}

impl SplStoreInstruction {
    /// Decodes an instruction payload, failing on anything malformed.
    pub fn try_from_slice(data: &[u8]) -> (r: Result<SplStoreInstruction, ProgramError>)
        ensures
            match r {
                Ok(i) => parse_instruction(data@) == Some(i),
                Err(e) => parse_instruction(data@) is None && e == ProgramError::MalformedInstruction,
            },
    {
        if data.len() == 17 && *slice_index_get(data, 0) == 0u8 {
            let price = u64_from_le_bytes(slice_subrange(data, 1, 9));
            let add_sol = u64_from_le_bytes(slice_subrange(data, 9, 17));
            Ok(SplStoreInstruction::Initialize(price, add_sol))
        } else if data.len() == 9 && *slice_index_get(data, 0) == 1u8 {
            Ok(SplStoreInstruction::Buy(u64_from_le_bytes(slice_subrange(data, 1, 9))))
        } else if data.len() == 9 && *slice_index_get(data, 0) == 2u8 {
            Ok(SplStoreInstruction::Sell(u64_from_le_bytes(slice_subrange(data, 1, 9))))
        } else if data.len() == 9 && *slice_index_get(data, 0) == 3u8 {
            Ok(SplStoreInstruction::UpdatePrice(u64_from_le_bytes(slice_subrange(data, 1, 9))))
        } else {
            Err(ProgramError::MalformedInstruction)
        }
    }

    /// Encodes the operation; decoding the result restores it exactly.
    pub fn to_bytes(&self) -> (r: Vec<u8>)
        ensures
            parse_instruction(r@) == Some(*self),
    {
        let mut out: Vec<u8> = Vec::new();
        match self {
            SplStoreInstruction::Initialize(price, add_sol) => {
                out.push(0u8);
                let mut f = u64_to_le_bytes(*price);
                out.append(&mut f);
                let mut g = u64_to_le_bytes(*add_sol);
                out.append(&mut g);
                proof {
                    lemma_auto_spec_u64_to_from_le_bytes();
                    assert(out@.subrange(1, 9) =~= spec_u64_to_le_bytes(*price));
                    assert(out@.subrange(9, 17) =~= spec_u64_to_le_bytes(*add_sol));
                }
            },
            SplStoreInstruction::Buy(amount) => {
                out.push(1u8);
                let mut f = u64_to_le_bytes(*amount);
                out.append(&mut f);
                proof {
                    lemma_auto_spec_u64_to_from_le_bytes();
                    assert(out@.subrange(1, 9) =~= spec_u64_to_le_bytes(*amount));
                }
            },
            SplStoreInstruction::Sell(amount) => {
                out.push(2u8);
                let mut f = u64_to_le_bytes(*amount);
                out.append(&mut f);
                proof {
                    lemma_auto_spec_u64_to_from_le_bytes();
                    assert(out@.subrange(1, 9) =~= spec_u64_to_le_bytes(*amount));
                }
            },
            SplStoreInstruction::UpdatePrice(new_price) => {
                out.push(3u8);
                let mut f = u64_to_le_bytes(*new_price);
                out.append(&mut f);
                proof {
                    lemma_auto_spec_u64_to_from_le_bytes();
                    assert(out@.subrange(1, 9) =~= spec_u64_to_le_bytes(*new_price));
                }
            },
        }
        out
    }
}

} // verus!
