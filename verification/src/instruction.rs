//! The request decoder: parses an opaque request payload into one of the five
//! typed operations. The leading byte is the operation tag; numeric arguments
//! are little-endian 8-byte fields read from fixed offsets after it. Extra
//! trailing bytes beyond what a tag consumes are ignored.

use vstd::prelude::*;
use vstd::bytes::{spec_u64_from_le_bytes, u64_from_le_bytes};
use vstd::slice::{slice_index_get, slice_subrange};
use crate::error::EscrowError;

verus! {

/// A decoded request: one of the five operations the engine performs.
#[derive(Debug, PartialEq)]
pub enum EscrowInstruction {
    /// Tag 0: create the platform record; the argument is the platform fee
    /// as a whole-number percentage of every trade.
    CreatePlatformState { amount: u64 },
    /// Tag 1: create the per-mint token record.
    CreateTokenstate,
    /// Tag 2: list tokens for sale; the arguments are the quantity to list
    /// and the unit price in settlement-currency base units.
    ListToken { args: (u64, u64) },
    /// Tag 3: buy tokens from a listing; the argument is the quantity.
    Exchange { amount: u64 },
    /// Tag 4: cancel a listing and reclaim the escrowed tokens.
    Cancel,
}

/// What decoding one little-endian u64 argument from the front of `input`
/// yields: the value, or a rejection when fewer than 8 bytes remain.
pub open spec fn spec_unpack_amount(input: Seq<u8>) -> Result<u64, EscrowError> {
    if input.len() >= 8 {
        Ok(spec_u64_from_le_bytes(input.subrange(0, 8)))
    } else {
        Err(EscrowError::InvalidInstructionData)
    }
}

/// What decoding two little-endian u64 arguments from the front of `input`
/// yields: the pair, or a rejection when fewer than 16 bytes remain.
pub open spec fn spec_unpack_data(input: Seq<u8>) -> Result<(u64, u64), EscrowError> {
    if input.len() >= 16 {
        Ok(
            (
                spec_u64_from_le_bytes(input.subrange(0, 8)),
                spec_u64_from_le_bytes(input.subrange(8, 16)),
            ),
        )
    } else {
        Err(EscrowError::InvalidInstructionData)
    }
}

/// What decoding a whole request payload yields: the tagged operation, or a
/// rejection when the payload is empty, the tag is unrecognized, or an
/// argument region is shorter than required.
pub open spec fn spec_unpack(input: Seq<u8>) -> Result<EscrowInstruction, EscrowError> {
    if input.len() == 0 {
        Err(EscrowError::InvalidInstructionData)
    } else {
        let rest = input.subrange(1, input.len() as int);
        if input[0] == 0 {
            match spec_unpack_amount(rest) {
                Ok(amount) => Ok(EscrowInstruction::CreatePlatformState { amount }),
                Err(e) => Err(e),
            }
        } else if input[0] == 1 {
            Ok(EscrowInstruction::CreateTokenstate)
        } else if input[0] == 2 {
            match spec_unpack_data(rest) {
                Ok(args) => Ok(EscrowInstruction::ListToken { args }),
                Err(e) => Err(e),
            }
        } else if input[0] == 3 {
            match spec_unpack_amount(rest) {
                Ok(amount) => Ok(EscrowInstruction::Exchange { amount }),
                Err(e) => Err(e),
            }
        } else if input[0] == 4 {
            Ok(EscrowInstruction::Cancel)
        } else {
            Err(EscrowError::InvalidInstructionData)
        }
    }
}

impl EscrowInstruction {
    /// Decodes a request payload into its typed operation.
    pub fn unpack(input: &[u8]) -> (r: Result<EscrowInstruction, EscrowError>)
        ensures
            r == spec_unpack(input@),
    {
        if input.len() == 0 {
            return Err(EscrowError::InvalidInstructionData);
        }
        let tag = *slice_index_get(input, 0);
        let rest = slice_subrange(input, 1, input.len());
        match tag {
            0 => match Self::unpack_amount(rest) {
                Ok(amount) => Ok(EscrowInstruction::CreatePlatformState { amount }),
                Err(e) => Err(e),
            },
            1 => Ok(EscrowInstruction::CreateTokenstate),
            2 => match Self::unpack_data(rest) {
                Ok(args) => Ok(EscrowInstruction::ListToken { args }),
                Err(e) => Err(e),
            },
            3 => match Self::unpack_amount(rest) {
                Ok(amount) => Ok(EscrowInstruction::Exchange { amount }),
                Err(e) => Err(e),
            },
            4 => Ok(EscrowInstruction::Cancel),
            _ => Err(EscrowError::InvalidInstructionData),
        }
    }

    /// Reads one little-endian u64 argument from the front of `input`.
    fn unpack_amount(input: &[u8]) -> (r: Result<u64, EscrowError>)
        ensures
            r == spec_unpack_amount(input@),
    {
        if input.len() < 8 {
            return Err(EscrowError::InvalidInstructionData);
        }
        Ok(u64_from_le_bytes(slice_subrange(input, 0, 8)))
    }

    /// Reads two little-endian u64 arguments from the front of `input`.
    fn unpack_data(input: &[u8]) -> (r: Result<(u64, u64), EscrowError>)
        ensures
            r == spec_unpack_data(input@),
    {
        if input.len() < 16 {
            return Err(EscrowError::InvalidInstructionData);
        }
        let first = u64_from_le_bytes(slice_subrange(input, 0, 8));
        let second = u64_from_le_bytes(slice_subrange(input, 8, 16));
        Ok((first, second))
    }
}

} // verus!
