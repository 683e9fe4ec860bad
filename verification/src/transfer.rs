//! Decoding of token transfers out of raw instruction data.
//!
//! Within the two token programs' instruction sets only two opcodes matter
//! to the decoder: `Transfer` (opcode 3) and `TransferChecked` (opcode 12).

use vstd::prelude::*;
use vstd::bytes::{spec_u64_from_le_bytes, u64_from_le_bytes};
use vstd::slice::slice_subrange;

use crate::constants::{TOKEN_2022_PROGRAM_ID, TOKEN_PROGRAM_ID};
use crate::util::bytes_eq;

verus! {

/// A decoded token transfer: source account index, destination account
/// index, raw amount, and — for `TransferChecked` only — the mint's account
/// index and the decimals byte.
pub type DecodedTransfer = (u8, u8, u64, Option<u8>, Option<u8>);

/// The token transfer an instruction denotes, if any: the instruction must
/// belong to one of the two token programs and carry opcode 3 (`Transfer`,
/// with an 8-byte little-endian amount at bytes 1..9 and account list
/// `[source, destination, ..]`) or opcode 12 (`TransferChecked`, with the
/// same amount, a decimals byte at offset 9, and account list
/// `[source, mint, destination, ..]`).
pub open spec fn spec_parse_transfer(
    program_id: Seq<u8>,
    accounts: Seq<u8>,
    data: Seq<u8>,
) -> Option<DecodedTransfer> {
    if program_id != TOKEN_PROGRAM_ID@ && program_id != TOKEN_2022_PROGRAM_ID@ {
        None
    } else if data.len() == 0 {
        None
    } else if data[0] == 3 {
        if data.len() < 9 || accounts.len() < 2 {
            None
        } else {
            Some(
                (accounts[0], accounts[1], spec_u64_from_le_bytes(data.subrange(1, 9)), None, None),
            )
        }
    } else if data[0] == 12 {
        if data.len() < 10 || accounts.len() < 3 {
            None
        } else {
            Some(
                (
                    accounts[0],
                    accounts[2],
                    spec_u64_from_le_bytes(data.subrange(1, 9)),
                    Some(accounts[1]),
                    Some(data[9]),
                ),
            )
        }
    } else {
        None
    }
}

/// Decode a `Transfer` or `TransferChecked` of the legacy or 2022 token
/// program; any other program or opcode, or data or accounts too short for
/// the opcode, decodes to nothing.
pub fn parse_transfer_amount_with_token2022(
    program_id: &[u8],
    accounts: &[u8],
    data: &[u8],
) -> (r: Option<DecodedTransfer>)
    ensures
        r == spec_parse_transfer(program_id@, accounts@, data@),
{
    if !bytes_eq(program_id, TOKEN_PROGRAM_ID.as_slice()) && !bytes_eq(
        program_id,
        TOKEN_2022_PROGRAM_ID.as_slice(),
    ) {
        return None;
    }
    if data.len() == 0 {
        return None;
    }
    let tag = data[0];
    if tag == 3 {
        if data.len() < 9 || accounts.len() < 2 {
            return None;
        }
        let amount = u64_from_le_bytes(slice_subrange(data, 1, 9));
        Some((accounts[0], accounts[1], amount, None, None))
    } else if tag == 12 {
        if data.len() < 10 || accounts.len() < 3 {
            return None;
        }
        let amount = u64_from_le_bytes(slice_subrange(data, 1, 9));
        Some((accounts[0], accounts[2], amount, Some(accounts[1]), Some(data[9])))
    } else {
        None
    }
}

} // verus!
