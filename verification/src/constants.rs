//! Program identities, swap method discriminators and per-program account
//! layouts of the three target liquidity programs, plus the identities of the
//! two token programs and the wrapped-SOL mint.

use vstd::prelude::*;

use crate::util::bytes_eq;

verus! {

/// Program id of the concentrated-liquidity book program
/// (base58 `LBUZKhRxPF3XUpBCjp4YzTKgLccjZhTSDM9YuVaPwxo`).
pub const DLMM_PROGRAM_ID: [u8; 32] = [
    4, 233, 225, 47, 188, 132, 232, 38, 201, 50, 204, 233, 226, 100, 12, 206, 21, 89, 12, 28, 98,
    115, 176, 146, 87, 8, 186, 59, 133, 32, 176, 188,
];

/// Program id of the dynamic AMM program
/// (base58 `cpamdpZCGKUy5JxQXB4dcpGPiikHawvSWAd6mEn1sGG`).
pub const DAMM_PROGRAM_ID: [u8; 32] = [
    9, 45, 33, 53, 101, 122, 21, 156, 43, 135, 212, 182, 106, 112, 219, 142, 151, 82, 56, 159,
    247, 106, 175, 32, 108, 237, 6, 58, 56, 249, 90, 237,
];

/// Program id of the dynamic bonding curve program
/// (base58 `dbcij3LWUppWqq96dh6gJWwBifmcGfLSB5D4DuSMaqN`).
pub const DBC_PROGRAM_ID: [u8; 32] = [
    9, 96, 12, 165, 36, 247, 177, 183, 214, 204, 177, 195, 151, 58, 160, 51, 13, 25, 3, 218, 96,
    28, 201, 181, 222, 227, 198, 98, 180, 202, 209, 73,
];

/// Program id of the legacy token program
/// (base58 `TokenkegQfeZyiNwAJbNbGKPFXCWuBvf9Ss623VQ5DA`).
pub const TOKEN_PROGRAM_ID: [u8; 32] = [
    6, 221, 246, 225, 215, 101, 161, 147, 217, 203, 225, 70, 206, 235, 121, 172, 28, 180, 133,
    237, 95, 91, 55, 145, 58, 140, 245, 133, 126, 255, 0, 169,
];

/// Program id of the 2022 token program
/// (base58 `TokenzQdBNbLqP5VEhdkAS6EPFLC1PHnBqCXEpPxuEb`).
pub const TOKEN_2022_PROGRAM_ID: [u8; 32] = [
    6, 221, 246, 225, 238, 117, 143, 222, 24, 66, 93, 188, 228, 108, 205, 218, 182, 26, 252, 77,
    131, 185, 13, 39, 254, 189, 249, 40, 216, 161, 139, 252,
];

/// Discriminator of the basic `swap` method; the byte pattern is shared by
/// all three programs.
pub const DLMM_SWAP: [u8; 8] = [248, 198, 158, 145, 225, 117, 135, 200];

/// Discriminator of the `swap2` method; the byte pattern is shared by all
/// three programs.
pub const DLMM_SWAP2: [u8; 8] = [65, 75, 63, 76, 235, 91, 91, 136];

/// Discriminator of the book program's `swap_exact_out` method.
pub const DLMM_SWAP_EXACT_OUT: [u8; 8] = [250, 73, 101, 33, 38, 207, 75, 184];

/// Discriminator of the book program's `swap_exact_out2` method.
pub const DLMM_SWAP_EXACT_OUT2: [u8; 8] = [43, 215, 247, 132, 137, 60, 243, 81];

/// Discriminator of the book program's `swap_with_price_impact` method.
pub const DLMM_SWAP_WITH_PRICE_IMPACT: [u8; 8] = [56, 173, 230, 208, 173, 228, 156, 205];

/// Discriminator of the book program's `swap_with_price_impact2` method.
pub const DLMM_SWAP_WITH_PRICE_IMPACT2: [u8; 8] = [74, 98, 192, 214, 177, 51, 75, 51];

/// Discriminator of the AMM program's `swap` method (same bytes as
/// `DLMM_SWAP`).
pub const DAMM_SWAP: [u8; 8] = [248, 198, 158, 145, 225, 117, 135, 200];

/// Discriminator of the AMM program's `swap2` method (same bytes as
/// `DLMM_SWAP2`).
pub const DAMM_SWAP2: [u8; 8] = [65, 75, 63, 76, 235, 91, 91, 136];

/// Discriminator of the bonding curve program's `swap` method (same bytes as
/// `DLMM_SWAP`).
pub const DBC_SWAP: [u8; 8] = [248, 198, 158, 145, 225, 117, 135, 200];

/// Discriminator of the bonding curve program's `swap2` method (same bytes as
/// `DLMM_SWAP2`).
pub const DBC_SWAP2: [u8; 8] = [65, 75, 63, 76, 235, 91, 91, 136];

/// The three target programs, by their platform tag.
#[derive(Clone, Copy, Debug, PartialEq, Eq, Structural)]
pub enum Platform {
    /// The concentrated-liquidity book program (tag `meteora_dlmm`).
    Dlmm,
    /// The dynamic AMM program (tag `meteora_damm`).
    Damm,
    /// The dynamic bonding curve program (tag `meteora_dbc`).
    Dbc,
}

/// The 32 bytes of the program id that carries a platform tag.
pub open spec fn spec_program_id(p: Platform) -> Seq<u8> {
    match p {
        Platform::Dlmm => DLMM_PROGRAM_ID@,
        Platform::Damm => DAMM_PROGRAM_ID@,
        Platform::Dbc => DBC_PROGRAM_ID@,
    }
}

/// The platform tag of a program id: the first of the three target programs
/// whose id equals the key, if any.
pub open spec fn spec_match_program(key: Seq<u8>) -> Option<Platform> {
    if key == DLMM_PROGRAM_ID@ {
        Some(Platform::Dlmm)
    } else if key == DAMM_PROGRAM_ID@ {
        Some(Platform::Damm)
    } else if key == DBC_PROGRAM_ID@ {
        Some(Platform::Dbc)
    } else {
        None
    }
}

/// Whether an 8-byte discriminator is one of the recognized swap methods of
/// the given platform.
pub open spec fn spec_is_swap_discriminator(d: Seq<u8>, p: Platform) -> bool {
    match p {
        Platform::Dlmm => d == DLMM_SWAP@ || d == DLMM_SWAP2@ || d == DLMM_SWAP_EXACT_OUT@
            || d == DLMM_SWAP_EXACT_OUT2@ || d == DLMM_SWAP_WITH_PRICE_IMPACT@
            || d == DLMM_SWAP_WITH_PRICE_IMPACT2@,
        Platform::Damm => d == DAMM_SWAP@ || d == DAMM_SWAP2@,
        Platform::Dbc => d == DBC_SWAP@ || d == DBC_SWAP2@,
    }
}

/// Position of the pool account within a matched instruction's account list.
pub open spec fn spec_pool_account_index(p: Platform) -> usize {
    match p {
        Platform::Dlmm => 0usize,
        Platform::Damm => 1usize,
        Platform::Dbc => 2usize,
    }
}

/// Positions of the user's input and output token accounts within a matched
/// instruction's account list.
pub open spec fn spec_user_token_account_indices(p: Platform) -> (usize, usize) {
    match p {
        Platform::Dlmm => (4usize, 5usize),
        Platform::Damm => (2usize, 3usize),
        Platform::Dbc => (3usize, 4usize),
    }
}

/// The platform tag emitted in events for each target program.
pub open spec fn spec_platform_name(p: Platform) -> Seq<char> {
    match p {
        Platform::Dlmm => "meteora_dlmm"@,
        Platform::Damm => "meteora_damm"@,
        Platform::Dbc => "meteora_dbc"@,
    }
}

/// The base58 text of the wrapped-SOL mint, the distinguished quote asset.
pub open spec fn spec_wsol_mint() -> Seq<char> {
    "So11111111111111111111111111111111111111112"@
}

/// The base58 text of the wrapped-SOL mint as an owned string.
pub fn wsol_mint() -> (s: String)
    ensures
        s@ == spec_wsol_mint(),
{
    "So11111111111111111111111111111111111111112".to_owned()
}

/// Map a program id to its platform tag; a key that is not exactly one of
/// the three known 32-byte program ids matches nothing.
pub fn match_program(program_id: &[u8]) -> (r: Option<Platform>)
    ensures
        r == spec_match_program(program_id@),
{
    if bytes_eq(program_id, DLMM_PROGRAM_ID.as_slice()) {
        Some(Platform::Dlmm)
    } else if bytes_eq(program_id, DAMM_PROGRAM_ID.as_slice()) {
        Some(Platform::Damm)
    } else if bytes_eq(program_id, DBC_PROGRAM_ID.as_slice()) {
        Some(Platform::Dbc)
    } else {
        None
    }
}

/// Whether the discriminator bytes name a swap method of the platform;
/// matching is exact byte equality against the platform's own set, so
/// anything but a known 8-byte pattern matches nothing.
pub fn is_swap_discriminator(discriminator: &[u8], platform: Platform) -> (r: bool)
    ensures
        r == spec_is_swap_discriminator(discriminator@, platform),
{
    let d = discriminator;
    match platform {
        Platform::Dlmm => bytes_eq(d, DLMM_SWAP.as_slice()) || bytes_eq(d, DLMM_SWAP2.as_slice())
            || bytes_eq(d, DLMM_SWAP_EXACT_OUT.as_slice())
            || bytes_eq(d, DLMM_SWAP_EXACT_OUT2.as_slice())
            || bytes_eq(d, DLMM_SWAP_WITH_PRICE_IMPACT.as_slice())
            || bytes_eq(d, DLMM_SWAP_WITH_PRICE_IMPACT2.as_slice()),
        Platform::Damm => bytes_eq(d, DAMM_SWAP.as_slice()) || bytes_eq(d, DAMM_SWAP2.as_slice()),
        Platform::Dbc => bytes_eq(d, DBC_SWAP.as_slice()) || bytes_eq(d, DBC_SWAP2.as_slice()),
    }
}

/// Position of the pool account in the instruction's account list, per the
/// program's fixed layout.
pub fn get_pool_account_index(platform: Platform) -> (i: usize)
    ensures
        i == spec_pool_account_index(platform),
{
    match platform {
        Platform::Dlmm => 0,
        Platform::Damm => 1,
        Platform::Dbc => 2,
    }
}

/// Positions of the user's input and output token accounts in the
/// instruction's account list, per the program's fixed layout.
pub fn get_user_token_account_indices(platform: Platform) -> (r: (usize, usize))
    ensures
        r == spec_user_token_account_indices(platform),
{
    match platform {
        Platform::Dlmm => (4, 5),
        Platform::Damm => (2, 3),
        Platform::Dbc => (3, 4),
    }
}

/// The platform tag as an owned string.
pub fn platform_name(platform: Platform) -> (s: String)
    ensures
        s@ == spec_platform_name(platform),
{
    match platform {
        Platform::Dlmm => "meteora_dlmm".to_owned(),
        Platform::Damm => "meteora_damm".to_owned(),
        Platform::Dbc => "meteora_dbc".to_owned(),
    }
}

} // verus!
