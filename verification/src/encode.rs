//! Base58 text for pubkeys, signatures and mints.

use vstd::prelude::*;

verus! {

/// The base58 text of a byte string, under the Bitcoin alphabet and without
/// a checksum.
pub uninterp spec fn base58_of(bytes: Seq<u8>) -> Seq<char>;

/// Relies on `bs58::encode` with its defaults (the Bitcoin alphabet, no
/// checksum): the text returned is a function of the input bytes alone.
#[verifier::external_body]
pub fn bs58_encode(bytes: &[u8]) -> (r: String)
    ensures
        r@ == base58_of(bytes@),
{
    bs58::encode(bytes).into_string()
}

} // verus!
