//! Integers as bytes. The bytes of every integer in a record or a payload
//! are made and read by the `borsh` crate; what is stated of it here is taken
//! on trust.

use vstd::prelude::*;
use vstd::bytes::*;

verus! {

/// `borsh::BorshSerialize::try_to_vec` on a `u32`. Trusted: the result is the
/// four bytes of the value, lowest byte first. Writing into a vector does not
/// fail.
#[verifier::external_body]
pub(crate) fn encode_u32(value: u32) -> (out: Vec<u8>)
    ensures
        out@ == spec_u32_to_le_bytes(value),
        out@.len() == 4,
{
    borsh::ser::BorshSerialize::try_to_vec(&value).unwrap_or_default()
}

/// `borsh::BorshSerialize::try_to_vec` on a `u64`. Trusted: the result is the
/// eight bytes of the value, lowest byte first. Writing into a vector does
/// not fail.
#[verifier::external_body]
pub(crate) fn encode_u64(value: u64) -> (out: Vec<u8>)
    ensures
        out@ == spec_u64_to_le_bytes(value),
        out@.len() == 8,
{
    borsh::ser::BorshSerialize::try_to_vec(&value).unwrap_or_default()
}

/// `borsh::BorshDeserialize::try_from_slice` for a `u32`. Trusted: on exactly
/// four bytes it succeeds and gives the value whose bytes these are, lowest
/// byte first. On any other length it fails, so that length is left out.
#[verifier::external_body]
pub(crate) fn decode_u32(bytes: &[u8]) -> (value: u32)
    requires
        bytes@.len() == 4,
    ensures
        value == spec_u32_from_le_bytes(bytes@),
{
    borsh::de::BorshDeserialize::try_from_slice(bytes).unwrap_or_default()
}

/// `borsh::BorshDeserialize::try_from_slice` for a `u64`. Trusted: on exactly
/// eight bytes it succeeds and gives the value whose bytes these are, lowest
/// byte first. On any other length it fails, so that length is left out.
#[verifier::external_body]
pub(crate) fn decode_u64(bytes: &[u8]) -> (value: u64)
    requires
        bytes@.len() == 8,
    ensures
        value == spec_u64_from_le_bytes(bytes@),
{
    borsh::de::BorshDeserialize::try_from_slice(bytes).unwrap_or_default()
}

} // verus!
