//! The boundary to the borsh codec.
//!
//! The two functions here make the calls into borsh. Verus does not look into
//! their bodies: what their contracts say of borsh is taken on trust, and
//! everything else in the crate is proved from it.

use vstd::prelude::*;
use crate::encoding::{le_bytes, le_value};

verus! {

/// `std::io::Error`, the error type of borsh's readers and writers. The crate
/// hands such a value on and never looks inside.
#[verifier::external_type_specification]
#[verifier::external_body]
pub struct ExIoError(std::io::Error);

/// Calls `borsh::BorshDeserialize::deserialize` for `u32` on a cursor over
/// `buf`.
///
/// Trusted: borsh reads exactly four bytes from the front of the cursor and
/// returns their `u32::from_le_bytes`; when fewer than four bytes are there it
/// returns an error instead. Bytes behind the fourth play no part.
#[verifier::external_body]
pub(crate) fn read_u32(buf: &[u8]) -> (decoded: Result<u32, std::io::Error>)
    ensures
        buf@.len() >= 4 ==> decoded is Ok && decoded->Ok_0 == le_value(buf@),
        buf@.len() < 4 ==> decoded is Err,
{
    let mut cursor: &[u8] = buf;
    borsh::BorshDeserialize::deserialize(&mut cursor)
}

/// Calls `borsh::BorshSerialize::serialize` for `u32`, with a cursor over `buf`
/// as the writer.
///
/// Trusted: borsh hands the four bytes of `u32::to_le_bytes` to the writer's
/// `write_all`. Writing to a slice copies them over its front and leaves what
/// lies behind them alone; a slice shorter than four bytes makes the call fail,
/// and nothing is then claimed of its contents. A slice keeps its length either
/// way.
#[verifier::external_body]
pub(crate) fn write_u32(value: u32, buf: &mut [u8]) -> (written: Result<(), std::io::Error>)
    ensures
        final(buf)@.len() == old(buf)@.len(),
        old(buf)@.len() >= 4 ==> written is Ok && final(buf)@ == le_bytes(value) + old(buf)@.skip(4),
        old(buf)@.len() < 4 ==> written is Err,
{
    let mut cursor: &mut [u8] = buf;
    borsh::BorshSerialize::serialize(&value, &mut cursor)
}

} // verus!
