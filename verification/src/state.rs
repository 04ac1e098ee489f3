//! The record that an account stores.

use vstd::prelude::*;
use crate::codec::{read_u32, write_u32};
use crate::encoding::{le_bytes, le_value, wrapping_succ};

verus! {

/// The stored record: one unsigned 32-bit counter, kept as four little-endian
/// bytes at the front of an account's data.
#[derive(Debug)]
pub struct MathStuffSquare {
    pub square: u32,
}

impl MathStuffSquare {
    /// The bytes that this record is stored as.
    pub open spec fn encoding(self) -> Seq<u8> {
        le_bytes(self.square)
    }

    /// The record that the front of `data` holds.
    pub open spec fn decoding(data: Seq<u8>) -> MathStuffSquare
        recommends
            data.len() >= 4,
    {
        MathStuffSquare { square: le_value(data) }
    }

    /// Decodes the record at the front of `data`. It takes four bytes; what
    /// follows them is not looked at. Shorter data is an error of the codec.
    pub fn deserialize(data: &[u8]) -> (decoded: Result<MathStuffSquare, std::io::Error>)
        ensures
            data@.len() >= 4 ==> decoded is Ok && decoded->Ok_0 == Self::decoding(data@),
            data@.len() < 4 ==> decoded is Err,
    {
        match read_u32(data) {
            Ok(square) => Ok(MathStuffSquare { square }),
            Err(error) => Err(error),
        }
    }

    /// Writes the record over the first four bytes of `data`. The data keeps
    /// its length and every byte behind the fourth. Data shorter than four
    /// bytes is an error of the codec.
    pub fn serialize(&self, data: &mut [u8]) -> (written: Result<(), std::io::Error>)
        ensures
            final(data)@.len() == old(data)@.len(),
            old(data)@.len() >= 4 ==> written is Ok
                && final(data)@ == self.encoding() + old(data)@.skip(4),
            old(data)@.len() < 4 ==> written is Err,
    {
        write_u32(self.square, data)
    }

    /// Adds one to the counter. The largest value wraps to zero.
    pub fn increment(&mut self)
        ensures
            final(self).square == wrapping_succ(old(self).square),
    {
        self.square = self.square.wrapping_add(1);
    }
}

} // verus!
