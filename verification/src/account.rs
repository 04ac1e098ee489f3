//! Accounts and their identifiers.

use vstd::prelude::*;

verus! {

/// A 32-byte identifier of an account or of a program. Its view is the
/// sequence of its bytes.
#[derive(Clone, Copy, Debug)]
pub struct Pubkey {
    bytes: [u8; 32],
}

impl View for Pubkey {
    type V = Seq<u8>;

    closed spec fn view(&self) -> Seq<u8> {
        self.bytes@
    }
}

impl PartialEq for Pubkey {
    /// Two identifiers are equal when all their bytes are.
    fn eq(&self, other: &Pubkey) -> (equal: bool) {
        let mut i: usize = 0;
        while i < 32
            invariant
                i <= 32,
                forall|j: int| 0 <= j < i ==> self.bytes@[j] == other.bytes@[j],
            decreases 32 - i,
        {
            if self.bytes[i] != other.bytes[i] {
                return false;
            }
            i += 1;
        }
        assert(self.bytes@ =~= other.bytes@);
        true
    }
}

impl Eq for Pubkey {

}

impl vstd::std_specs::cmp::PartialEqSpecImpl for Pubkey {
    open spec fn obeys_eq_spec() -> bool {
        true
    }

    open spec fn eq_spec(&self, other: &Pubkey) -> bool {
        self@ == other@
    }
}

impl Pubkey {
    /// The identifier made of the given bytes.
    pub fn new_from_array(bytes: [u8; 32]) -> (key: Pubkey)
        ensures
            key@ == bytes@,
    {
        Pubkey { bytes }
    }

    /// The bytes of the identifier.
    pub fn to_bytes(&self) -> (bytes: [u8; 32])
        ensures
            bytes@ == self@,
    {
        self.bytes
    }
}

/// An account as a program sees it during one invocation: who it is, who owns
/// it, and the bytes it stores.
#[derive(Clone, Debug, PartialEq, Eq)]
pub struct AccountInfo {
    /// The account's own identifier.
    pub key: Pubkey,
    /// The program that may change the account's data.
    pub owner: Pubkey,
    /// Whether the account's data is a loaded program.
    pub executable: bool,
    /// The account's balance.
    pub lamports: u64,
    /// The bytes that the account stores.
    pub data: Vec<u8>,
}

/// An account as a mathematical value.
pub struct AccountInfoView {
    pub key: Seq<u8>,
    pub owner: Seq<u8>,
    pub executable: bool,
    pub lamports: u64,
    pub data: Seq<u8>,
}

impl View for AccountInfo {
    type V = AccountInfoView;

    open spec fn view(&self) -> AccountInfoView {
        AccountInfoView {
            key: self.key@,
            owner: self.owner@,
            executable: self.executable,
            lamports: self.lamports,
            data: self.data@,
        }
    }
}

} // verus!
