//! The entry handler: one invocation increments the counter of one account.

use vstd::prelude::*;
use crate::account::{AccountInfo, AccountInfoView, Pubkey};
use crate::encoding::{
    le_bytes,
    le_value,
    lemma_le_value_of_le_bytes,
    lemma_wrapping_succ_is_modular,
    wrapping_succ,
};
use crate::error::ProgramError;
use crate::state::MathStuffSquare;

verus! {

/// The data of an account after its counter went up by one: the new counter in
/// the first four bytes, the rest as it was.
pub open spec fn incremented_data(data: Seq<u8>) -> Seq<u8>
    recommends
        data.len() >= 4,
{
    le_bytes(wrapping_succ(le_value(data))) + data.skip(4)
}

/// An account after its counter went up by one. Only its data differs.
pub open spec fn incremented(account: AccountInfoView) -> AccountInfoView
    recommends
        account.data.len() >= 4,
{
    AccountInfoView { data: incremented_data(account.data), ..account }
}

/// Whether an invocation of the program `program_id` on `accounts` is served:
/// there is a first account, the program owns it, and its data is long enough
/// to hold a counter.
pub open spec fn accepts(program_id: Seq<u8>, accounts: Seq<AccountInfo>) -> bool {
    &&& accounts.len() > 0
    &&& accounts[0].owner@ == program_id
    &&& accounts[0].data@.len() >= 4
}

/// Incrementing keeps the length of the data and every byte behind the
/// counter, and the counter that the data then holds is the old one plus one,
/// modulo 2^32.
pub proof fn lemma_incremented_data(data: Seq<u8>)
    requires
        data.len() >= 4,
    ensures
        incremented_data(data).len() == data.len(),
        le_value(incremented_data(data)) == (le_value(data) + 1) % 0x1_0000_0000,
        forall|i: int| 4 <= i < data.len() ==> incremented_data(data)[i] == data[i],
{
    let counter: u32 = wrapping_succ(le_value(data));
    lemma_le_value_of_le_bytes(counter);
    lemma_wrapping_succ_is_modular(le_value(data));
    assert(incremented_data(data).subrange(0, 4) =~= le_bytes(counter));
}

/// Handles one invocation of the program `program_id`: increments the counter
/// stored in the first of `accounts`. The instruction data is accepted and not
/// examined.
///
/// The invocation is refused, and nothing is written, when no account is
/// supplied, when the first account belongs to another program, or when its
/// data is too short to hold a counter.
pub fn process_instruction(
    program_id: &Pubkey,
    accounts: &mut [AccountInfo],
    _instruction_data: &[u8],
) -> (result: Result<(), ProgramError>)
    ensures
        // Which invocations are served, and how the others are refused.
        result is Ok <==> accepts(program_id@, old(accounts)@),
        old(accounts)@.len() == 0 ==> result matches Err(ProgramError::NotEnoughAccountKeys),
        old(accounts)@.len() > 0 && old(accounts)@[0].owner@ != program_id@
            ==> result matches Err(ProgramError::IncorrectProgramId),
        old(accounts)@.len() > 0 && old(accounts)@[0].owner@ == program_id@
            && old(accounts)@[0].data@.len() < 4
            ==> result matches Err(ProgramError::BorshIoError(_)),
        // A refused invocation writes nothing.
        result is Err ==> final(accounts)@ == old(accounts)@,
        // A served one rewrites the data of the first account and nothing else.
        final(accounts)@.len() == old(accounts)@.len(),
        result is Ok ==> final(accounts)@[0]@ == incremented(old(accounts)@[0]@),
        forall|i: int| 1 <= i < old(accounts)@.len() ==> final(accounts)@[i] == old(accounts)@[i],
        // The stored counter goes up by one, modulo 2^32.
        result is Ok ==> le_value(final(accounts)@[0].data@)
            == (le_value(old(accounts)@[0].data@) + 1) % 0x1_0000_0000,
        // No data buffer changes its length.
        forall|i: int| 0 <= i < old(accounts)@.len()
            ==> final(accounts)@[i].data@.len() == old(accounts)@[i].data@.len(),
        // The bytes behind the counter stay as they were.
        forall|j: int| result is Ok && 4 <= j < old(accounts)@[0].data@.len()
            ==> final(accounts)@[0].data@[j] == old(accounts)@[0].data@[j],
{
    match accounts.first_mut() {
        None => Err(ProgramError::NotEnoughAccountKeys),
        Some(account) => {
            if account.owner != *program_id {
                return Err(ProgramError::IncorrectProgramId);
            }
            let mut record = match MathStuffSquare::deserialize(account.data.as_slice()) {
                Ok(record) => record,
                Err(error) => {
                    return Err(ProgramError::from(error));
                },
            };
            record.increment();
            proof {
                lemma_incremented_data(account.data@);
            }
            match record.serialize(account.data.as_mut_slice()) {
                Ok(()) => Ok(()),
                Err(error) => Err(ProgramError::from(error)),
            }
        },
    }
}

} // verus!
