use vstd::prelude::*;
use crate::account_info::{AccountState, AccountInfo};
use crate::address::{address_eq, Address, SYSTEM_PROGRAM_ID};
use crate::cpi::{CheckProgramId, CpiCtx};
use crate::errors::{ErrorCode, Result};

verus! {

/// The accounts of the instruction that gives a record its buffer.
pub struct CreateAccount<'a> {
    /// The record that pays for the buffer.
    pub from: &'a AccountInfo,
    /// The address of the record that receives it.
    pub to: Address,
}

impl CheckProgramId for CreateAccount<'_> {
    const ID: Address = SYSTEM_PROGRAM_ID;
}

/// The allocation is an instruction of the system program.
pub proof fn lemma_create_account_target()
    ensures
        CreateAccount::ID@ == SYSTEM_PROGRAM_ID@,
{
}

/// `len` zero bytes.
pub open spec fn zeros(len: nat) -> Seq<u8> {
    Seq::new(len, |i: int| 0u8)
}

/// A record after it was given a zeroed buffer of `space` bytes and handed
/// to `owner`.
pub open spec fn allocated(account: AccountState, owner: Seq<u8>, space: nat) -> AccountState {
    AccountState { owner, data: zeros(space), ..account }
}

/// Why the allocation is refused, if it is: the record is not the one the
/// instruction names, or it has a buffer already.
pub open spec fn allocation_fault(to: Seq<u8>, account: AccountState) -> Option<ErrorCode> {
    if account.address != to {
        Some(ErrorCode::InvalidAccount)
    } else if account.data.len() != 0 {
        Some(ErrorCode::InvalidAccountData)
    } else {
        None
    }
}

/// What the allocation does to a record: a record without a buffer gets a
/// zeroed one of `space` bytes and `owner` as its controlling program; a
/// record that has a buffer is left as it is, and the call fails.
pub fn create_account(
    cpi_ctx: CpiCtx<'_, '_, CreateAccount<'_>>,
    to: &mut AccountInfo,
    owner: &Address,
    space: usize,
) -> (r: Result<()>)
    ensures
        match r {
            Ok(()) => allocation_fault(cpi_ctx.accounts.to@, old(to)@) is None && final(to)@
                == allocated(old(to)@, owner@, space as nat),
            Err(e) => allocation_fault(cpi_ctx.accounts.to@, old(to)@) == Some(e) && final(to)@
                == old(to)@,
        },
{
    if !address_eq(to.address(), &cpi_ctx.accounts.to) {
        return Err(ErrorCode::InvalidAccount);
    }
    if !to.is_data_empty() {
        return Err(ErrorCode::InvalidAccountData);
    }
    to.resize(space);
    to.assign(owner);
    assert(to@.data =~= zeros(space as nat));
    Ok(())
}

} // verus!
