use vstd::prelude::*;
use core::marker::PhantomData;
use crate::account_info::{AccountInfo, AccountState};
use crate::accounts::{FromAccountInfo, Key, NoMeta, ProgramId, ToAccountInfo};
use crate::address::{Address, SYSTEM_PROGRAM_ID};
use crate::errors::{ErrorCode, Result};

verus! {

/// The system program.
#[derive(Clone, Copy, Debug)]
pub struct System;

impl ProgramId for System {
    const ID: Address = SYSTEM_PROGRAM_ID;
}

/// The system program is the program that `SYSTEM_PROGRAM_ID` names.
pub proof fn lemma_system_id()
    ensures
        System::ID@ == SYSTEM_PROGRAM_ID@,
{
}

/// A record whose owner tag is the identifier of the program `P`.
#[derive(Debug)]
pub struct Program<P> {
    address: Address,
    marker: PhantomData<P>,
}

impl<P: ProgramId> Key for Program<P> {
    closed spec fn key_view(&self) -> Seq<u8> {
        self.address@
    }

    fn key(&self) -> (key: &Address) {
        &self.address
    }
}

impl<P: ProgramId> FromAccountInfo for Program<P> {
    type Meta = NoMeta;

    /// A record with another owner tag than the program's identifier is
    /// refused.
    open spec fn rejection(account: AccountState, meta: NoMeta) -> Option<ErrorCode> {
        if account.owner != P::ID@ {
            Some(ErrorCode::InvalidAccountOwner)
        } else {
            None
        }
    }

    fn try_from_account_info(account_info: &AccountInfo, meta: NoMeta) -> (r: Result<Self>) {
        let expected = P::ID;
        if !account_info.is_owned_by(&expected) {
            return Err(ErrorCode::InvalidAccountOwner);
        }
        Ok(Program { address: *account_info.address(), marker: PhantomData })
    }
}

impl<P: ProgramId> ToAccountInfo for Program<P> {

}

} // verus!
