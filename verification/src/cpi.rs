use vstd::prelude::*;
use crate::account_info::AccountInfo;
use crate::address::{address_eq, Address};
use crate::errors::{ErrorCode, Result};

verus! {

/// An accounts struct that belongs to the instructions of one program.
pub trait CheckProgramId {
    /// The program that the instructions are sent to.
    const ID: Address;

    /// Accepts `id` if it is the declared program, and nothing else.
    fn check_program_id(id: &Address) -> (r: Result<()>)
        ensures
            r == program_id_verdict(id@, Self::ID@),
    {
        let expected = Self::ID;
        if !address_eq(id, &expected) {
            return Err(ErrorCode::IncorrectProgramId);
        }
        Ok(())
    }
}

/// What the comparison of a program identifier with the declared one gives.
pub open spec fn program_id_verdict(id: Seq<u8>, declared: Seq<u8>) -> Result<()> {
    if id == declared {
        Ok(())
    } else {
        Err(ErrorCode::IncorrectProgramId)
    }
}

/// The proof that the calling program may sign for one derived address: the
/// seeds the address was derived from, and the bump byte that closes them.
#[derive(Clone, Debug)]
pub struct Signer {
    pub seeds: Vec<Vec<u8>>,
    pub bump: u8,
}

/// What a nested call needs: the record of the program that is called, the
/// accounts of the instruction, and the derived addresses that the caller
/// signs for.
pub struct CpiCtx<'ix, 'a, T: CheckProgramId> {
    /// The program that is called.
    pub program: &'ix AccountInfo,
    /// The accounts of the instruction; their type says which instruction.
    pub accounts: T,
    /// The derived addresses signed for, if any.
    pub signers: Option<&'a [Signer]>,
}

impl<'ix, 'a, T: CheckProgramId> CpiCtx<'ix, 'a, T> {
    /// Bundles a nested call, after checking that `program` is the one that
    /// `T` declares.
    pub fn try_new(program: &'ix AccountInfo, accounts: T, signers: Option<&'a [Signer]>) -> (r:
        Result<Self>)
        ensures
            match r {
                Ok(ctx) => program@.address == T::ID@ && ctx.program == program && ctx.accounts
                    == accounts && ctx.signers == signers,
                Err(e) => program@.address != T::ID@ && e == ErrorCode::IncorrectProgramId,
            },
    {
        match T::check_program_id(program.address()) {
            Ok(()) => Ok(CpiCtx { program, accounts, signers }),
            Err(e) => Err(e),
        }
    }

    /// The same check, for a call in which the caller signs for no derived
    /// address.
    pub fn try_new_without_signer(program: &'ix AccountInfo, accounts: T) -> (r: Result<Self>)
        ensures
            match r {
                Ok(ctx) => program@.address == T::ID@ && ctx.program == program && ctx.accounts
                    == accounts && ctx.signers is None,
                Err(e) => program@.address != T::ID@ && e == ErrorCode::IncorrectProgramId,
            },
    {
        match T::check_program_id(program.address()) {
            Ok(()) => Ok(CpiCtx { program, accounts, signers: None }),
            Err(e) => Err(e),
        }
    }

    /// The same check, for a call in which the caller signs for the derived
    /// addresses of `signers`.
    pub fn try_new_with_signer(program: &'ix AccountInfo, accounts: T, signers: &'a [Signer]) -> (r:
        Result<Self>)
        ensures
            match r {
                Ok(ctx) => program@.address == T::ID@ && ctx.program == program && ctx.accounts
                    == accounts && ctx.signers == Some(signers),
                Err(e) => program@.address != T::ID@ && e == ErrorCode::IncorrectProgramId,
            },
    {
        match T::check_program_id(program.address()) {
            Ok(()) => Ok(CpiCtx { program, accounts, signers: Some(signers) }),
            Err(e) => Err(e),
        }
    }
}

} // verus!
