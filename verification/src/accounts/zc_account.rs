use vstd::prelude::*;
use core::marker::PhantomData;
use crate::account_info::{AccountInfo, AccountState};
use crate::accounts::{
    bound_fault, check_bound, FromAccountInfo, Key, NoMeta, ToAccountInfo, WritableAllowed,
};
use crate::address::Address;
use crate::cpi::Signer;
use crate::errors::{ErrorCode, Result};
use crate::ser::{
    checked_fault, init_fault, initializes, reads_guarded, try_deserialize_zc,
    try_deserialize_zc_mut, try_initialize_zc, writes_guarded, InitAccounts, Ref, RefMut,
    ZcDeserialize,
};

verus! {

/// A record that is meant to hold a `T`. Nothing is checked when the wrapper
/// is built: the checks run with each decode.
#[derive(Debug)]
pub struct ZcAccount<T> {
    address: Address,
    marker: PhantomData<T>,
}

impl<T> Key for ZcAccount<T> {
    closed spec fn key_view(&self) -> Seq<u8> {
        self.address@
    }

    fn key(&self) -> (key: &Address) {
        &self.address
    }
}

impl<T: ZcDeserialize> FromAccountInfo for ZcAccount<T> {
    type Meta = NoMeta;

    /// No record is refused.
    open spec fn rejection(account: AccountState, meta: NoMeta) -> Option<ErrorCode> {
        None
    }

    fn try_from_account_info(account_info: &AccountInfo, meta: NoMeta) -> (r: Result<Self>) {
        Ok(ZcAccount { address: *account_info.address(), marker: PhantomData })
    }
}

impl<T> ToAccountInfo for ZcAccount<T> {

}

impl<T> WritableAllowed for ZcAccount<T> {

}

impl<T: ZcDeserialize> ZcAccount<T> {
    /// The checked decode of the wrapper's record for reading.
    pub fn try_deserialize_zc(&self, account_info: &mut AccountInfo) -> (r: Result<Ref<T>>)
        ensures
            reads_guarded(
                bound_fault(
                    self.key_view(),
                    old(account_info)@,
                    checked_fault::<T>(old(account_info)@, false),
                ),
                old(account_info)@,
                final(account_info)@,
                r,
            ),
    {
        match check_bound(&self.address, account_info) {
            Ok(()) => try_deserialize_zc::<T>(account_info),
            Err(e) => Err(e),
        }
    }

    /// The checked decode of the wrapper's record for writing.
    pub fn try_deserialize_zc_mut(&self, account_info: &mut AccountInfo) -> (r: Result<RefMut<T>>)
        ensures
            writes_guarded(
                bound_fault(
                    self.key_view(),
                    old(account_info)@,
                    checked_fault::<T>(old(account_info)@, true),
                ),
                old(account_info)@,
                final(account_info)@,
                r,
            ),
    {
        match check_bound(&self.address, account_info) {
            Ok(()) => try_deserialize_zc_mut::<T>(account_info),
            Err(e) => Err(e),
        }
    }

    /// The initialization of the wrapper's record as a `T`.
    pub fn try_initialize_zc<'ix>(
        &self,
        account_info: &mut AccountInfo,
        init_accounts: InitAccounts<'ix, '_>,
        signers: Option<&[Signer]>,
    ) -> (r: Result<RefMut<T>>)
        ensures
            initializes(
                bound_fault(
                    self.key_view(),
                    old(account_info)@,
                    init_fault::<T>(init_accounts.system_program@.address, old(account_info)@),
                ),
                old(account_info)@,
                final(account_info)@,
                init_accounts.owner_program_id@,
                r,
            ),
    {
        match check_bound(&self.address, account_info) {
            Ok(()) => try_initialize_zc::<T>(account_info, init_accounts, signers),
            Err(e) => Err(e),
        }
    }
}

} // verus!
