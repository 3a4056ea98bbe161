use vstd::prelude::*;
use core::marker::PhantomData;
use crate::account_info::{AccountInfo, AccountState};
use crate::accounts::{
    bound_fault, check_bound, FromAccountInfo, Key, ToAccountInfo, WritableAllowed,
};
use crate::address::Address;
use crate::errors::{ErrorCode, Result};
use crate::ser::{
    checked_fault, layout_fault, raw_fault, reads_guarded, reads_unguarded, writes_guarded,
    writes_unguarded, RawZcDeserialize, RawZcDeserializeMut, RawZcDeserializeUnchecked,
    RawZcDeserializeUncheckedMut, Ref, RefMut, ZcDeserialize, ZcDeserializeMut,
};
use crate::pda::{derivation_verdict, program_address, seeds_view, verify_derived_address, with_bump};

verus! {

/// The seeds and the bump byte that a record's address is to be derived
/// from.
#[derive(Clone, Debug)]
pub struct PdaMeta {
    pub seeds: Vec<Vec<u8>>,
    pub bump: u8,
}

/// A record of type `T` whose address is the one derived from given seeds
/// for the program that owns `T`.
#[derive(Debug)]
pub struct Pda<T> {
    address: Address,
    marker: PhantomData<T>,
}

impl<T> Key for Pda<T> {
    closed spec fn key_view(&self) -> Seq<u8> {
        self.address@
    }

    fn key(&self) -> (key: &Address) {
        &self.address
    }
}

impl<T: RawZcDeserializeUnchecked> FromAccountInfo for Pda<T> {
    type Meta = PdaMeta;

    /// The address is derived anew and held against the record's before the
    /// record's data is looked at in any way: a record with another address
    /// is refused as an invalid account. A record with the right address is
    /// then refused where its owner or its length are not those of `T`.
    open spec fn rejection(account: AccountState, meta: PdaMeta) -> Option<ErrorCode> {
        match derivation_verdict(
            program_address(with_bump(seeds_view(meta.seeds@), meta.bump), T::OWNER@),
            account.address,
        ) {
            Err(fault) => Some(fault),
            Ok(()) => layout_fault::<T>(account),
        }
    }

    fn try_from_account_info(account_info: &AccountInfo, meta: PdaMeta) -> (r: Result<Self>) {
        let owner = T::OWNER;
        match verify_derived_address(account_info.address(), &meta.seeds, meta.bump, &owner) {
            Ok(()) => {},
            Err(e) => {
                return Err(e);
            },
        }
        match T::try_deserialize_raw_unchecked(account_info) {
            Ok(_) => Ok(Pda { address: *account_info.address(), marker: PhantomData }),
            Err(e) => Err(e),
        }
    }
}

impl<T> ToAccountInfo for Pda<T> {

}

impl<T> WritableAllowed for Pda<T> {

}

impl<T: ZcDeserialize> Pda<T> {
    /// The checked decode of the wrapper's record for reading.
    pub fn try_deserialize(&self, account_info: &mut AccountInfo) -> (r: Result<Ref<T>>)
        ensures
            reads_guarded(
                bound_fault(
                    self.key_view(),
                    old(account_info)@,
                    checked_fault::<T>(old(account_info)@, false),
                ),
                old(account_info)@,
                final(account_info)@,
                r,
            ),
    {
        match check_bound(&self.address, account_info) {
            Ok(()) => T::try_deserialize(account_info),
            Err(e) => Err(e),
        }
    }
}

impl<T: RawZcDeserialize> Pda<T> {
    /// The raw decode of the wrapper's record for reading.
    pub fn try_deserialize_raw(&self, account_info: &mut AccountInfo) -> (r: Result<Ref<T>>)
        ensures
            reads_guarded(
                bound_fault(
                    self.key_view(),
                    old(account_info)@,
                    raw_fault::<T>(old(account_info)@, false),
                ),
                old(account_info)@,
                final(account_info)@,
                r,
            ),
    {
        match check_bound(&self.address, account_info) {
            Ok(()) => T::try_deserialize_raw(account_info),
            Err(e) => Err(e),
        }
    }
}

impl<T: RawZcDeserializeUnchecked> Pda<T> {
    /// The unchecked decode of the wrapper's record for reading.
    pub fn try_deserialize_unchecked(&self, account_info: &AccountInfo) -> (r: Result<Ref<T>>)
        ensures
            reads_unguarded(
                bound_fault(self.key_view(), account_info@, layout_fault::<T>(account_info@)),
                account_info@,
                r,
            ),
    {
        match check_bound(&self.address, account_info) {
            Ok(()) => T::try_deserialize_raw_unchecked(account_info),
            Err(e) => Err(e),
        }
    }
}

impl<T: ZcDeserializeMut> Pda<T> {
    /// The checked decode of the wrapper's record for writing.
    pub fn try_deserialize_mut(&self, account_info: &mut AccountInfo) -> (r: Result<RefMut<T>>)
        ensures
            writes_guarded(
                bound_fault(
                    self.key_view(),
                    old(account_info)@,
                    checked_fault::<T>(old(account_info)@, true),
                ),
                old(account_info)@,
                final(account_info)@,
                r,
            ),
    {
        match check_bound(&self.address, account_info) {
            Ok(()) => T::try_deserialize_mut(account_info),
            Err(e) => Err(e),
        }
    }
}

impl<T: RawZcDeserializeMut> Pda<T> {
    /// The raw decode of the wrapper's record for writing.
    pub fn try_deserialize_mut_raw(&self, account_info: &mut AccountInfo) -> (r: Result<RefMut<T>>)
        ensures
            writes_guarded(
                bound_fault(
                    self.key_view(),
                    old(account_info)@,
                    raw_fault::<T>(old(account_info)@, true),
                ),
                old(account_info)@,
                final(account_info)@,
                r,
            ),
    {
        match check_bound(&self.address, account_info) {
            Ok(()) => T::try_deserialize_raw_mut(account_info),
            Err(e) => Err(e),
        }
    }
}

impl<T: RawZcDeserializeUncheckedMut> Pda<T> {
    /// The unchecked decode of the wrapper's record for writing.
    pub fn try_deserialize_raw_unchecked_mut(&self, account_info: &AccountInfo) -> (r: Result<
        RefMut<T>,
    >)
        ensures
            writes_unguarded(
                bound_fault(self.key_view(), account_info@, layout_fault::<T>(account_info@)),
                account_info@,
                r,
            ),
    {
        match check_bound(&self.address, account_info) {
            Ok(()) => T::try_deserialize_raw_unchecked_mut(account_info),
            Err(e) => Err(e),
        }
    }
}

} // verus!
