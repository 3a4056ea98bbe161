use vstd::prelude::*;
use core::marker::PhantomData;
use crate::account_info::{AccountInfo, AccountState};
use crate::accounts::{
    bound_fault, check_bound, FromAccountInfo, Key, ToAccountInfo, WritableAllowed,
};
use crate::address::{address_eq, Address};
use crate::errors::{ErrorCode, Result};
use crate::ser::{
    checked_fault, layout_fault, raw_fault, reads_guarded, reads_unguarded, writes_guarded,
    writes_unguarded, RawZcDeserialize, RawZcDeserializeMut, RawZcDeserializeUnchecked,
    RawZcDeserializeUncheckedMut, Ref, RefMut, ZcDeserialize, ZcDeserializeMut,
};

verus! {

/// A record of type `T` whose address was held against an expected one.
#[derive(Debug)]
pub struct CheckedAddress<T> {
    address: Address,
    marker: PhantomData<T>,
}

/// The address that a `CheckedAddress` expects.
#[derive(Clone, Copy, Debug)]
pub struct CheckedAddressMeta {
    pub addr: Address,
}

impl CheckedAddressMeta {
    pub fn new(addr: &Address) -> (meta: Self)
        ensures
            meta.addr@ == addr@,
    {
        Self { addr: *addr }
    }
}

impl<T> Key for CheckedAddress<T> {
    closed spec fn key_view(&self) -> Seq<u8> {
        self.address@
    }

    fn key(&self) -> (key: &Address) {
        &self.address
    }
}

impl<T> FromAccountInfo for CheckedAddress<T> {
    type Meta = CheckedAddressMeta;

    /// A record with another address than the expected one is refused.
    open spec fn rejection(account: AccountState, meta: CheckedAddressMeta) -> Option<ErrorCode> {
        if account.address != meta.addr@ {
            Some(ErrorCode::InvalidAccount)
        } else {
            None
        }
    }

    fn try_from_account_info(account_info: &AccountInfo, meta: CheckedAddressMeta) -> (r: Result<
        Self,
    >) {
        if !address_eq(account_info.address(), &meta.addr) {
            return Err(ErrorCode::InvalidAccount);
        }
        Ok(CheckedAddress { address: *account_info.address(), marker: PhantomData })
    }
}

impl<T> ToAccountInfo for CheckedAddress<T> {

}

impl<T> WritableAllowed for CheckedAddress<T> {

}

impl<T: ZcDeserialize> CheckedAddress<T> {
    /// The checked decode of the wrapper's record for reading.
    pub fn try_deserialize(&self, account_info: &mut AccountInfo) -> (r: Result<Ref<T>>)
        ensures
            reads_guarded(
                bound_fault(
                    self.key_view(),
                    old(account_info)@,
                    checked_fault::<T>(old(account_info)@, false),
                ),
                old(account_info)@,
                final(account_info)@,
                r,
            ),
    {
        match check_bound(&self.address, account_info) {
            Ok(()) => T::try_deserialize(account_info),
            Err(e) => Err(e),
        }
    }
}

impl<T: RawZcDeserialize> CheckedAddress<T> {
    /// The raw decode of the wrapper's record for reading.
    pub fn try_deserialize_raw(&self, account_info: &mut AccountInfo) -> (r: Result<Ref<T>>)
        ensures
            reads_guarded(
                bound_fault(
                    self.key_view(),
                    old(account_info)@,
                    raw_fault::<T>(old(account_info)@, false),
                ),
                old(account_info)@,
                final(account_info)@,
                r,
            ),
    {
        match check_bound(&self.address, account_info) {
            Ok(()) => T::try_deserialize_raw(account_info),
            Err(e) => Err(e),
        }
    }
}

impl<T: RawZcDeserializeUnchecked> CheckedAddress<T> {
    /// The unchecked decode of the wrapper's record for reading.
    pub fn try_deserialize_unchecked(&self, account_info: &AccountInfo) -> (r: Result<Ref<T>>)
        ensures
            reads_unguarded(
                bound_fault(self.key_view(), account_info@, layout_fault::<T>(account_info@)),
                account_info@,
                r,
            ),
    {
        match check_bound(&self.address, account_info) {
            Ok(()) => T::try_deserialize_raw_unchecked(account_info),
            Err(e) => Err(e),
        }
    }
}

impl<T: ZcDeserializeMut> CheckedAddress<T> {
    /// The checked decode of the wrapper's record for writing.
    pub fn try_deserialize_mut(&self, account_info: &mut AccountInfo) -> (r: Result<RefMut<T>>)
        ensures
            writes_guarded(
                bound_fault(
                    self.key_view(),
                    old(account_info)@,
                    checked_fault::<T>(old(account_info)@, true),
                ),
                old(account_info)@,
                final(account_info)@,
                r,
            ),
    {
        match check_bound(&self.address, account_info) {
            Ok(()) => T::try_deserialize_mut(account_info),
            Err(e) => Err(e),
        }
    }
}

impl<T: RawZcDeserializeMut> CheckedAddress<T> {
    /// The raw decode of the wrapper's record for writing.
    pub fn try_deserialize_mut_raw(&self, account_info: &mut AccountInfo) -> (r: Result<RefMut<T>>)
        ensures
            writes_guarded(
                bound_fault(
                    self.key_view(),
                    old(account_info)@,
                    raw_fault::<T>(old(account_info)@, true),
                ),
                old(account_info)@,
                final(account_info)@,
                r,
            ),
    {
        match check_bound(&self.address, account_info) {
            Ok(()) => T::try_deserialize_raw_mut(account_info),
            Err(e) => Err(e),
        }
    }
}

impl<T: RawZcDeserializeUncheckedMut> CheckedAddress<T> {
    /// The unchecked decode of the wrapper's record for writing.
    pub fn try_deserialize_raw_unchecked_mut(&self, account_info: &AccountInfo) -> (r: Result<
        RefMut<T>,
    >)
        ensures
            writes_unguarded(
                bound_fault(self.key_view(), account_info@, layout_fault::<T>(account_info@)),
                account_info@,
                r,
            ),
    {
        match check_bound(&self.address, account_info) {
            Ok(()) => T::try_deserialize_raw_unchecked_mut(account_info),
            Err(e) => Err(e),
        }
    }
}

} // verus!
