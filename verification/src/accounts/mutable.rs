use vstd::prelude::*;
use crate::account_info::{AccountInfo, AccountState};
use crate::accounts::{FromAccountInfo, Key, ToAccountInfo, WritableAllowed};
use crate::address::Address;
use crate::errors::{ErrorCode, Result};

verus! {

/// A wrapper around a record that the invocation may change.
#[derive(Debug)]
pub struct Mut<T> {
    inner: T,
}

impl<T> Mut<T> {
    /// The wrapper inside.
    pub closed spec fn inner_view(&self) -> T {
        self.inner
    }

    pub fn inner(&self) -> (inner: &T)
        ensures
            *inner == self.inner_view(),
    {
        &self.inner
    }
}

impl<T: Key> Key for Mut<T> {
    closed spec fn key_view(&self) -> Seq<u8> {
        self.inner.key_view()
    }

    fn key(&self) -> (key: &Address) {
        self.inner.key()
    }
}

impl<T: FromAccountInfo + WritableAllowed> FromAccountInfo for Mut<T> {
    type Meta = T::Meta;

    /// A record that is not writable is refused, and so is one that the
    /// wrapper inside refuses: both as an invalid account.
    open spec fn rejection(account: AccountState, meta: T::Meta) -> Option<ErrorCode> {
        if !account.is_writable || T::rejection(account, meta) is Some {
            Some(ErrorCode::InvalidAccount)
        } else {
            None
        }
    }

    fn try_from_account_info(account_info: &AccountInfo, meta: T::Meta) -> (r: Result<Self>) {
        if !account_info.is_writable() {
            return Err(ErrorCode::InvalidAccount);
        }
        match T::try_from_account_info(account_info, meta) {
            Ok(inner) => Ok(Mut { inner }),
            Err(_) => Err(ErrorCode::InvalidAccount),
        }
    }
}

impl<T: Key> ToAccountInfo for Mut<T> {

}

} // verus!
