use vstd::prelude::*;
use crate::account_info::{AccountInfo, AccountState};
use crate::accounts::{FromAccountInfo, Key, NoMeta, ToAccountInfo, WritableAllowed};
use crate::address::Address;
use crate::errors::{ErrorCode, Result};

verus! {

/// A record taken as it is: nothing about it was checked.
#[derive(Clone, Copy, Debug)]
pub struct UncheckedAccount {
    address: Address,
}

impl Key for UncheckedAccount {
    closed spec fn key_view(&self) -> Seq<u8> {
        self.address@
    }

    fn key(&self) -> (key: &Address) {
        &self.address
    }
}

impl FromAccountInfo for UncheckedAccount {
    type Meta = NoMeta;

    /// No record is refused.
    open spec fn rejection(account: AccountState, meta: NoMeta) -> Option<ErrorCode> {
        None
    }

    fn try_from_account_info(account_info: &AccountInfo, meta: NoMeta) -> (r: Result<Self>) {
        Ok(UncheckedAccount { address: *account_info.address() })
    }
}

impl ToAccountInfo for UncheckedAccount {

}

impl WritableAllowed for UncheckedAccount {

}

} // verus!
