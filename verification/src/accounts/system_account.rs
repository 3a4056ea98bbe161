use vstd::prelude::*;
use crate::account_info::{AccountInfo, AccountState};
use crate::accounts::{FromAccountInfo, Key, NoMeta, ToAccountInfo, WritableAllowed};
use crate::address::{Address, SYSTEM_PROGRAM_ID};
use crate::errors::{ErrorCode, Result};

verus! {

/// A record that the system program controls.
#[derive(Clone, Copy, Debug)]
pub struct SystemAccount {
    address: Address,
}

impl Key for SystemAccount {
    closed spec fn key_view(&self) -> Seq<u8> {
        self.address@
    }

    fn key(&self) -> (key: &Address) {
        &self.address
    }
}

impl FromAccountInfo for SystemAccount {
    type Meta = NoMeta;

    /// A record of any other owner than the system program is refused.
    open spec fn rejection(account: AccountState, meta: NoMeta) -> Option<ErrorCode> {
        if account.owner != SYSTEM_PROGRAM_ID@ {
            Some(ErrorCode::InvalidAccountOwner)
        } else {
            None
        }
    }

    fn try_from_account_info(account_info: &AccountInfo, meta: NoMeta) -> (r: Result<Self>) {
        let system = SYSTEM_PROGRAM_ID;
        if !account_info.is_owned_by(&system) {
            return Err(ErrorCode::InvalidAccountOwner);
        }
        Ok(SystemAccount { address: *account_info.address() })
    }
}

impl ToAccountInfo for SystemAccount {

}

impl WritableAllowed for SystemAccount {

}

} // verus!
