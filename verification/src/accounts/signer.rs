use vstd::prelude::*;
use crate::account_info::{AccountInfo, AccountState};
use crate::accounts::{FromAccountInfo, Key, NoMeta, ToAccountInfo, WritableAllowed};
use crate::address::Address;
use crate::errors::{ErrorCode, Result};

verus! {

/// A record that approved the invocation.
#[derive(Clone, Copy, Debug)]
pub struct Signer {
    address: Address,
}

impl Key for Signer {
    closed spec fn key_view(&self) -> Seq<u8> {
        self.address@
    }

    fn key(&self) -> (key: &Address) {
        &self.address
    }
}

impl FromAccountInfo for Signer {
    type Meta = NoMeta;

    /// A record that did not sign is refused.
    open spec fn rejection(account: AccountState, meta: NoMeta) -> Option<ErrorCode> {
        if !account.is_signer {
            Some(ErrorCode::MissingRequiredSignature)
        } else {
            None
        }
    }

    fn try_from_account_info(account_info: &AccountInfo, meta: NoMeta) -> (r: Result<Self>) {
        if !account_info.is_signer() {
            return Err(ErrorCode::MissingRequiredSignature);
        }
        Ok(Signer { address: *account_info.address() })
    }
}

impl ToAccountInfo for Signer {

}

impl WritableAllowed for Signer {

}

} // verus!
