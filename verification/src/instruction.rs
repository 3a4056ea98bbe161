use vstd::prelude::*;
use crate::account_info::{AccountInfo, AccountState};
use crate::address::Address;

verus! {

/// How a nested call names one of its accounts: by address, with the
/// permissions it asks for it.
#[derive(Clone, Copy, Debug)]
pub struct AccountMeta {
    pub address: Address,
    pub is_writable: bool,
    pub is_signer: bool,
}

/// What an account meta is.
pub struct AccountMetaView {
    pub address: Seq<u8>,
    pub is_writable: bool,
    pub is_signer: bool,
}

impl View for AccountMeta {
    type V = AccountMetaView;

    open spec fn view(&self) -> AccountMetaView {
        AccountMetaView {
            address: self.address@,
            is_writable: self.is_writable,
            is_signer: self.is_signer,
        }
    }
}

/// The meta of a record that the call only reads.
pub open spec fn readonly_meta(account: AccountState) -> AccountMetaView {
    AccountMetaView { address: account.address, is_writable: false, is_signer: false }
}

/// The meta of a record that the call may change.
pub open spec fn writable_meta(account: AccountState) -> AccountMetaView {
    AccountMetaView { address: account.address, is_writable: true, is_signer: false }
}

/// The meta of a record that signs the call and is only read.
pub open spec fn readonly_signer_meta(account: AccountState) -> AccountMetaView {
    AccountMetaView { address: account.address, is_writable: false, is_signer: true }
}

impl AccountMeta {
    pub fn readonly(account_info: &AccountInfo) -> (meta: Self)
        ensures
            meta@ == readonly_meta(account_info@),
    {
        AccountMeta { address: *account_info.address(), is_writable: false, is_signer: false }
    }

    pub fn writable(account_info: &AccountInfo) -> (meta: Self)
        ensures
            meta@ == writable_meta(account_info@),
    {
        AccountMeta { address: *account_info.address(), is_writable: true, is_signer: false }
    }

    pub fn readonly_signer(account_info: &AccountInfo) -> (meta: Self)
        ensures
            meta@ == readonly_signer_meta(account_info@),
    {
        AccountMeta { address: *account_info.address(), is_writable: false, is_signer: true }
    }
}

/// A nested call as it is handed to the host: the program that is called,
/// the accounts in the order the program expects them, and the instruction's
/// bytes.
#[derive(Clone, Debug)]
pub struct Instruction {
    pub program_id: Address,
    pub accounts: Vec<AccountMeta>,
    pub data: Vec<u8>,
}

impl Instruction {
    /// The metas of the accounts, in their order.
    pub open spec fn metas(&self) -> Seq<AccountMetaView> {
        Seq::new(self.accounts@.len(), |i: int| self.accounts@[i]@)
    }
}

} // verus!
