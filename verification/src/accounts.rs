use vstd::prelude::*;
use crate::account_info::{AccountInfo, AccountState};
use crate::address::{address_eq, Address};
use crate::errors::{ErrorCode, Result};

pub mod checked_address;
pub mod mutable;
pub mod pda;
pub mod program;
pub mod signer;
pub mod system_account;
pub mod unchecked_account;
pub mod zc_account;

verus! {

/// A wrapper that stands for one record, which it names by its address.
pub trait Key {
    /// The address of the record that the wrapper stands for.
    spec fn key_view(&self) -> Seq<u8>;

    fn key(&self) -> (key: &Address)
        ensures
            key@ == self.key_view(),
    ;
}

/// A wrapper that can be built from a record, after the checks that give
/// the wrapper its meaning.
pub trait FromAccountInfo: Key + Sized {
    /// What the checks are held against, beside the record.
    type Meta;

    /// Why the record is refused, if it is.
    spec fn rejection(account: AccountState, meta: Self::Meta) -> Option<ErrorCode>;

    /// Builds the wrapper for a record that passes the checks. The record is
    /// only read.
    fn try_from_account_info(account_info: &AccountInfo, meta: Self::Meta) -> (r: Result<Self>)
        ensures
            match r {
                Ok(account) => Self::rejection(account_info@, meta) is None && account.key_view()
                    == account_info@.address,
                Err(e) => Self::rejection(account_info@, meta) == Some(e),
            },
    ;
}

/// A wrapper that finds its record again in the list it came from.
pub trait ToAccountInfo: Key {
    /// The first record of the list that has the wrapper's address.
    fn to_account_info<'a>(&self, account_infos: &'a [AccountInfo]) -> (r: Option<&'a AccountInfo>)
        ensures
            match r {
                Some(account_info) => first_with_key(account_infos@, self.key_view()) is Some
                    && *account_info == account_infos@[first_with_key(
                    account_infos@,
                    self.key_view(),
                ).unwrap()],
                None => first_with_key(account_infos@, self.key_view()) is None,
            },
    {
        match find_account(account_infos, self.key()) {
            Some(index) => Some(&account_infos[index]),
            None => None,
        }
    }
}

/// A wrapper that may stand inside `Mut`.
pub trait WritableAllowed {

}

/// A program with a fixed identifier.
pub trait ProgramId {
    /// The identifier of the program.
    const ID: Address;
}

/// The validation data of a wrapper whose checks need none.
#[derive(Clone, Copy, Debug, PartialEq, Eq, Structural)]
pub struct NoMeta;

/// Whether no record among the first `n` has the address `key`.
pub open spec fn no_key_before(account_infos: Seq<AccountInfo>, key: Seq<u8>, n: int) -> bool {
    forall|i: int| 0 <= i < n && i < account_infos.len() ==> (#[trigger] account_infos[i])@.address
        != key
}

/// The position of the first record with the address `key`, if there is one.
pub open spec fn first_with_key(account_infos: Seq<AccountInfo>, key: Seq<u8>) -> Option<int> {
    if exists|i: int| is_first_with_key(account_infos, key, i) {
        Some(choose|i: int| is_first_with_key(account_infos, key, i))
    } else {
        None
    }
}

/// Whether `i` is the position of the first record with the address `key`.
pub open spec fn is_first_with_key(account_infos: Seq<AccountInfo>, key: Seq<u8>, i: int) -> bool {
    &&& 0 <= i < account_infos.len()
    &&& account_infos[i]@.address == key
    &&& no_key_before(account_infos, key, i)
}

/// The position of the first record of the list that has the address `key`.
pub fn find_account(account_infos: &[AccountInfo], key: &Address) -> (r: Option<usize>)
    ensures
        match r {
            Some(index) => is_first_with_key(account_infos@, key@, index as int)
                && first_with_key(account_infos@, key@) == Some(index as int),
            None => no_key_before(account_infos@, key@, account_infos@.len() as int)
                && first_with_key(account_infos@, key@) is None,
        },
{
    let mut i: usize = 0;
    while i < account_infos.len()
        invariant
            i <= account_infos.len(),
            no_key_before(account_infos@, key@, i as int),
        decreases account_infos.len() - i,
    {
        if address_eq(account_infos[i].address(), key) {
            proof {
                let found = first_with_key(account_infos@, key@);
                assert(is_first_with_key(account_infos@, key@, i as int));
                let j = found.unwrap();
                assert(is_first_with_key(account_infos@, key@, j));
                if j < i {
                    assert(account_infos@[j]@.address != key@);
                }
                if i < j {
                    assert(account_infos@[i as int]@.address != key@);
                }
            }
            return Some(i);
        }
        i += 1;
    }
    proof {
        assert forall|j: int| !is_first_with_key(account_infos@, key@, j) by {
            if 0 <= j < account_infos@.len() {
                assert(account_infos@[j]@.address != key@);
            }
        }
    }
    None
}

/// The fault of an operation that a wrapper hands on to a record: a record
/// with another address than the wrapper's is refused before anything else
/// is looked at.
pub open spec fn bound_fault(key: Seq<u8>, account: AccountState, fault: Option<ErrorCode>) -> Option<
    ErrorCode,
> {
    if account.address != key {
        Some(ErrorCode::InvalidAccount)
    } else {
        fault
    }
}

/// Checks that a record is the one a wrapper stands for.
pub fn check_bound(key: &Address, account_info: &AccountInfo) -> (r: Result<()>)
    ensures
        match r {
            Ok(()) => account_info@.address == key@,
            Err(e) => account_info@.address != key@ && e == ErrorCode::InvalidAccount,
        },
{
    if address_eq(account_info.address(), key) {
        Ok(())
    } else {
        Err(ErrorCode::InvalidAccount)
    }
}

} // verus!
