use vstd::prelude::*;
use crate::account_info::AccountInfo;
use crate::errors::{ErrorCode, Result};

verus! {

/// A type with a tag of its own: a record type among those of its owning
/// program, or a handler among those of a dispatch table.
pub trait Discriminator {
    /// The eight bytes that open every buffer or payload of the type.
    const DISCRIMINATOR: [u8; 8];
}

/// The first eight bytes of a sequence that has them.
pub open spec fn leading_tag(data: Seq<u8>) -> Seq<u8>
    recommends
        data.len() >= 8,
{
    data.subrange(0, 8)
}

/// The first eight bytes of `bytes`, copied out.
pub fn read_tag(bytes: &[u8]) -> (tag: [u8; 8])
    requires
        bytes@.len() >= 8,
    ensures
        tag@ == leading_tag(bytes@),
{
    let tag = [
        bytes[0],
        bytes[1],
        bytes[2],
        bytes[3],
        bytes[4],
        bytes[5],
        bytes[6],
        bytes[7],
    ];
    assert(tag@ =~= leading_tag(bytes@));
    tag
}

/// The tag of a record whose buffer is known to hold one. The borrow guard is
/// passed by.
pub fn get_discriminator_unchecked(account_info: &AccountInfo) -> (tag: [u8; 8])
    requires
        account_info@.data.len() >= 8,
    ensures
        tag@ == leading_tag(account_info@.data),
{
    read_tag(account_info.borrow_data_unchecked())
}

/// The tag of a record, read under the borrow guard: refused where the
/// buffer is too short to hold a tag, and where a mutable view of it is live.
pub fn get_discriminator(account_info: &AccountInfo) -> (r: Result<[u8; 8]>)
    ensures
        match r {
            Ok(tag) => account_info@.data.len() >= 8 && account_info@.can_share() && tag@
                == leading_tag(account_info@.data),
            Err(e) => if account_info@.data.len() < 8 {
                e == ErrorCode::InvalidAccountData
            } else {
                !account_info@.can_share() && e == ErrorCode::AccountBorrowFailed
            },
        },
{
    if account_info.data_len() < 8 {
        return Err(ErrorCode::InvalidAccountData);
    }
    match account_info.check_borrow() {
        Ok(()) => Ok(read_tag(account_info.borrow_data_unchecked())),
        Err(e) => Err(e),
    }
}

} // verus!
