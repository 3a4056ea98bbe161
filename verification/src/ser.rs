use vstd::prelude::*;
use vstd::slice::slice_subrange;
use core::marker::PhantomData;
use crate::account_info::{AccountInfo, AccountState};
use crate::address::{Address, SYSTEM_PROGRAM_ID};
use crate::cpi::{CpiCtx, Signer};
use crate::discriminator::{leading_tag, read_tag, Discriminator};
use crate::errors::{ErrorCode, Result};
use crate::fields::{field_fits, write_field};
use crate::system_program::{create_account, lemma_create_account_target, zeros, CreateAccount};
use crate::utility::{spliced, Len, OwnerProgram};

verus! {

/// What a typed buffer holds behind its tag.
pub open spec fn payload(data: Seq<u8>) -> Seq<u8>
    recommends
        data.len() >= 8,
{
    data.subrange(8, data.len() as int)
}

/// Why a record cannot hold a `T`, as far as owner and length show it: the
/// owner is checked first, then the length, which has to be the tag's and
/// the value's together, exactly.
pub open spec fn layout_fault<T: Len + OwnerProgram>(account: AccountState) -> Option<ErrorCode> {
    if account.owner != T::OWNER@ {
        Some(ErrorCode::InvalidAccountOwner)
    } else if T::DISCRIMINATED_LEN < 8 || account.data.len() != T::DISCRIMINATED_LEN {
        Some(ErrorCode::InvalidAccountData)
    } else {
        None
    }
}

/// Why the borrow guard refuses a view, if it does.
pub open spec fn guard_fault(account: AccountState, exclusive: bool) -> Option<ErrorCode> {
    if exclusive && !account.can_lock() {
        Some(ErrorCode::AccountBorrowFailed)
    } else if !exclusive && !account.can_share() {
        Some(ErrorCode::AccountBorrowFailed)
    } else {
        None
    }
}

/// Why the raw decode of a record as `T` fails, if it does: owner, then
/// length, then the borrow guard. The tag is not looked at.
pub open spec fn raw_fault<T: Len + OwnerProgram>(account: AccountState, exclusive: bool) -> Option<
    ErrorCode,
> {
    match layout_fault::<T>(account) {
        Some(fault) => Some(fault),
        None => guard_fault(account, exclusive),
    }
}

/// Why the checked decode of a record as `T` fails, if it does: owner, then
/// length, then tag, then the borrow guard.
pub open spec fn checked_fault<T: Discriminator + Len + OwnerProgram>(
    account: AccountState,
    exclusive: bool,
) -> Option<ErrorCode> {
    match layout_fault::<T>(account) {
        Some(fault) => Some(fault),
        None => if leading_tag(account.data) != T::DISCRIMINATOR@ {
            Some(ErrorCode::InvalidAccountData)
        } else {
            guard_fault(account, exclusive)
        },
    }
}

/// A type that can be made from the bytes of its fixed layout.
pub trait FromBytesUnchecked: Sized {
    /// The value that `bytes` hold. The caller answers for the length.
    fn from_bytes_unchecked(bytes: &[u8]) -> Self;
}

/// A read-only typed view of a record: the value's bytes as they stood when
/// the view was taken. A guarded view counts as one reader of the record
/// until it is released.
#[derive(Debug)]
pub struct Ref<T> {
    bytes: Vec<u8>,
    guarded: bool,
    marker: PhantomData<T>,
}

impl<T> View for Ref<T> {
    type V = Seq<u8>;

    closed spec fn view(&self) -> Seq<u8> {
        self.bytes@
    }
}

impl<T> Ref<T> {
    /// Whether the view is registered with the record's borrow guard.
    pub closed spec fn guarded(&self) -> bool {
        self.guarded
    }

    #[verifier::when_used_as_spec(guarded)]
    pub fn is_guarded(&self) -> (guarded: bool)
        ensures
            guarded == self.guarded(),
    {
        self.guarded
    }

    /// The bytes of the value.
    pub fn as_bytes(&self) -> (bytes: &[u8])
        ensures
            bytes@ == self@,
    {
        self.bytes.as_slice()
    }

    /// Ends the view. A guarded view gives its place among the record's
    /// readers back; an unguarded one has none.
    pub fn release(self, account_info: &mut AccountInfo)
        ensures
            final(account_info)@ == (if self.guarded() {
                old(account_info)@.unshared()
            } else {
                old(account_info)@
            }),
    {
        if self.guarded {
            account_info.release_borrow();
        }
    }
}

impl<T: FromBytesUnchecked> Ref<T> {
    /// The value that the view's bytes hold, as `T` reads them.
    pub fn get(&self) -> (value: T)
        ensures
            exists|bytes: &[u8]|
                bytes@ == self@ && call_ensures(T::from_bytes_unchecked, (bytes,), value),
    {
        T::from_bytes_unchecked(self.bytes.as_slice())
    }
}

/// A mutable typed view of a record: the value's bytes, to be changed and
/// then committed. A guarded view is the record's one writer until it is
/// committed.
#[derive(Debug)]
pub struct RefMut<T> {
    bytes: Vec<u8>,
    guarded: bool,
    marker: PhantomData<T>,
}

impl<T> View for RefMut<T> {
    type V = Seq<u8>;

    closed spec fn view(&self) -> Seq<u8> {
        self.bytes@
    }
}

/// Why a mutable view cannot be committed to a record, if it cannot: the
/// record's buffer is not the tag and a value of the view's length, or a
/// guarded view meets a record that has no writer.
pub open spec fn commit_fault(account: AccountState, value: Seq<u8>, guarded: bool) -> Option<
    ErrorCode,
> {
    if account.data.len() != 8 + value.len() {
        Some(ErrorCode::InvalidAccountData)
    } else if guarded && !account.writer {
        Some(ErrorCode::AccountBorrowFailed)
    } else {
        None
    }
}

/// The record after a mutable view with the given bytes was committed.
pub open spec fn committed(account: AccountState, value: Seq<u8>, guarded: bool) -> AccountState {
    let written = account.with_bytes_at(8, value);
    if guarded {
        written.unlocked()
    } else {
        written
    }
}

impl<T> RefMut<T> {
    /// Whether the view is registered with the record's borrow guard.
    pub closed spec fn guarded(&self) -> bool {
        self.guarded
    }

    #[verifier::when_used_as_spec(guarded)]
    pub fn is_guarded(&self) -> (guarded: bool)
        ensures
            guarded == self.guarded(),
    {
        self.guarded
    }

    /// The bytes of the value.
    pub fn as_bytes(&self) -> (bytes: &[u8])
        ensures
            bytes@ == self@,
    {
        self.bytes.as_slice()
    }

    /// Writes `source` over the value's bytes from `offset` on, if it fits;
    /// says whether it did.
    pub fn write(&mut self, offset: usize, source: &[u8]) -> (written: bool)
        ensures
            written == field_fits(old(self)@.len(), offset as int, source@.len() as int),
            final(self)@ == (if written {
                spliced(old(self)@, offset as int, source@)
            } else {
                old(self)@
            }),
            final(self).guarded() == old(self).guarded(),
    {
        write_field(&mut self.bytes, offset, source)
    }

    /// Ends the view and writes its bytes behind the record's tag. A guarded
    /// view gives the record's one writer back.
    pub fn commit(self, account_info: &mut AccountInfo) -> (r: Result<()>)
        ensures
            match r {
                Ok(()) => commit_fault(old(account_info)@, self@, self.guarded()) is None && final(account_info)@ == committed(old(account_info)@, self@, self.guarded()),
                Err(e) => commit_fault(old(account_info)@, self@, self.guarded()) == Some(e)
                    && final(account_info)@ == old(account_info)@,
            },
    {
        if account_info.data_len() < 8 || account_info.data_len() - 8 != self.bytes.len() {
            return Err(ErrorCode::InvalidAccountData);
        }
        if self.guarded && !account_info.is_borrowed_mut() {
            return Err(ErrorCode::AccountBorrowFailed);
        }
        account_info.write_data_unchecked(8, self.bytes.as_slice());
        if self.guarded {
            account_info.release_borrow_mut();
        }
        Ok(())
    }
}

/// Checks owner and length of a record against `T`.
fn check_layout<T: Len + OwnerProgram>(account_info: &AccountInfo) -> (r: Result<()>)
    ensures
        match r {
            Ok(()) => layout_fault::<T>(account_info@) is None,
            Err(e) => layout_fault::<T>(account_info@) == Some(e),
        },
{
    let owner = T::OWNER;
    if !account_info.is_owned_by(&owner) {
        return Err(ErrorCode::InvalidAccountOwner);
    }
    if T::DISCRIMINATED_LEN < 8 || account_info.data_len() != T::DISCRIMINATED_LEN {
        return Err(ErrorCode::InvalidAccountData);
    }
    Ok(())
}

/// Checks the tag of a record that is long enough to have one.
fn check_tag<T: Discriminator>(account_info: &AccountInfo) -> (r: Result<()>)
    requires
        account_info@.data.len() >= 8,
    ensures
        match r {
            Ok(()) => leading_tag(account_info@.data) == T::DISCRIMINATOR@,
            Err(e) => leading_tag(account_info@.data) != T::DISCRIMINATOR@ && e
                == ErrorCode::InvalidAccountData,
        },
{
    let found = read_tag(account_info.borrow_data_unchecked());
    let declared = T::DISCRIMINATOR;
    let mut i: usize = 0;
    while i < 8
        invariant
            i <= 8,
            found@ == leading_tag(account_info@.data),
            declared == T::DISCRIMINATOR,
            forall|j: int| 0 <= j < i ==> found[j] == declared[j],
        decreases 8 - i,
    {
        if found[i] != declared[i] {
            assert(found@[i as int] != declared@[i as int]);
            return Err(ErrorCode::InvalidAccountData);
        }
        i += 1;
    }
    assert(found@ =~= declared@);
    Ok(())
}

/// The bytes behind the tag, copied out.
fn copy_payload(account_info: &AccountInfo) -> (bytes: Vec<u8>)
    requires
        account_info@.data.len() >= 8,
    ensures
        bytes@ == payload(account_info@.data),
{
    let data = account_info.borrow_data_unchecked();
    let window = slice_subrange(data, 8, data.len());
    vstd::slice::slice_to_vec(window)
}

/// The checked decode: a read-only guarded view of a record as `T`, after
/// owner, length and tag were found right.
pub fn try_deserialize_zc<T: Discriminator + Len + OwnerProgram>(
    account_info: &mut AccountInfo,
) -> (r: Result<Ref<T>>)
    ensures
        match r {
            Ok(view) => checked_fault::<T>(old(account_info)@, false) is None && view@ == payload(
                old(account_info)@.data,
            ) && view.guarded() && final(account_info)@ == old(account_info)@.shared(),
            Err(e) => checked_fault::<T>(old(account_info)@, false) == Some(e) && final(account_info)@ == old(account_info)@,
        },
{
    match check_layout::<T>(account_info) {
        Ok(()) => {},
        Err(e) => {
            return Err(e);
        },
    }
    match check_tag::<T>(account_info) {
        Ok(()) => {},
        Err(e) => {
            return Err(e);
        },
    }
    match account_info.try_borrow() {
        Ok(()) => {},
        Err(e) => {
            return Err(e);
        },
    }
    Ok(Ref { bytes: copy_payload(account_info), guarded: true, marker: PhantomData })
}

/// The checked decode for writing: the one mutable guarded view of a record
/// as `T`, after owner, length and tag were found right.
pub fn try_deserialize_zc_mut<T: Discriminator + Len + OwnerProgram>(
    account_info: &mut AccountInfo,
) -> (r: Result<RefMut<T>>)
    ensures
        match r {
            Ok(view) => checked_fault::<T>(old(account_info)@, true) is None && view@ == payload(
                old(account_info)@.data,
            ) && view.guarded() && final(account_info)@ == old(account_info)@.locked(),
            Err(e) => checked_fault::<T>(old(account_info)@, true) == Some(e) && final(account_info)@ == old(account_info)@,
        },
{
    match check_layout::<T>(account_info) {
        Ok(()) => {},
        Err(e) => {
            return Err(e);
        },
    }
    match check_tag::<T>(account_info) {
        Ok(()) => {},
        Err(e) => {
            return Err(e);
        },
    }
    match account_info.try_borrow_mut() {
        Ok(()) => {},
        Err(e) => {
            return Err(e);
        },
    }
    Ok(RefMut { bytes: copy_payload(account_info), guarded: true, marker: PhantomData })
}

/// Record types that can be viewed after owner and length alone were
/// checked. Every type with an owner, a length and a tag is one.
pub trait RawZcDeserialize: Len + OwnerProgram + Sized {
    /// The raw decode: a read-only guarded view, with the tag not looked at.
    fn try_deserialize_raw(account_info: &mut AccountInfo) -> (r: Result<Ref<Self>>)
        ensures
            match r {
                Ok(view) => raw_fault::<Self>(old(account_info)@, false) is None && view@
                    == payload(old(account_info)@.data) && view.guarded() && final(account_info)@
                    == old(account_info)@.shared(),
                Err(e) => raw_fault::<Self>(old(account_info)@, false) == Some(e) && final(account_info)@ == old(account_info)@,
            },
    ;
}

impl<T: Discriminator + Len + OwnerProgram> RawZcDeserialize for T {
    fn try_deserialize_raw(account_info: &mut AccountInfo) -> (r: Result<Ref<T>>) {
        match check_layout::<T>(account_info) {
            Ok(()) => {},
            Err(e) => {
                return Err(e);
            },
        }
        match account_info.try_borrow() {
            Ok(()) => {},
            Err(e) => {
                return Err(e);
            },
        }
        Ok(Ref { bytes: copy_payload(account_info), guarded: true, marker: PhantomData })
    }
}

/// Record types that can be viewed for writing after owner and length alone
/// were checked.
pub trait RawZcDeserializeMut: Len + OwnerProgram + Sized {
    /// The raw decode for writing: the one mutable guarded view, with the
    /// tag not looked at.
    fn try_deserialize_raw_mut(account_info: &mut AccountInfo) -> (r: Result<RefMut<Self>>)
        ensures
            match r {
                Ok(view) => raw_fault::<Self>(old(account_info)@, true) is None && view@
                    == payload(old(account_info)@.data) && view.guarded() && final(account_info)@
                    == old(account_info)@.locked(),
                Err(e) => raw_fault::<Self>(old(account_info)@, true) == Some(e) && final(account_info)@ == old(account_info)@,
            },
    ;
}

impl<T: Discriminator + Len + OwnerProgram> RawZcDeserializeMut for T {
    fn try_deserialize_raw_mut(account_info: &mut AccountInfo) -> (r: Result<RefMut<T>>) {
        match check_layout::<T>(account_info) {
            Ok(()) => {},
            Err(e) => {
                return Err(e);
            },
        }
        match account_info.try_borrow_mut() {
            Ok(()) => {},
            Err(e) => {
                return Err(e);
            },
        }
        Ok(RefMut { bytes: copy_payload(account_info), guarded: true, marker: PhantomData })
    }
}

/// Record types that can be viewed past the borrow guard.
pub trait RawZcDeserializeUnchecked: Len + OwnerProgram + Sized {
    /// The unchecked decode: owner and length are checked, the tag and the
    /// borrow guard are not, and no view is registered. That nothing writes
    /// the record meanwhile is the caller's to see to.
    fn try_deserialize_raw_unchecked(account_info: &AccountInfo) -> (r: Result<Ref<Self>>)
        ensures
            match r {
                Ok(view) => layout_fault::<Self>(account_info@) is None && view@ == payload(
                    account_info@.data,
                ) && !view.guarded(),
                Err(e) => layout_fault::<Self>(account_info@) == Some(e),
            },
    ;
}

impl<T: Discriminator + Len + OwnerProgram> RawZcDeserializeUnchecked for T {
    fn try_deserialize_raw_unchecked(account_info: &AccountInfo) -> (r: Result<Ref<T>>) {
        match check_layout::<T>(account_info) {
            Ok(()) => {},
            Err(e) => {
                return Err(e);
            },
        }
        Ok(Ref { bytes: copy_payload(account_info), guarded: false, marker: PhantomData })
    }
}

/// Record types that can be viewed for writing past the borrow guard.
pub trait RawZcDeserializeUncheckedMut: Len + OwnerProgram + Sized {
    /// The unchecked decode for writing: owner and length are checked, the
    /// tag and the borrow guard are not, and no view is registered. That
    /// nothing else reads or writes the record meanwhile is the caller's to
    /// see to.
    fn try_deserialize_raw_unchecked_mut(account_info: &AccountInfo) -> (r: Result<RefMut<Self>>)
        ensures
            match r {
                Ok(view) => layout_fault::<Self>(account_info@) is None && view@ == payload(
                    account_info@.data,
                ) && !view.guarded(),
                Err(e) => layout_fault::<Self>(account_info@) == Some(e),
            },
    ;
}

impl<T: Discriminator + Len + OwnerProgram> RawZcDeserializeUncheckedMut for T {
    fn try_deserialize_raw_unchecked_mut(account_info: &AccountInfo) -> (r: Result<RefMut<T>>) {
        match check_layout::<T>(account_info) {
            Ok(()) => {},
            Err(e) => {
                return Err(e);
            },
        }
        Ok(RefMut { bytes: copy_payload(account_info), guarded: false, marker: PhantomData })
    }
}

/// Record types that are read through the checked decode. Every type with
/// an owner, a length and a tag is one.
pub trait ZcDeserialize: Discriminator + Len + OwnerProgram + Sized {
    /// The checked decode for reading.
    fn try_deserialize(account_info: &mut AccountInfo) -> (r: Result<Ref<Self>>)
        ensures
            match r {
                Ok(view) => checked_fault::<Self>(old(account_info)@, false) is None && view@
                    == payload(old(account_info)@.data) && view.guarded() && final(account_info)@
                    == old(account_info)@.shared(),
                Err(e) => checked_fault::<Self>(old(account_info)@, false) == Some(e) && final(account_info)@ == old(account_info)@,
            },
    ;
}

impl<T: Discriminator + Len + OwnerProgram> ZcDeserialize for T {
    fn try_deserialize(account_info: &mut AccountInfo) -> (r: Result<Ref<T>>) {
        try_deserialize_zc::<T>(account_info)
    }
}

/// Record types that are written through the checked decode. Every type
/// with an owner, a length and a tag is one.
pub trait ZcDeserializeMut: Discriminator + Len + OwnerProgram + Sized {
    /// The checked decode for writing.
    fn try_deserialize_mut(account_info: &mut AccountInfo) -> (r: Result<RefMut<Self>>)
        ensures
            match r {
                Ok(view) => checked_fault::<Self>(old(account_info)@, true) is None && view@
                    == payload(old(account_info)@.data) && view.guarded() && final(account_info)@
                    == old(account_info)@.locked(),
                Err(e) => checked_fault::<Self>(old(account_info)@, true) == Some(e) && final(account_info)@ == old(account_info)@,
            },
    ;
}

impl<T: Discriminator + Len + OwnerProgram> ZcDeserializeMut for T {
    fn try_deserialize_mut(account_info: &mut AccountInfo) -> (r: Result<RefMut<T>>) {
        try_deserialize_zc_mut::<T>(account_info)
    }
}

/// What an initialization needs beside the record itself.
pub struct InitAccounts<'ix, 'b> {
    /// The program that will control the record.
    pub owner_program_id: &'b Address,
    /// The record that pays for the buffer.
    pub payer_account: &'ix AccountInfo,
    /// The record of the program that allocates.
    pub system_program: &'ix AccountInfo,
}

impl<'ix, 'b> InitAccounts<'ix, 'b> {
    pub fn new(
        owner_program_id: &'b Address,
        payer_account: &'ix AccountInfo,
        system_program: &'ix AccountInfo,
    ) -> (init_accounts: Self)
        ensures
            init_accounts.owner_program_id == owner_program_id,
            init_accounts.payer_account == payer_account,
            init_accounts.system_program == system_program,
    {
        Self { owner_program_id, payer_account, system_program }
    }
}

/// Why a record cannot be initialized as a `T`, if it cannot: the allocating
/// program is not the system program, the declared length has no room for
/// the tag, the record has a buffer already, or a view of it is live.
pub open spec fn init_fault<T: Len>(system_program: Seq<u8>, target: AccountState) -> Option<
    ErrorCode,
> {
    if system_program != SYSTEM_PROGRAM_ID@ {
        Some(ErrorCode::IncorrectProgramId)
    } else if T::DISCRIMINATED_LEN < 8 {
        Some(ErrorCode::InvalidAccountData)
    } else if target.data.len() != 0 {
        Some(ErrorCode::InvalidAccountData)
    } else if !target.can_lock() {
        Some(ErrorCode::AccountBorrowFailed)
    } else {
        None
    }
}

/// A record right after its initialization as a `T` for `owner`: the
/// buffer holds the tag and a zeroed value, and the mutable view that the
/// initialization returns is live.
pub open spec fn initialized<T: Discriminator + Len>(
    target: AccountState,
    owner: Seq<u8>,
) -> AccountState {
    AccountState {
        owner,
        data: T::DISCRIMINATOR@ + zeros((T::DISCRIMINATED_LEN - 8) as nat),
        writer: true,
        ..target
    }
}

/// Initializes a record without a buffer as a `T`: the buffer is allocated
/// at the declared length and handed to the owning program, the tag is
/// written at its front, and the zeroed value is returned as the record's one
/// mutable view. Every check runs before the record is touched.
pub fn try_initialize_zc<'ix, T: Discriminator + Len + OwnerProgram>(
    target_account: &mut AccountInfo,
    init_accounts: InitAccounts<'ix, '_>,
    signers: Option<&[Signer]>,
) -> (r: Result<RefMut<T>>)
    ensures
        match r {
            Ok(view) => init_fault::<T>(init_accounts.system_program@.address, old(target_account)@)
                is None && final(target_account)@ == initialized::<T>(
                old(target_account)@,
                init_accounts.owner_program_id@,
            ) && view@ == zeros((T::DISCRIMINATED_LEN - 8) as nat) && view.guarded(),
            Err(e) => init_fault::<T>(init_accounts.system_program@.address, old(target_account)@)
                == Some(e) && final(target_account)@ == old(target_account)@,
        },
{
    proof {
        lemma_create_account_target();
    }
    let cpi_ctx = match CpiCtx::try_new(
        init_accounts.system_program,
        CreateAccount { from: init_accounts.payer_account, to: *target_account.address() },
        signers,
    ) {
        Ok(ctx) => ctx,
        Err(e) => {
            return Err(e);
        },
    };
    if T::DISCRIMINATED_LEN < 8 {
        return Err(ErrorCode::InvalidAccountData);
    }
    if !target_account.is_data_empty() {
        return Err(ErrorCode::InvalidAccountData);
    }
    match target_account.check_borrow_mut() {
        Ok(()) => {},
        Err(e) => {
            return Err(e);
        },
    }
    match create_account(
        cpi_ctx,
        target_account,
        init_accounts.owner_program_id,
        T::DISCRIMINATED_LEN,
    ) {
        Ok(()) => {},
        Err(e) => {
            return Err(e);
        },
    }
    match target_account.try_borrow_mut() {
        Ok(()) => {},
        Err(e) => {
            return Err(e);
        },
    }
    let tag = T::DISCRIMINATOR;
    target_account.write_data_unchecked(0, tag.as_slice());
    let value = copy_payload(target_account);
    proof {
        assert(target_account@.data =~= T::DISCRIMINATOR@ + zeros(
            (T::DISCRIMINATED_LEN - 8) as nat,
        ));
        assert(value@ =~= zeros((T::DISCRIMINATED_LEN - 8) as nat));
    }
    Ok(RefMut { bytes: value, guarded: true, marker: PhantomData })
}

/// Record types that are created through the initialization. Every type
/// with an owner, a length and a tag is one.
pub trait ZcInitialize: Discriminator + Len + OwnerProgram + Sized {
    /// The initialization of a record as a value of the type.
    fn try_initialize<'ix>(
        target_account: &mut AccountInfo,
        init_accounts: InitAccounts<'ix, '_>,
        signers: Option<&[Signer]>,
    ) -> (r: Result<RefMut<Self>>)
        ensures
            match r {
                Ok(view) => init_fault::<Self>(
                    init_accounts.system_program@.address,
                    old(target_account)@,
                ) is None && final(target_account)@ == initialized::<Self>(
                    old(target_account)@,
                    init_accounts.owner_program_id@,
                ) && view@ == zeros((Self::DISCRIMINATED_LEN - 8) as nat) && view.guarded(),
                Err(e) => init_fault::<Self>(
                    init_accounts.system_program@.address,
                    old(target_account)@,
                ) == Some(e) && final(target_account)@ == old(target_account)@,
            },
    ;
}

impl<T: Discriminator + Len + OwnerProgram> ZcInitialize for T {
    fn try_initialize<'ix>(
        target_account: &mut AccountInfo,
        init_accounts: InitAccounts<'ix, '_>,
        signers: Option<&[Signer]>,
    ) -> (r: Result<RefMut<T>>) {
        try_initialize_zc::<T>(target_account, init_accounts, signers)
    }
}

/// A record that another program controls is never decoded as `T`: the
/// checked and the raw decode, guarded or not, for reading or for writing,
/// fail with `InvalidAccountOwner`, whatever the buffer holds and whatever
/// views are live.
pub proof fn lemma_wrong_owner_is_refused<T: Discriminator + Len + OwnerProgram>(
    account: AccountState,
    exclusive: bool,
)
    requires
        account.owner != T::OWNER@,
    ensures
        checked_fault::<T>(account, exclusive) == Some(ErrorCode::InvalidAccountOwner),
        raw_fault::<T>(account, exclusive) == Some(ErrorCode::InvalidAccountOwner),
        layout_fault::<T>(account) == Some(ErrorCode::InvalidAccountOwner),
{
}

/// Of a record of the right owner the length decides: any length but the
/// declared one fails the checked and the raw decode with
/// `InvalidAccountData`, so a decode that succeeds has met the declared
/// length exactly; and at the declared length the raw decode is refused by
/// the borrow guard alone, the checked decode by tag and borrow guard alone.
pub proof fn lemma_length_decides<T: Discriminator + Len + OwnerProgram>(
    account: AccountState,
    exclusive: bool,
)
    requires
        account.owner == T::OWNER@,
    ensures
        account.data.len() != T::DISCRIMINATED_LEN ==> {
            &&& checked_fault::<T>(account, exclusive) == Some(ErrorCode::InvalidAccountData)
            &&& raw_fault::<T>(account, exclusive) == Some(ErrorCode::InvalidAccountData)
            &&& layout_fault::<T>(account) == Some(ErrorCode::InvalidAccountData)
        },
        checked_fault::<T>(account, exclusive) is None ==> account.data.len()
            == T::DISCRIMINATED_LEN,
        raw_fault::<T>(account, exclusive) is None ==> account.data.len() == T::DISCRIMINATED_LEN,
        account.data.len() == T::DISCRIMINATED_LEN && T::DISCRIMINATED_LEN >= 8 ==> {
            &&& layout_fault::<T>(account) is None
            &&& raw_fault::<T>(account, exclusive) == guard_fault(account, exclusive)
            &&& leading_tag(account.data) == T::DISCRIMINATOR@ ==> checked_fault::<T>(
                account,
                exclusive,
            ) == guard_fault(account, exclusive)
        },
{
}

/// Initialization and decode agree. A record that was initialized as `T`
/// for the program that owns `T`, and whose returned view was committed
/// unchanged, decodes as `T`, checked or raw, for reading or for writing,
/// and what the decode yields is the zero value. A second initialization of
/// the record fails: during the first view's life and after it.
pub proof fn lemma_initialize_then_decode<T: Discriminator + Len + OwnerProgram>(
    system_program: Seq<u8>,
    target: AccountState,
    exclusive: bool,
)
    requires
        init_fault::<T>(system_program, target) is None,
    ensures
        ({
            let zero = zeros((T::DISCRIMINATED_LEN - 8) as nat);
            let live = initialized::<T>(target, T::OWNER@);
            let done = committed(live, zero, true);
            &&& commit_fault(live, zero, true) is None
            &&& done == AccountState { writer: false, ..live }
            &&& checked_fault::<T>(done, exclusive) is None
            &&& raw_fault::<T>(done, exclusive) is None
            &&& payload(done.data) == zero
            &&& init_fault::<T>(system_program, live) is Some
            &&& init_fault::<T>(system_program, done) == Some(ErrorCode::InvalidAccountData)
        }),
{
    let zero = zeros((T::DISCRIMINATED_LEN - 8) as nat);
    let live = initialized::<T>(target, T::OWNER@);
    let done = committed(live, zero, true);
    assert(live.data.len() == T::DISCRIMINATED_LEN);
    assert(spliced(live.data, 8, zero) =~= live.data);
    assert(leading_tag(done.data) =~= T::DISCRIMINATOR@);
    assert(payload(done.data) =~= zero);
}

/// The guarded views of one record exclude each other, and the unguarded
/// ones exclude nothing. While any guarded view is live, a record that is
/// otherwise in order gives no mutable view; while the mutable view is live,
/// it gives no read-only view either; each time the failure is
/// `AccountBorrowFailed`. What the unchecked decode answers does not depend
/// on the views that are live.
pub proof fn lemma_views_exclude<T: Discriminator + Len + OwnerProgram>(
    account: AccountState,
    readers: nat,
    writer: bool,
)
    requires
        layout_fault::<T>(account) is None,
    ensures
        !account.is_free() ==> raw_fault::<T>(account, true) == Some(
            ErrorCode::AccountBorrowFailed,
        ),
        account.writer ==> raw_fault::<T>(account, false) == Some(ErrorCode::AccountBorrowFailed),
        leading_tag(account.data) == T::DISCRIMINATOR@ ==> {
            &&& !account.is_free() ==> checked_fault::<T>(account, true) == Some(
                ErrorCode::AccountBorrowFailed,
            )
            &&& account.writer ==> checked_fault::<T>(account, false) == Some(
                ErrorCode::AccountBorrowFailed,
            )
        },
        layout_fault::<T>(AccountState { readers, writer, ..account }) is None,
{
}

/// What a guarded decode for reading does, given the fault it looks for:
/// without a fault the view holds the record's value and is registered as
/// one more reader; with a fault the record is left as it was.
pub open spec fn reads_guarded<T>(
    fault: Option<ErrorCode>,
    before: AccountState,
    after: AccountState,
    r: Result<Ref<T>>,
) -> bool {
    match r {
        Ok(view) => fault is None && view@ == payload(before.data) && view.guarded() && after
            == before.shared(),
        Err(e) => fault == Some(e) && after == before,
    }
}

/// What a guarded decode for writing does, given the fault it looks for:
/// without a fault the view holds the record's value and is registered as
/// the writer; with a fault the record is left as it was.
pub open spec fn writes_guarded<T>(
    fault: Option<ErrorCode>,
    before: AccountState,
    after: AccountState,
    r: Result<RefMut<T>>,
) -> bool {
    match r {
        Ok(view) => fault is None && view@ == payload(before.data) && view.guarded() && after
            == before.locked(),
        Err(e) => fault == Some(e) && after == before,
    }
}

/// What an unguarded decode for reading gives, given the fault it looks for.
pub open spec fn reads_unguarded<T>(
    fault: Option<ErrorCode>,
    account: AccountState,
    r: Result<Ref<T>>,
) -> bool {
    match r {
        Ok(view) => fault is None && view@ == payload(account.data) && !view.guarded(),
        Err(e) => fault == Some(e),
    }
}

/// What an unguarded decode for writing gives, given the fault it looks for.
pub open spec fn writes_unguarded<T>(
    fault: Option<ErrorCode>,
    account: AccountState,
    r: Result<RefMut<T>>,
) -> bool {
    match r {
        Ok(view) => fault is None && view@ == payload(account.data) && !view.guarded(),
        Err(e) => fault == Some(e),
    }
}

/// What an initialization as `T` for `owner` does, given the fault it looks
/// for: without a fault the record is initialized and the view holds the zero
/// value; with a fault the record is left as it was.
pub open spec fn initializes<T: Discriminator + Len>(
    fault: Option<ErrorCode>,
    before: AccountState,
    after: AccountState,
    owner: Seq<u8>,
    r: Result<RefMut<T>>,
) -> bool {
    match r {
        Ok(view) => fault is None && after == initialized::<T>(before, owner) && view@ == zeros(
            (T::DISCRIMINATED_LEN - 8) as nat,
        ) && view.guarded(),
        Err(e) => fault == Some(e) && after == before,
    }
}

} // verus!
