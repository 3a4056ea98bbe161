use vstd::prelude::*;
use crate::address::{address_eq, Address};
use crate::errors::{ErrorCode, Result};
use crate::utility::{splice_bytes, spliced};

verus! {

/// What a record is, as the contracts of this library speak of it.
pub struct AccountState {
    /// The record's own identifier.
    pub address: Seq<u8>,
    /// The identifier of the program that controls the record.
    pub owner: Seq<u8>,
    /// The record's balance.
    pub lamports: u64,
    /// The record's buffer.
    pub data: Seq<u8>,
    /// Whether the record approved the invocation.
    pub is_signer: bool,
    /// Whether the invocation may change the record.
    pub is_writable: bool,
    /// Whether the record holds a program.
    pub executable: bool,
    /// How many guarded read-only views of the buffer are live.
    pub readers: nat,
    /// Whether a guarded mutable view of the buffer is live.
    pub writer: bool,
}

impl AccountState {
    /// One writer or any number of readers: a writer is never live together
    /// with a reader.
    pub open spec fn single_writer_or_readers(self) -> bool {
        self.writer ==> self.readers == 0
    }

    /// No guarded view of the buffer is live.
    pub open spec fn is_free(self) -> bool {
        !self.writer && self.readers == 0
    }

    /// One more guarded read-only view may be taken: no writer is live and
    /// the count of readers still fits the machine.
    pub open spec fn can_share(self) -> bool {
        !self.writer && self.readers < usize::MAX
    }

    /// A guarded mutable view may be taken: nothing else is live.
    pub open spec fn can_lock(self) -> bool {
        self.is_free()
    }

    /// The state after one more read-only view was taken.
    pub open spec fn shared(self) -> AccountState {
        AccountState { readers: self.readers + 1, ..self }
    }

    /// The state after one read-only view was given back.
    pub open spec fn unshared(self) -> AccountState {
        if self.readers > 0 {
            AccountState { readers: (self.readers - 1) as nat, ..self }
        } else {
            self
        }
    }

    /// The state after the mutable view was taken.
    pub open spec fn locked(self) -> AccountState {
        AccountState { writer: true, ..self }
    }

    /// The state after the mutable view was given back.
    pub open spec fn unlocked(self) -> AccountState {
        AccountState { writer: false, ..self }
    }

    /// The state with `bytes` written over the buffer from `offset` on.
    pub open spec fn with_bytes_at(self, offset: int, bytes: Seq<u8>) -> AccountState
        recommends
            0 <= offset,
            offset + bytes.len() <= self.data.len(),
    {
        AccountState { data: spliced(self.data, offset, bytes), ..self }
    }

    /// The state with the buffer cut or zero-extended to `len` bytes.
    pub open spec fn resized(self, len: nat) -> AccountState {
        AccountState {
            data: Seq::new(len, |i: int| if i < self.data.len() { self.data[i] } else { 0u8 }),
            ..self
        }
    }
}

/// One memory region of an invocation: its identity, its controlling
/// program, its buffer, its permission flags, and the count of guarded views
/// that are live on the buffer.
#[derive(Clone, Debug)]
pub struct AccountInfo {
    address: Address,
    owner: Address,
    lamports: u64,
    data: Vec<u8>,
    is_signer: bool,
    is_writable: bool,
    executable: bool,
    readers: usize,
    writer: bool,
}

impl View for AccountInfo {
    type V = AccountState;

    closed spec fn view(&self) -> AccountState {
        AccountState {
            address: self.address@,
            owner: self.owner@,
            lamports: self.lamports,
            data: self.data@,
            is_signer: self.is_signer,
            is_writable: self.is_writable,
            executable: self.executable,
            readers: if self.writer {
                0
            } else {
                self.readers as nat
            },
            writer: self.writer,
        }
    }
}

impl AccountInfo {
    /// A record as the host hands it over: no view of its buffer is live.
    pub fn new(
        address: Address,
        owner: Address,
        lamports: u64,
        data: Vec<u8>,
        is_signer: bool,
        is_writable: bool,
        executable: bool,
    ) -> (account: AccountInfo)
        ensures
            account@ == (AccountState {
                address: address@,
                owner: owner@,
                lamports,
                data: data@,
                is_signer,
                is_writable,
                executable,
                readers: 0,
                writer: false,
            }),
    {
        AccountInfo {
            address,
            owner,
            lamports,
            data,
            is_signer,
            is_writable,
            executable,
            readers: 0,
            writer: false,
        }
    }

    /// What holds of every record: the identifiers have their fixed width,
    /// the buffer's length and the count of readers fit the machine, and a
    /// writer is never live together with a reader.
    pub proof fn lemma_view_bounds(&self)
        ensures
            self@.address.len() == 32,
            self@.owner.len() == 32,
            self@.data.len() <= usize::MAX,
            self@.readers <= usize::MAX,
            self@.single_writer_or_readers(),
    {
        assert(self.data@.len() == self.data.len());
    }

    pub fn address(&self) -> (address: &Address)
        ensures
            address@ == self@.address,
    {
        &self.address
    }

    pub fn owner(&self) -> (owner: &Address)
        ensures
            owner@ == self@.owner,
    {
        &self.owner
    }

    pub fn is_owned_by(&self, program: &Address) -> (owned: bool)
        ensures
            owned == (self@.owner == program@),
    {
        address_eq(&self.owner, program)
    }

    pub fn lamports(&self) -> (lamports: u64)
        ensures
            lamports == self@.lamports,
    {
        self.lamports
    }

    pub fn data_len(&self) -> (len: usize)
        ensures
            len == self@.data.len(),
    {
        self.data.len()
    }

    pub fn is_data_empty(&self) -> (empty: bool)
        ensures
            empty == (self@.data.len() == 0),
    {
        self.data.len() == 0
    }

    pub fn is_signer(&self) -> (flag: bool)
        ensures
            flag == self@.is_signer,
    {
        self.is_signer
    }

    pub fn is_writable(&self) -> (flag: bool)
        ensures
            flag == self@.is_writable,
    {
        self.is_writable
    }

    pub fn executable(&self) -> (flag: bool)
        ensures
            flag == self@.executable,
    {
        self.executable
    }

    /// Whether any guarded view of the buffer is live. In every record a
    /// writer is live without readers, or readers without a writer.
    pub fn is_borrowed(&self) -> (borrowed: bool)
        ensures
            borrowed == !self@.is_free(),
            self@.single_writer_or_readers(),
    {
        self.writer || self.readers > 0
    }

    /// Whether the guarded mutable view of the buffer is live, which it
    /// never is together with a reader.
    pub fn is_borrowed_mut(&self) -> (borrowed: bool)
        ensures
            borrowed == self@.writer,
            self@.single_writer_or_readers(),
    {
        self.writer
    }

    /// Whether one more read-only view could be taken now.
    pub fn check_borrow(&self) -> (r: Result<()>)
        ensures
            r == (if self@.can_share() {
                Ok::<(), ErrorCode>(())
            } else {
                Err(ErrorCode::AccountBorrowFailed)
            }),
    {
        if self.writer || self.readers == usize::MAX {
            Err(ErrorCode::AccountBorrowFailed)
        } else {
            Ok(())
        }
    }

    /// Whether the mutable view could be taken now.
    pub fn check_borrow_mut(&self) -> (r: Result<()>)
        ensures
            r == (if self@.can_lock() {
                Ok::<(), ErrorCode>(())
            } else {
                Err(ErrorCode::AccountBorrowFailed)
            }),
    {
        if self.writer || self.readers > 0 {
            Err(ErrorCode::AccountBorrowFailed)
        } else {
            Ok(())
        }
    }

    /// Registers one more read-only view, unless a writer is live.
    pub fn try_borrow(&mut self) -> (r: Result<()>)
        ensures
            match r {
                Ok(()) => old(self)@.can_share() && final(self)@ == old(self)@.shared(),
                Err(e) => !old(self)@.can_share() && e == ErrorCode::AccountBorrowFailed && final(self)@ == old(self)@,
            },
    {
        if self.writer || self.readers == usize::MAX {
            return Err(ErrorCode::AccountBorrowFailed);
        }
        self.readers = self.readers + 1;
        Ok(())
    }

    /// Registers the mutable view, unless any view is live.
    pub fn try_borrow_mut(&mut self) -> (r: Result<()>)
        ensures
            match r {
                Ok(()) => old(self)@.can_lock() && final(self)@ == old(self)@.locked(),
                Err(e) => !old(self)@.can_lock() && e == ErrorCode::AccountBorrowFailed && final(self)@ == old(self)@,
            },
    {
        if self.writer || self.readers > 0 {
            return Err(ErrorCode::AccountBorrowFailed);
        }
        self.writer = true;
        Ok(())
    }

    /// Gives one read-only view back. Without a live reader nothing changes.
    pub fn release_borrow(&mut self)
        ensures
            final(self)@ == old(self)@.unshared(),
    {
        if self.readers > 0 {
            self.readers = self.readers - 1;
        }
    }

    /// Gives the mutable view back.
    pub fn release_borrow_mut(&mut self)
        ensures
            final(self)@ == old(self)@.unlocked(),
    {
        if self.writer {
            self.writer = false;
            self.readers = 0;
        }
    }

    /// The buffer, read past the guard: no view is registered and none is
    /// asked about.
    pub fn borrow_data_unchecked(&self) -> (data: &[u8])
        ensures
            data@ == self@.data,
    {
        self.data.as_slice()
    }

    /// Writes `source` over the buffer from `offset` on, past the guard.
    pub fn write_data_unchecked(&mut self, offset: usize, source: &[u8])
        requires
            offset + source@.len() <= old(self)@.data.len(),
        ensures
            final(self)@ == old(self)@.with_bytes_at(offset as int, source@),
    {
        splice_bytes(&mut self.data, offset, source);
    }

    /// Hands the record to another controlling program.
    pub fn assign(&mut self, new_owner: &Address)
        ensures
            final(self)@ == (AccountState { owner: new_owner@, ..old(self)@ }),
    {
        self.owner = *new_owner;
    }

    /// Cuts the buffer to `new_len` bytes, or extends it with zeros.
    pub fn resize(&mut self, new_len: usize)
        ensures
            final(self)@ == old(self)@.resized(new_len as nat),
    {
        self.data.resize(new_len, 0u8);
        assert(self.data@ =~= old(self)@.resized(new_len as nat).data);
    }
}

/// The borrow guard keeps to one writer or any number of readers: a record
/// that has a writer without readers, or readers without a writer, or
/// neither, still has after a view was taken where the guard allows it,
/// and after a view was given back.
pub proof fn lemma_guard_keeps_single_writer_or_readers(account: AccountState)
    requires
        account.single_writer_or_readers(),
    ensures
        account.can_share() ==> account.shared().single_writer_or_readers(),
        account.can_lock() ==> account.locked().single_writer_or_readers(),
        account.unshared().single_writer_or_readers(),
        account.unlocked().single_writer_or_readers(),
        account.can_lock() ==> !account.locked().can_share() && !account.locked().can_lock(),
        account.can_share() ==> !account.shared().can_lock(),
{
}

} // verus!
