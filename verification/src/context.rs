use vstd::prelude::*;
use vstd::slice::slice_subrange;
use crate::account_info::AccountInfo;
use crate::accounts::{FromAccountInfo, NoMeta};
use crate::errors::{ErrorCode, Result};

verus! {

/// A cursor over the records of an invocation: it hands them out once each,
/// in their order, and never goes back.
#[derive(Clone, Copy)]
pub struct AccountIter<'a> {
    slice: &'a [AccountInfo],
    index: usize,
}

/// What a cursor is: the list it walks, and how many records it has handed
/// out.
pub struct Cursor {
    pub list: Seq<AccountInfo>,
    pub position: nat,
}

impl Cursor {
    /// What the next step hands out: the record at the position, or the
    /// refusal that tells that none is left.
    pub open spec fn next_item(self) -> Result<AccountInfo> {
        if self.position < self.list.len() {
            Ok(self.list[self.position as int])
        } else {
            Err(ErrorCode::InvalidAccount)
        }
    }

    /// The cursor after the next step: one record further, or where it was if
    /// none is left.
    pub open spec fn advanced(self) -> Cursor {
        if self.position < self.list.len() {
            Cursor { position: self.position + 1, ..self }
        } else {
            self
        }
    }

    /// The cursor after `k` steps.
    pub open spec fn advanced_by(self, k: nat) -> Cursor
        decreases k,
    {
        if k == 0 {
            self
        } else {
            self.advanced_by((k - 1) as nat).advanced()
        }
    }

    /// The records that were not handed out yet, in their order.
    pub open spec fn remaining(self) -> Seq<AccountInfo> {
        self.list.subrange(self.position as int, self.list.len() as int)
    }
}

impl<'a> View for AccountIter<'a> {
    type V = Cursor;

    closed spec fn view(&self) -> Cursor {
        Cursor { list: self.slice@, position: self.index as nat }
    }
}

impl<'a> AccountIter<'a> {
    #[verifier::type_invariant]
    spec fn inv(self) -> bool {
        self.index <= self.slice@.len()
    }

    /// A cursor in front of the first record of `slice`.
    pub fn new(slice: &'a [AccountInfo]) -> (iter: Self)
        ensures
            iter@ == (Cursor { list: slice@, position: 0 }),
    {
        Self { slice, index: 0 }
    }

    /// Hands out the record at the position and moves one further. Where no
    /// record is left, the call fails and the cursor stays.
    pub fn next(&mut self) -> (r: Result<&'a AccountInfo>)
        ensures
            old(self)@.position <= old(self)@.list.len(),
            final(self)@ == old(self)@.advanced(),
            match r {
                Ok(account_info) => old(self)@.next_item() == Ok::<AccountInfo, ErrorCode>(
                    *account_info,
                ),
                Err(e) => old(self)@.next_item() == Err::<AccountInfo, ErrorCode>(e),
            },
    {
        proof {
            use_type_invariant(&*self);
        }
        if self.index >= self.slice.len() {
            return Err(ErrorCode::InvalidAccount);
        }
        let account_info = &self.slice[self.index];
        self.index += 1;
        Ok(account_info)
    }

    /// How many records were handed out.
    pub fn position(&self) -> (position: usize)
        ensures
            position == self@.position,
            self@.position <= self@.list.len(),
    {
        proof {
            use_type_invariant(self);
        }
        self.index
    }

    /// The records that were not handed out yet, in their order.
    pub fn into_subslice(&self) -> (rest: &'a [AccountInfo])
        ensures
            self@.position <= self@.list.len(),
            rest@ == self@.remaining(),
    {
        proof {
            use_type_invariant(self);
        }
        slice_subrange(self.slice, self.index, self.slice.len())
    }
}

/// An accounts struct: it is built from the records of an invocation, taken
/// from the cursor one per field in the order in which the fields are
/// declared.
pub trait FromAccountInfos<'a>: Sized {
    /// Builds the struct from the next records of the cursor. The cursor
    /// keeps its list and only moves forward.
    fn try_from_account_infos(account_infos: &mut AccountIter<'a>) -> (r: Result<Self>)
        ensures
            final(account_infos)@.list == old(account_infos)@.list,
            old(account_infos)@.position <= final(account_infos)@.position,
    ;
}

/// The accounts struct without fields takes no record.
impl<'a> FromAccountInfos<'a> for () {
    fn try_from_account_infos(account_infos: &mut AccountIter<'a>) -> (r: Result<()>)
        ensures
            r is Ok,
            final(account_infos)@ == old(account_infos)@,
    {
        Ok(())
    }
}

/// What one field of an accounts struct makes of the cursor's next record:
/// the refusal that no record is left, the wrapper's own refusal of the
/// record, or nothing to object to.
pub open spec fn field_fault<W: FromAccountInfo<Meta = NoMeta>>(cursor: Cursor) -> Option<
    ErrorCode,
> {
    match cursor.next_item() {
        Ok(account_info) => W::rejection(account_info@, NoMeta),
        Err(exhausted) => Some(exhausted),
    }
}

/// Whether `account` is the wrapper of the cursor's next record.
pub open spec fn wraps_next<W: FromAccountInfo<Meta = NoMeta>>(cursor: Cursor, account: W) -> bool {
    cursor.position < cursor.list.len() && account.key_view()
        == cursor.list[cursor.position as int]@.address
}

/// Takes one record from the cursor and builds one wrapper from it. A
/// record that the wrapper refuses is taken all the same.
pub fn next_account<'a, W: FromAccountInfo<Meta = NoMeta>>(account_infos: &mut AccountIter<'a>) -> (r:
    Result<W>)
    ensures
        final(account_infos)@ == old(account_infos)@.advanced(),
        match r {
            Ok(account) => field_fault::<W>(old(account_infos)@) is None && wraps_next(
                old(account_infos)@,
                account,
            ),
            Err(e) => field_fault::<W>(old(account_infos)@) == Some(e),
        },
{
    match account_infos.next() {
        Ok(account_info) => W::try_from_account_info(account_info, NoMeta),
        Err(e) => Err(e),
    }
}

/// The accounts struct of one field takes one record.
impl<'a, A: FromAccountInfo<Meta = NoMeta>> FromAccountInfos<'a> for (A,) {
    fn try_from_account_infos(account_infos: &mut AccountIter<'a>) -> (r: Result<(A,)>)
        ensures
            match r {
                Ok(accounts) => field_fault::<A>(old(account_infos)@) is None && wraps_next(
                    old(account_infos)@,
                    accounts.0,
                ) && final(account_infos)@ == old(account_infos)@.advanced(),
                Err(e) => field_fault::<A>(old(account_infos)@) == Some(e),
            },
    {
        match next_account::<A>(account_infos) {
            Ok(first) => Ok((first,)),
            Err(e) => Err(e),
        }
    }
}

/// The accounts struct of two fields takes two records, the first field's
/// first; the first refusal ends the construction.
impl<'a, A: FromAccountInfo<Meta = NoMeta>, B: FromAccountInfo<Meta = NoMeta>> FromAccountInfos<
    'a,
> for (A, B) {
    fn try_from_account_infos(account_infos: &mut AccountIter<'a>) -> (r: Result<(A, B)>)
        ensures
            match r {
                Ok(accounts) => {
                    let start = old(account_infos)@;
                    &&& field_fault::<A>(start) is None
                    &&& field_fault::<B>(start.advanced()) is None
                    &&& wraps_next(start, accounts.0)
                    &&& wraps_next(start.advanced(), accounts.1)
                    &&& final(account_infos)@ == start.advanced_by(2)
                },
                Err(e) => {
                    let start = old(account_infos)@;
                    if field_fault::<A>(start) is Some {
                        field_fault::<A>(start) == Some(e)
                    } else {
                        field_fault::<B>(start.advanced()) == Some(e)
                    }
                },
            },
    {
        let ghost start = account_infos@;
        let first = match next_account::<A>(account_infos) {
            Ok(first) => first,
            Err(e) => {
                return Err(e);
            },
        };
        let second = match next_account::<B>(account_infos) {
            Ok(second) => second,
            Err(e) => {
                return Err(e);
            },
        };
        proof {
            reveal_with_fuel(Cursor::advanced_by, 3);
        }
        Ok((first, second))
    }
}

/// The accounts struct of three fields takes three records in the order of
/// its fields; the first refusal ends the construction.
impl<
    'a,
    A: FromAccountInfo<Meta = NoMeta>,
    B: FromAccountInfo<Meta = NoMeta>,
    C: FromAccountInfo<Meta = NoMeta>,
> FromAccountInfos<'a> for (A, B, C) {
    fn try_from_account_infos(account_infos: &mut AccountIter<'a>) -> (r: Result<(A, B, C)>)
        ensures
            match r {
                Ok(accounts) => {
                    let start = old(account_infos)@;
                    &&& field_fault::<A>(start) is None
                    &&& field_fault::<B>(start.advanced()) is None
                    &&& field_fault::<C>(start.advanced_by(2)) is None
                    &&& wraps_next(start, accounts.0)
                    &&& wraps_next(start.advanced(), accounts.1)
                    &&& wraps_next(start.advanced_by(2), accounts.2)
                    &&& final(account_infos)@ == start.advanced_by(3)
                },
                Err(e) => {
                    let start = old(account_infos)@;
                    if field_fault::<A>(start) is Some {
                        field_fault::<A>(start) == Some(e)
                    } else if field_fault::<B>(start.advanced()) is Some {
                        field_fault::<B>(start.advanced()) == Some(e)
                    } else {
                        field_fault::<C>(start.advanced_by(2)) == Some(e)
                    }
                },
            },
    {
        proof {
            reveal_with_fuel(Cursor::advanced_by, 4);
        }
        let first = match next_account::<A>(account_infos) {
            Ok(first) => first,
            Err(e) => {
                return Err(e);
            },
        };
        let second = match next_account::<B>(account_infos) {
            Ok(second) => second,
            Err(e) => {
                return Err(e);
            },
        };
        let third = match next_account::<C>(account_infos) {
            Ok(third) => third,
            Err(e) => {
                return Err(e);
            },
        };
        Ok((first, second, third))
    }
}

/// How a context follows from what the construction of its accounts struct
/// gave and from the records that the construction left: a struct that was
/// built is bundled with these records, and a refusal is handed on as it is.
pub open spec fn concludes<'a, T: FromAccountInfos<'a>>(
    outcome: Result<T>,
    rest: Seq<AccountInfo>,
    r: Result<Ctx<'a, T>>,
) -> bool {
    match outcome {
        Ok(accounts) => r matches Ok(ctx) && ctx.accounts == accounts && ctx.remaining_accounts@
            == rest,
        Err(e) => r matches Err(refusal) && refusal == e,
    }
}

/// The validated accounts of an invocation, and the records that the
/// accounts struct did not take.
pub struct Ctx<'a, T: FromAccountInfos<'a>> {
    /// The accounts struct.
    pub accounts: T,
    /// The records that were left over, in their order.
    pub remaining_accounts: &'a [AccountInfo],
}

impl<'a, T: FromAccountInfos<'a>> Ctx<'a, T> {
    /// Bundles an accounts struct with the records that the cursor it was
    /// built from has left.
    pub fn assemble(accounts: T, account_infos: &AccountIter<'a>) -> (ctx: Self)
        ensures
            ctx.accounts == accounts,
            ctx.remaining_accounts@ == account_infos@.remaining(),
            account_infos@.position <= account_infos@.list.len(),
    {
        Ctx { accounts, remaining_accounts: account_infos.into_subslice() }
    }

    /// Makes the context of what the accounts struct's construction gave and
    /// of the cursor it was given: the struct with the records that the
    /// cursor has left, or the construction's own refusal.
    pub fn conclude(outcome: Result<T>, account_infos: &AccountIter<'a>) -> (r: Result<Self>)
        ensures
            concludes(outcome, account_infos@.remaining(), r),
            account_infos@.position <= account_infos@.list.len(),
    {
        let remaining_accounts = account_infos.into_subslice();
        match outcome {
            Ok(accounts) => Ok(Ctx { accounts, remaining_accounts }),
            Err(e) => Err(e),
        }
    }

    /// Builds the accounts struct from the front of the list and keeps what
    /// it leaves. `T`'s construction is run once, on a cursor that stands in
    /// front of the first record of the list; where it succeeds, the context
    /// holds the struct it built and the records that this cursor has left,
    /// a tail of the list in the list's order; where it fails, its refusal is
    /// the result.
    pub fn construct(account_infos: &'a [AccountInfo]) -> (r: Result<Self>)
        ensures
            exists|cursor: &mut AccountIter<'a>, outcome: Result<T>|
                (*cursor)@ == (Cursor { list: account_infos@, position: 0 }) && call_ensures(
                    T::try_from_account_infos,
                    (cursor,),
                    outcome,
                ) && concludes(outcome, (*final(cursor))@.remaining(), r),
            r matches Ok(ctx) ==> exists|taken: int|
                0 <= taken <= account_infos@.len() && ctx.remaining_accounts@
                    == #[trigger] account_infos@.subrange(taken, account_infos@.len() as int),
    {
        let mut iter = AccountIter::new(account_infos);
        let cursor = &mut iter;
        let outcome = T::try_from_account_infos(cursor);
        let r = Ctx::conclude(outcome, &iter);
        r
    }

    /// A fresh cursor over the records that were left over.
    pub fn remaining_accounts(&self) -> (iter: AccountIter<'a>)
        ensures
            iter@ == (Cursor { list: self.remaining_accounts@, position: 0 }),
    {
        AccountIter::new(self.remaining_accounts)
    }
}

/// What `k` steps do to a cursor that stands in front of a list of `n`
/// records, for `k` up to `n`: the cursor stands behind the first `k`
/// records, the step that follows hands out record `k` if there is one and
/// fails with `InvalidAccount` if `k` is `n`, and the `n - k` records
/// that are left are the tail of the list in its order.
pub proof fn lemma_cursor_steps(list: Seq<AccountInfo>, k: nat)
    requires
        k <= list.len(),
    ensures
        ({
            let start = Cursor { list, position: 0 };
            let now = start.advanced_by(k);
            &&& now == Cursor { list, position: k }
            &&& k < list.len() ==> now.next_item() == Ok::<AccountInfo, ErrorCode>(list[k as int])
            &&& k == list.len() ==> now.next_item() == Err::<AccountInfo, ErrorCode>(
                ErrorCode::InvalidAccount,
            )
            &&& k == list.len() ==> now.advanced() == now
            &&& now.remaining().len() == list.len() - k
            &&& forall|i: int| 0 <= i < list.len() - k ==> now.remaining()[i] == list[k + i]
        }),
    decreases k,
{
    if k > 0 {
        lemma_cursor_steps(list, (k - 1) as nat);
    }
}

} // verus!
