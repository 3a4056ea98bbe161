use hayabusa::account_info::AccountInfo;
use hayabusa::accounts::checked_address::{CheckedAddress, CheckedAddressMeta};
use hayabusa::accounts::mutable::Mut;
use hayabusa::accounts::program::{Program, System};
use hayabusa::accounts::signer::Signer;
use hayabusa::accounts::system_account::SystemAccount;
use hayabusa::accounts::unchecked_account::UncheckedAccount;
use hayabusa::accounts::zc_account::ZcAccount;
use hayabusa::accounts::{find_account, FromAccountInfo, Key, NoMeta, ProgramId, ToAccountInfo};
use hayabusa::address::{address_eq, Address, SYSTEM_PROGRAM_ID};
use hayabusa::discriminator::Discriminator;
use hayabusa::errors::ErrorCode;
use hayabusa::fields::read_u64;
use hayabusa::ser::InitAccounts;
use hayabusa::token::Token;
use hayabusa::token2022::Token2022;
use hayabusa::utility::{Len, OwnerProgram};

const PROGRAM: Address = [7u8; 32];
const TAG: [u8; 8] = [1, 2, 3, 4, 5, 6, 7, 8];

#[derive(Debug)]
struct Counter;

impl Discriminator for Counter {
    const DISCRIMINATOR: [u8; 8] = TAG;
}

impl Len for Counter {
    const DISCRIMINATED_LEN: usize = 16;
}

impl OwnerProgram for Counter {
    const OWNER: Address = PROGRAM;
}

fn account(address: u8, owner: Address, signer: bool, writable: bool) -> AccountInfo {
    AccountInfo::new([address; 32], owner, 10, Vec::new(), signer, writable, false)
}

fn counter_account(address: u8, count: u64) -> AccountInfo {
    let mut data = TAG.to_vec();
    data.extend_from_slice(&count.to_le_bytes());
    AccountInfo::new([address; 32], PROGRAM, 10, data, false, true, false)
}

#[test]
fn unchecked_takes_any_record() {
    for (signer, writable) in [(false, false), (true, false), (false, true), (true, true)] {
        let info = account(5, [8u8; 32], signer, writable);
        let wrapped = UncheckedAccount::try_from_account_info(&info, NoMeta).unwrap();
        assert_eq!(wrapped.key(), &[5u8; 32]);
    }
}

#[test]
fn signer_needs_the_signer_flag() {
    let signed = account(1, SYSTEM_PROGRAM_ID, true, false);
    let unsigned = account(1, SYSTEM_PROGRAM_ID, false, true);
    assert_eq!(Signer::try_from_account_info(&signed, NoMeta).unwrap().key(), &[1u8; 32]);
    assert_eq!(
        Signer::try_from_account_info(&unsigned, NoMeta).unwrap_err(),
        ErrorCode::MissingRequiredSignature
    );
}

#[test]
fn system_account_needs_the_system_owner() {
    let owned = account(1, SYSTEM_PROGRAM_ID, false, false);
    let foreign = account(1, PROGRAM, true, true);
    assert!(SystemAccount::try_from_account_info(&owned, NoMeta).is_ok());
    assert_eq!(
        SystemAccount::try_from_account_info(&foreign, NoMeta).unwrap_err(),
        ErrorCode::InvalidAccountOwner
    );
}

#[test]
fn program_needs_the_declared_owner_tag() {
    let system = account(1, SYSTEM_PROGRAM_ID, false, false);
    let token = account(2, hayabusa::token::ID, false, false);
    assert!(Program::<System>::try_from_account_info(&system, NoMeta).is_ok());
    assert_eq!(
        Program::<System>::try_from_account_info(&token, NoMeta).unwrap_err(),
        ErrorCode::InvalidAccountOwner
    );
    assert!(Program::<Token>::try_from_account_info(&token, NoMeta).is_ok());
    assert_eq!(
        Program::<Token2022>::try_from_account_info(&token, NoMeta).unwrap_err(),
        ErrorCode::InvalidAccountOwner
    );
}

#[test]
fn program_identifiers_are_the_published_ones() {
    let token = solana_address::Address::from_str_const(
        "TokenkegQfeZyiNwAJbNbGKPFXCWuBvf9Ss623VQ5DA",
    );
    let token2022 = solana_address::Address::from_str_const(
        "TokenzQdBNbLqP5VEhdkAS6EPFLC1PHnBqCXEpPxuEb",
    );
    let system = solana_address::Address::from_str_const("11111111111111111111111111111111");
    assert_eq!(Token::ID, token.to_bytes());
    assert_eq!(hayabusa::token::ID, token.to_bytes());
    assert_eq!(Token2022::ID, token2022.to_bytes());
    assert_eq!(hayabusa::token2022::ID, token2022.to_bytes());
    assert_eq!(System::ID, system.to_bytes());
    assert_eq!(SYSTEM_PROGRAM_ID, [0u8; 32]);
}

#[test]
fn checked_address_needs_the_expected_address() {
    let info = account(4, PROGRAM, false, false);
    let right = CheckedAddressMeta::new(&[4u8; 32]);
    let mut nearly = [4u8; 32];
    nearly[31] = 5;
    let wrong = CheckedAddressMeta::new(&nearly);
    assert!(CheckedAddress::<Counter>::try_from_account_info(&info, right).is_ok());
    assert_eq!(
        CheckedAddress::<Counter>::try_from_account_info(&info, wrong).unwrap_err(),
        ErrorCode::InvalidAccount
    );
}

#[test]
fn address_eq_compares_every_byte() {
    let base = [4u8; 32];
    assert!(address_eq(&base, &[4u8; 32]));
    for i in 0..32 {
        let mut other = base;
        other[i] = 0;
        assert!(!address_eq(&base, &other));
    }
}

#[test]
fn mutable_needs_the_writable_flag_and_the_inner_check() {
    let writable_signer = account(1, PROGRAM, true, true);
    let readonly_signer = account(1, PROGRAM, true, false);
    let writable_unsigned = account(1, PROGRAM, false, true);
    let wrapped = Mut::<Signer>::try_from_account_info(&writable_signer, NoMeta).unwrap();
    assert_eq!(wrapped.key(), &[1u8; 32]);
    assert_eq!(wrapped.inner().key(), &[1u8; 32]);
    assert_eq!(
        Mut::<Signer>::try_from_account_info(&readonly_signer, NoMeta).unwrap_err(),
        ErrorCode::InvalidAccount
    );
    assert_eq!(
        Mut::<Signer>::try_from_account_info(&writable_unsigned, NoMeta).unwrap_err(),
        ErrorCode::InvalidAccount
    );
    assert!(Mut::<UncheckedAccount>::try_from_account_info(&writable_unsigned, NoMeta).is_ok());
    assert_eq!(
        Mut::<CheckedAddress<Counter>>::try_from_account_info(
            &writable_unsigned,
            CheckedAddressMeta::new(&[2u8; 32])
        )
        .unwrap_err(),
        ErrorCode::InvalidAccount
    );
}

#[test]
fn construction_leaves_the_record_alone() {
    let info = counter_account(3, 77);
    let before = info.borrow_data_unchecked().to_vec();
    let _ = ZcAccount::<Counter>::try_from_account_info(&info, NoMeta).unwrap();
    let _ = Mut::<ZcAccount<Counter>>::try_from_account_info(&info, NoMeta).unwrap();
    let _ = Signer::try_from_account_info(&info, NoMeta);
    assert_eq!(info.borrow_data_unchecked(), &before[..]);
    assert!(!info.is_borrowed());
}

#[test]
fn zc_account_decodes_its_own_record_only() {
    let mut mine = counter_account(3, 77);
    let mut other = counter_account(4, 5);
    let wrapped = ZcAccount::<Counter>::try_from_account_info(&mine, NoMeta).unwrap();
    let view = wrapped.try_deserialize_zc(&mut mine).unwrap();
    assert_eq!(read_u64(view.as_bytes(), 0), Some(77));
    view.release(&mut mine);
    assert_eq!(wrapped.try_deserialize_zc(&mut other).unwrap_err(), ErrorCode::InvalidAccount);
    assert_eq!(
        wrapped.try_deserialize_zc_mut(&mut other).unwrap_err(),
        ErrorCode::InvalidAccount
    );
    assert!(!other.is_borrowed());
    let mut view = wrapped.try_deserialize_zc_mut(&mut mine).unwrap();
    assert!(view.write(0, &78u64.to_le_bytes()));
    view.commit(&mut mine).unwrap();
    assert_eq!(read_u64(mine.borrow_data_unchecked(), 8), Some(78));
}

#[test]
fn zc_account_initializes_its_own_record_only() {
    let mut mine = account(3, SYSTEM_PROGRAM_ID, true, true);
    let mut other = account(4, SYSTEM_PROGRAM_ID, true, true);
    let payer = account(9, SYSTEM_PROGRAM_ID, true, true);
    let system = AccountInfo::new(SYSTEM_PROGRAM_ID, [0xeeu8; 32], 1, Vec::new(), false, false, true);
    let wrapped = ZcAccount::<Counter>::try_from_account_info(&mine, NoMeta).unwrap();
    assert_eq!(
        wrapped
            .try_initialize_zc(&mut other, InitAccounts::new(&PROGRAM, &payer, &system), None)
            .unwrap_err(),
        ErrorCode::InvalidAccount
    );
    assert_eq!(other.data_len(), 0);
    let view = wrapped
        .try_initialize_zc(&mut mine, InitAccounts::new(&PROGRAM, &payer, &system), None)
        .unwrap();
    assert_eq!(view.as_bytes(), &[0u8; 8]);
    assert_eq!(mine.data_len(), 16);
}

#[test]
fn checked_address_forwards_every_decode() {
    let mut mine = counter_account(3, 12);
    let mut other = counter_account(4, 12);
    let wrapped =
        CheckedAddress::<Counter>::try_from_account_info(&mine, CheckedAddressMeta::new(&[3u8; 32]))
            .unwrap();
    let a = wrapped.try_deserialize(&mut mine).unwrap();
    let b = wrapped.try_deserialize_raw(&mut mine).unwrap();
    let c = wrapped.try_deserialize_unchecked(&mine).unwrap();
    assert_eq!(a.as_bytes(), &12u64.to_le_bytes());
    assert_eq!(b.as_bytes(), &12u64.to_le_bytes());
    assert_eq!(c.as_bytes(), &12u64.to_le_bytes());
    assert!(a.is_guarded() && b.is_guarded() && !c.is_guarded());
    assert_eq!(
        wrapped.try_deserialize_mut(&mut mine).unwrap_err(),
        ErrorCode::AccountBorrowFailed
    );
    assert_eq!(
        wrapped.try_deserialize_mut_raw(&mut mine).unwrap_err(),
        ErrorCode::AccountBorrowFailed
    );
    let d = wrapped.try_deserialize_raw_unchecked_mut(&mine).unwrap();
    assert!(!d.is_guarded());
    a.release(&mut mine);
    b.release(&mut mine);
    let e = wrapped.try_deserialize_mut(&mut mine).unwrap();
    e.commit(&mut mine).unwrap();
    let f = wrapped.try_deserialize_mut_raw(&mut mine).unwrap();
    f.commit(&mut mine).unwrap();
    assert!(!mine.is_borrowed());

    assert_eq!(wrapped.try_deserialize(&mut other).unwrap_err(), ErrorCode::InvalidAccount);
    assert_eq!(wrapped.try_deserialize_raw(&mut other).unwrap_err(), ErrorCode::InvalidAccount);
    assert_eq!(wrapped.try_deserialize_unchecked(&other).unwrap_err(), ErrorCode::InvalidAccount);
    assert_eq!(wrapped.try_deserialize_mut(&mut other).unwrap_err(), ErrorCode::InvalidAccount);
    assert_eq!(
        wrapped.try_deserialize_mut_raw(&mut other).unwrap_err(),
        ErrorCode::InvalidAccount
    );
    assert_eq!(
        wrapped.try_deserialize_raw_unchecked_mut(&other).unwrap_err(),
        ErrorCode::InvalidAccount
    );
}

#[test]
fn wrappers_find_their_record_in_the_list() {
    let list = vec![
        account(1, PROGRAM, true, false),
        account(2, PROGRAM, false, true),
        account(1, SYSTEM_PROGRAM_ID, false, false),
    ];
    let first = Signer::try_from_account_info(&list[0], NoMeta).unwrap();
    let found = first.to_account_info(&list).unwrap();
    assert!(found.is_signer());
    assert_eq!(found.owner(), &PROGRAM);
    assert_eq!(find_account(&list, &[1u8; 32]), Some(0));
    assert_eq!(find_account(&list, &[2u8; 32]), Some(1));
    assert_eq!(find_account(&list, &[3u8; 32]), None);
    assert_eq!(find_account(&[], &[1u8; 32]), None);
    let stray = UncheckedAccount::try_from_account_info(&account(8, PROGRAM, false, false), NoMeta)
        .unwrap();
    assert!(stray.to_account_info(&list).is_none());
}
