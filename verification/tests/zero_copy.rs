use hayabusa::account_info::AccountInfo;
use hayabusa::address::{Address, SYSTEM_PROGRAM_ID};
use hayabusa::discriminator::{get_discriminator, get_discriminator_unchecked, Discriminator};
use hayabusa::errors::ErrorCode;
use hayabusa::fields::read_u64;
use hayabusa::ser::{
    try_deserialize_zc, try_deserialize_zc_mut, try_initialize_zc, FromBytesUnchecked,
    InitAccounts, RawZcDeserialize, RawZcDeserializeMut, RawZcDeserializeUnchecked,
    RawZcDeserializeUncheckedMut, ZcDeserialize, ZcDeserializeMut, ZcInitialize,
};
use hayabusa::utility::{Len, OwnerProgram};

const PROGRAM: Address = [7u8; 32];
const OTHER_PROGRAM: Address = [9u8; 32];
const COUNTER_ADDRESS: Address = [1u8; 32];
const PAYER_ADDRESS: Address = [2u8; 32];
const TAG: [u8; 8] = [187, 192, 81, 6, 110, 149, 93, 2];

#[derive(Debug, PartialEq)]
struct Counter {
    count: u64,
}

impl Discriminator for Counter {
    const DISCRIMINATOR: [u8; 8] = TAG;
}

impl Len for Counter {
    const DISCRIMINATED_LEN: usize = 16;
}

impl OwnerProgram for Counter {
    const OWNER: Address = PROGRAM;
}

impl FromBytesUnchecked for Counter {
    fn from_bytes_unchecked(bytes: &[u8]) -> Self {
        let mut raw = [0u8; 8];
        raw.copy_from_slice(&bytes[..8]);
        Counter { count: u64::from_le_bytes(raw) }
    }
}

#[derive(Debug)]
struct Stunted;

impl Discriminator for Stunted {
    const DISCRIMINATOR: [u8; 8] = TAG;
}

impl Len for Stunted {
    const DISCRIMINATED_LEN: usize = 5;
}

impl OwnerProgram for Stunted {
    const OWNER: Address = PROGRAM;
}

fn counter_data(count: u64) -> Vec<u8> {
    let mut data = TAG.to_vec();
    data.extend_from_slice(&count.to_le_bytes());
    data
}

fn record(owner: Address, data: Vec<u8>) -> AccountInfo {
    AccountInfo::new(COUNTER_ADDRESS, owner, 1_000, data, false, true, false)
}

fn empty_record() -> AccountInfo {
    AccountInfo::new(COUNTER_ADDRESS, SYSTEM_PROGRAM_ID, 0, Vec::new(), true, true, false)
}

fn payer() -> AccountInfo {
    AccountInfo::new(PAYER_ADDRESS, SYSTEM_PROGRAM_ID, 5_000, Vec::new(), true, true, false)
}

fn system_program() -> AccountInfo {
    AccountInfo::new(SYSTEM_PROGRAM_ID, [3u8; 32], 1, Vec::new(), false, false, true)
}

fn increment(account: &mut AccountInfo, by: u64) {
    let mut view = try_deserialize_zc_mut::<Counter>(account).unwrap();
    let count = read_u64(view.as_bytes(), 0).unwrap();
    assert!(view.write(0, &(count + by).to_le_bytes()));
    view.commit(account).unwrap();
}

#[test]
fn checked_decode_reads_the_value() {
    let mut account = record(PROGRAM, counter_data(41));
    let view = try_deserialize_zc::<Counter>(&mut account).unwrap();
    assert_eq!(view.as_bytes(), &41u64.to_le_bytes());
    assert_eq!(read_u64(view.as_bytes(), 0), Some(41));
    assert!(view.is_guarded());
    assert_eq!(view.get(), Counter { count: 41 });
    assert!(account.is_borrowed());
    assert!(!account.is_borrowed_mut());
    view.release(&mut account);
    assert!(!account.is_borrowed());
}

#[test]
fn wrong_owner_fails_every_decode() {
    for data in [counter_data(0), Vec::new(), vec![0u8; 15], vec![0xffu8; 16], vec![1u8; 40]] {
        let mut account = record(OTHER_PROGRAM, data.clone());
        assert_eq!(
            try_deserialize_zc::<Counter>(&mut account).unwrap_err(),
            ErrorCode::InvalidAccountOwner
        );
        assert_eq!(
            try_deserialize_zc_mut::<Counter>(&mut account).unwrap_err(),
            ErrorCode::InvalidAccountOwner
        );
        assert_eq!(
            Counter::try_deserialize_raw(&mut account).unwrap_err(),
            ErrorCode::InvalidAccountOwner
        );
        assert_eq!(
            Counter::try_deserialize_raw_mut(&mut account).unwrap_err(),
            ErrorCode::InvalidAccountOwner
        );
        assert_eq!(
            Counter::try_deserialize_raw_unchecked(&account).unwrap_err(),
            ErrorCode::InvalidAccountOwner
        );
        assert_eq!(
            Counter::try_deserialize_raw_unchecked_mut(&account).unwrap_err(),
            ErrorCode::InvalidAccountOwner
        );
        assert!(!account.is_borrowed());
        assert_eq!(account.borrow_data_unchecked(), &data[..]);
    }
}

#[test]
fn wrong_length_fails_with_invalid_data() {
    for len in [0usize, 7, 8, 15, 17, 32] {
        let mut account = record(PROGRAM, vec![0u8; len]);
        assert_eq!(
            try_deserialize_zc::<Counter>(&mut account).unwrap_err(),
            ErrorCode::InvalidAccountData
        );
        assert_eq!(
            try_deserialize_zc_mut::<Counter>(&mut account).unwrap_err(),
            ErrorCode::InvalidAccountData
        );
        assert_eq!(
            Counter::try_deserialize_raw(&mut account).unwrap_err(),
            ErrorCode::InvalidAccountData
        );
        assert_eq!(
            Counter::try_deserialize_raw_mut(&mut account).unwrap_err(),
            ErrorCode::InvalidAccountData
        );
        assert_eq!(
            Counter::try_deserialize_raw_unchecked(&account).unwrap_err(),
            ErrorCode::InvalidAccountData
        );
        assert!(!account.is_borrowed());
    }
}

#[test]
fn exact_length_succeeds() {
    let mut account = record(PROGRAM, counter_data(3));
    let view = Counter::try_deserialize_raw(&mut account).unwrap();
    assert_eq!(view.as_bytes().len(), 8);
    view.release(&mut account);
    let view = try_deserialize_zc::<Counter>(&mut account).unwrap();
    assert_eq!(view.as_bytes().len(), 8);
}

#[test]
fn wrong_tag_fails_checked_and_passes_raw() {
    let mut data = counter_data(9);
    data[0] ^= 1;
    let mut account = record(PROGRAM, data);
    assert_eq!(
        try_deserialize_zc::<Counter>(&mut account).unwrap_err(),
        ErrorCode::InvalidAccountData
    );
    assert_eq!(
        Counter::try_deserialize(&mut account).unwrap_err(),
        ErrorCode::InvalidAccountData
    );
    assert_eq!(
        Counter::try_deserialize_mut(&mut account).unwrap_err(),
        ErrorCode::InvalidAccountData
    );
    let view = Counter::try_deserialize_raw(&mut account).unwrap();
    assert_eq!(read_u64(view.as_bytes(), 0), Some(9));
}

#[test]
fn declared_length_without_room_for_the_tag_never_decodes() {
    let mut account = record(PROGRAM, vec![0u8; 5]);
    assert_eq!(
        try_deserialize_zc::<Stunted>(&mut account).unwrap_err(),
        ErrorCode::InvalidAccountData
    );
    assert_eq!(
        Stunted::try_deserialize_raw_unchecked(&account).unwrap_err(),
        ErrorCode::InvalidAccountData
    );
    let mut empty = empty_record();
    let (payer, system) = (payer(), system_program());
    let init = InitAccounts::new(&PROGRAM, &payer, &system);
    assert_eq!(
        try_initialize_zc::<Stunted>(&mut empty, init, None).unwrap_err(),
        ErrorCode::InvalidAccountData
    );
    assert_eq!(empty.data_len(), 0);
}

#[test]
fn mutable_view_excludes_every_other_guarded_view() {
    let mut account = record(PROGRAM, counter_data(1));
    let writer = try_deserialize_zc_mut::<Counter>(&mut account).unwrap();
    assert!(account.is_borrowed_mut());
    assert_eq!(
        try_deserialize_zc_mut::<Counter>(&mut account).unwrap_err(),
        ErrorCode::AccountBorrowFailed
    );
    assert_eq!(
        try_deserialize_zc::<Counter>(&mut account).unwrap_err(),
        ErrorCode::AccountBorrowFailed
    );
    assert_eq!(
        Counter::try_deserialize_raw(&mut account).unwrap_err(),
        ErrorCode::AccountBorrowFailed
    );
    assert_eq!(
        Counter::try_deserialize_raw_mut(&mut account).unwrap_err(),
        ErrorCode::AccountBorrowFailed
    );
    assert_eq!(get_discriminator(&account).unwrap_err(), ErrorCode::AccountBorrowFailed);
    writer.commit(&mut account).unwrap();
    assert!(!account.is_borrowed());
    assert!(try_deserialize_zc_mut::<Counter>(&mut account).is_ok());
}

#[test]
fn readers_share_and_exclude_the_writer() {
    let mut account = record(PROGRAM, counter_data(1));
    let first = try_deserialize_zc::<Counter>(&mut account).unwrap();
    let second = Counter::try_deserialize_raw(&mut account).unwrap();
    assert_eq!(
        try_deserialize_zc_mut::<Counter>(&mut account).unwrap_err(),
        ErrorCode::AccountBorrowFailed
    );
    assert_eq!(
        Counter::try_deserialize_raw_mut(&mut account).unwrap_err(),
        ErrorCode::AccountBorrowFailed
    );
    first.release(&mut account);
    assert_eq!(
        try_deserialize_zc_mut::<Counter>(&mut account).unwrap_err(),
        ErrorCode::AccountBorrowFailed
    );
    second.release(&mut account);
    assert!(try_deserialize_zc_mut::<Counter>(&mut account).is_ok());
}

#[test]
fn unchecked_views_pass_the_guard_by() {
    let mut account = record(PROGRAM, counter_data(6));
    let writer = try_deserialize_zc_mut::<Counter>(&mut account).unwrap();
    let reader = Counter::try_deserialize_raw_unchecked(&account).unwrap();
    assert!(!reader.is_guarded());
    assert_eq!(read_u64(reader.as_bytes(), 0), Some(6));
    let mut raw_writer = Counter::try_deserialize_raw_unchecked_mut(&account).unwrap();
    assert!(!raw_writer.is_guarded());
    assert!(raw_writer.write(0, &10u64.to_le_bytes()));
    raw_writer.commit(&mut account).unwrap();
    assert!(account.is_borrowed_mut());
    assert_eq!(account.borrow_data_unchecked(), &counter_data(10)[..]);
    reader.release(&mut account);
    assert!(account.is_borrowed_mut());
    writer.commit(&mut account).unwrap();
    assert!(!account.is_borrowed());
    assert_eq!(account.borrow_data_unchecked(), &counter_data(6)[..]);
}

#[test]
fn write_outside_the_value_is_refused() {
    let mut account = record(PROGRAM, counter_data(6));
    let mut view = try_deserialize_zc_mut::<Counter>(&mut account).unwrap();
    assert!(!view.write(1, &[0u8; 8]));
    assert!(!view.write(9, &[]));
    assert!(view.write(8, &[]));
    assert_eq!(view.as_bytes(), &6u64.to_le_bytes());
    assert!(view.write(7, &[0xaa]));
    assert_eq!(view.as_bytes(), &[6, 0, 0, 0, 0, 0, 0, 0xaa]);
}

#[test]
fn commit_to_a_record_of_another_shape_is_refused() {
    let mut account = record(PROGRAM, counter_data(6));
    let view = try_deserialize_zc_mut::<Counter>(&mut account).unwrap();
    let mut other = record(PROGRAM, vec![0u8; 20]);
    assert_eq!(view.commit(&mut other).unwrap_err(), ErrorCode::InvalidAccountData);
    assert_eq!(other.borrow_data_unchecked(), &[0u8; 20][..]);
    let view = Counter::try_deserialize_raw_unchecked_mut(&account).unwrap();
    account.release_borrow_mut();
    let guarded = try_deserialize_zc_mut::<Counter>(&mut account).unwrap();
    let mut unlocked = record(PROGRAM, counter_data(0));
    assert_eq!(guarded.commit(&mut unlocked).unwrap_err(), ErrorCode::AccountBorrowFailed);
    assert_eq!(unlocked.borrow_data_unchecked(), &counter_data(0)[..]);
    view.commit(&mut unlocked).unwrap();
    assert_eq!(unlocked.borrow_data_unchecked(), &counter_data(6)[..]);
}

#[test]
fn initialize_then_decode_yields_zero() {
    let mut account = empty_record();
    let (payer, system) = (payer(), system_program());
    let view =
        try_initialize_zc::<Counter>(&mut account, InitAccounts::new(&PROGRAM, &payer, &system), None)
            .unwrap();
    assert_eq!(view.as_bytes(), &[0u8; 8]);
    assert!(view.is_guarded());
    assert_eq!(account.data_len(), 16);
    assert_eq!(account.owner(), &PROGRAM);
    assert_eq!(account.borrow_data_unchecked(), &counter_data(0)[..]);
    assert!(account.is_borrowed_mut());
    view.commit(&mut account).unwrap();
    let view = try_deserialize_zc::<Counter>(&mut account).unwrap();
    assert_eq!(read_u64(view.as_bytes(), 0), Some(0));
    assert_eq!(view.get(), Counter { count: 0 });
}

#[test]
fn second_initialize_fails() {
    let mut account = empty_record();
    let (payer, system) = (payer(), system_program());
    let view =
        Counter::try_initialize(&mut account, InitAccounts::new(&PROGRAM, &payer, &system), None)
            .unwrap();
    assert_eq!(
        try_initialize_zc::<Counter>(&mut account, InitAccounts::new(&PROGRAM, &payer, &system), None)
            .unwrap_err(),
        ErrorCode::InvalidAccountData
    );
    view.commit(&mut account).unwrap();
    assert_eq!(
        try_initialize_zc::<Counter>(&mut account, InitAccounts::new(&PROGRAM, &payer, &system), None)
            .unwrap_err(),
        ErrorCode::InvalidAccountData
    );
    assert_eq!(account.borrow_data_unchecked(), &counter_data(0)[..]);
}

#[test]
fn initialize_needs_the_system_program() {
    let mut account = empty_record();
    let payer = payer();
    let not_system = AccountInfo::new([4u8; 32], [3u8; 32], 1, Vec::new(), false, false, true);
    assert_eq!(
        try_initialize_zc::<Counter>(
            &mut account,
            InitAccounts::new(&PROGRAM, &payer, &not_system),
            None
        )
        .unwrap_err(),
        ErrorCode::IncorrectProgramId
    );
    assert_eq!(account.data_len(), 0);
    assert_eq!(account.owner(), &SYSTEM_PROGRAM_ID);
}

#[test]
fn initialize_of_a_borrowed_record_fails_before_any_change() {
    let mut account = empty_record();
    account.try_borrow().unwrap();
    let (payer, system) = (payer(), system_program());
    assert_eq!(
        try_initialize_zc::<Counter>(&mut account, InitAccounts::new(&PROGRAM, &payer, &system), None)
            .unwrap_err(),
        ErrorCode::AccountBorrowFailed
    );
    assert_eq!(account.data_len(), 0);
    assert_eq!(account.owner(), &SYSTEM_PROGRAM_ID);
}

#[test]
fn counter_end_to_end() {
    let mut account = empty_record();
    let (payer, system) = (payer(), system_program());
    let view =
        try_initialize_zc::<Counter>(&mut account, InitAccounts::new(&PROGRAM, &payer, &system), None)
            .unwrap();
    view.commit(&mut account).unwrap();
    assert_eq!(account.address(), &COUNTER_ADDRESS);
    assert_eq!(account.data_len(), 16);
    assert_eq!(account.owner(), &PROGRAM);
    assert_eq!(read_u64(account.borrow_data_unchecked(), 8), Some(0));

    increment(&mut account, 5);
    increment(&mut account, 3);
    let view = try_deserialize_zc::<Counter>(&mut account).unwrap();
    assert_eq!(view.get(), Counter { count: 8 });
    view.release(&mut account);
    assert_eq!(account.borrow_data_unchecked(), &counter_data(8)[..]);

    let mut stolen = record(OTHER_PROGRAM, counter_data(8));
    assert_eq!(
        try_deserialize_zc::<Counter>(&mut stolen).unwrap_err(),
        ErrorCode::InvalidAccountOwner
    );
    let mut short = record(PROGRAM, counter_data(8)[..15].to_vec());
    assert_eq!(
        try_deserialize_zc::<Counter>(&mut short).unwrap_err(),
        ErrorCode::InvalidAccountData
    );
}

#[test]
fn discriminator_is_read_from_the_front() {
    let account = record(PROGRAM, counter_data(0));
    assert_eq!(get_discriminator(&account), Ok(TAG));
    assert_eq!(get_discriminator_unchecked(&account), TAG);
    let short = record(PROGRAM, vec![1, 2, 3, 4, 5, 6, 7]);
    assert_eq!(get_discriminator(&short), Err(ErrorCode::InvalidAccountData));
    let exact = record(PROGRAM, vec![1, 2, 3, 4, 5, 6, 7, 8]);
    assert_eq!(get_discriminator(&exact), Ok([1, 2, 3, 4, 5, 6, 7, 8]));
    let mut shared = record(PROGRAM, counter_data(0));
    shared.try_borrow().unwrap();
    assert_eq!(get_discriminator(&shared), Ok(TAG));
}

#[test]
fn owner_is_the_declared_constant() {
    assert_eq!(Counter::owner(), PROGRAM);
}
