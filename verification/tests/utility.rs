use core::mem::MaybeUninit;
use hayabusa::errors::ErrorCode;
use hayabusa::fields::{
    field_at, read_u16, read_u32, read_u64, read_u8, write_field, write_u16, write_u32, write_u64,
};
use hayabusa::scaffold::{validate_crate_name, NameError};
use hayabusa::utility::{splice_bytes, take_bytes, write_uninit_bytes};

#[test]
fn take_bytes_splits_after_n() {
    let data = [1u8, 2, 3, 4, 5];
    assert_eq!(take_bytes(&data, 0), Ok((&[][..], &data[..])));
    assert_eq!(take_bytes(&data, 2), Ok((&[1u8, 2][..], &[3u8, 4, 5][..])));
    assert_eq!(take_bytes(&data, 5), Ok((&data[..], &[][..])));
    assert_eq!(take_bytes(&data, 6), Err(ErrorCode::InvalidInstructionData));
    assert_eq!(take_bytes(&[], 1), Err(ErrorCode::InvalidInstructionData));
    assert_eq!(take_bytes(&[], 0), Ok((&[][..], &[][..])));
}

#[test]
fn write_uninit_bytes_takes_every_pair_of_lengths() {
    for destination_len in 0..5usize {
        for source_len in 0..7usize {
            let mut destination = vec![MaybeUninit::<u8>::uninit(); destination_len];
            let source = vec![0x5au8; source_len];
            write_uninit_bytes(&mut destination, &source);
            assert_eq!(destination.len(), destination_len);
        }
    }
    let mut destination = [MaybeUninit::new(0xeeu8); 4];
    write_uninit_bytes(&mut destination[1..3], &[0, 0, 0]);
    assert_eq!(destination.len(), 4);
}

#[test]
fn splice_writes_over_the_middle() {
    let mut data = vec![0u8, 1, 2, 3, 4, 5];
    splice_bytes(&mut data, 2, &[9, 9]);
    assert_eq!(data, vec![0, 1, 9, 9, 4, 5]);
    splice_bytes(&mut data, 6, &[]);
    splice_bytes(&mut data, 0, &[7]);
    splice_bytes(&mut data, 5, &[8]);
    assert_eq!(data, vec![7, 1, 9, 9, 4, 8]);
}

#[test]
fn fields_are_read_little_endian_at_any_offset() {
    let bytes = [0x01u8, 0x02, 0x03, 0x04, 0x05, 0x06, 0x07, 0x08, 0x09];
    assert_eq!(read_u8(&bytes, 0), Some(1));
    assert_eq!(read_u8(&bytes, 8), Some(9));
    assert_eq!(read_u8(&bytes, 9), None);
    assert_eq!(read_u16(&bytes, 0), Some(0x0201));
    assert_eq!(read_u16(&bytes, 7), Some(0x0908));
    assert_eq!(read_u16(&bytes, 8), None);
    assert_eq!(read_u32(&bytes, 1), Some(0x05040302));
    assert_eq!(read_u32(&bytes, 5), Some(0x09080706));
    assert_eq!(read_u32(&bytes, 6), None);
    assert_eq!(read_u64(&bytes, 0), Some(0x0807060504030201));
    assert_eq!(read_u64(&bytes, 1), Some(0x0908070605040302));
    assert_eq!(read_u64(&bytes, 2), None);
    assert_eq!(read_u64(&bytes, usize::MAX), None);
    assert_eq!(read_u64(&[], 0), None);
    assert_eq!(field_at(&bytes, 3, 2), Some(&[4u8, 5][..]));
    assert_eq!(field_at(&bytes, 9, 0), Some(&[][..]));
    assert_eq!(field_at(&bytes, 10, 0), None);
    assert_eq!(field_at(&bytes, 1, usize::MAX), None);
}

#[test]
fn fields_are_written_little_endian_where_they_fit() {
    let mut bytes = vec![0u8; 10];
    assert!(write_u64(&mut bytes, 1, 0x0807060504030201));
    assert_eq!(bytes, vec![0, 1, 2, 3, 4, 5, 6, 7, 8, 0]);
    assert_eq!(read_u64(&bytes, 1), Some(0x0807060504030201));
    assert!(!write_u64(&mut bytes, 3, 0));
    assert!(write_u32(&mut bytes, 6, 0xaabbccdd));
    assert_eq!(bytes, vec![0, 1, 2, 3, 4, 5, 0xdd, 0xcc, 0xbb, 0xaa]);
    assert!(!write_u32(&mut bytes, 7, 0));
    assert!(write_u16(&mut bytes, 0, 0x1234));
    assert_eq!(&bytes[..2], &[0x34, 0x12]);
    assert!(!write_u16(&mut bytes, 9, 0));
    assert!(!write_field(&mut bytes, 11, &[]));
    assert!(write_field(&mut bytes, 10, &[]));
    assert!(!write_field(&mut bytes, usize::MAX, &[1]));
    assert_eq!(bytes, vec![0x34, 0x12, 2, 3, 4, 5, 0xdd, 0xcc, 0xbb, 0xaa]);
}

#[test]
fn error_codes_are_numbered_one_to_one() {
    let all = [
        ErrorCode::InvalidAccount,
        ErrorCode::InvalidAccountOwner,
        ErrorCode::InvalidAccountData,
        ErrorCode::IncorrectProgramId,
        ErrorCode::InvalidInstructionData,
        ErrorCode::UnknownInstruction,
        ErrorCode::MissingRequiredSignature,
        ErrorCode::AccountBorrowFailed,
    ];
    for (i, error) in all.iter().enumerate() {
        assert_eq!(error.code(), i as u32);
        assert_eq!(ErrorCode::try_from_code(i as u32), Some(*error));
        assert!(!error.to_str().is_empty());
    }
    assert_eq!(ErrorCode::try_from_code(8), None);
    assert_eq!(ErrorCode::try_from_code(u32::MAX), None);
    assert_eq!(ErrorCode::UnknownInstruction.to_str(), "unknown instruction");
    assert_eq!(ErrorCode::InvalidAccountOwner.to_str(), "invalid account owner");
}

#[test]
fn crate_names_are_lower_case_words() {
    assert_eq!(validate_crate_name("counter-program"), Ok(()));
    assert_eq!(validate_crate_name("a"), Ok(()));
    assert_eq!(validate_crate_name("my_crate_2"), Ok(()));
    assert_eq!(validate_crate_name("0-9_az"), Ok(()));
    assert_eq!(validate_crate_name(""), Err(NameError::Empty));
    assert_eq!(validate_crate_name("Counter"), Err(NameError::InvalidCharacter));
    assert_eq!(validate_crate_name("counter program"), Err(NameError::InvalidCharacter));
    assert_eq!(validate_crate_name("counter.program"), Err(NameError::InvalidCharacter));
    assert_eq!(validate_crate_name("compteur-é"), Err(NameError::InvalidCharacter));
    assert_eq!(validate_crate_name("name{"), Err(NameError::InvalidCharacter));
    assert_eq!(validate_crate_name("`name"), Err(NameError::InvalidCharacter));
    assert_eq!(validate_crate_name("na/me"), Err(NameError::InvalidCharacter));
    assert_eq!(validate_crate_name("na:me"), Err(NameError::InvalidCharacter));
}
