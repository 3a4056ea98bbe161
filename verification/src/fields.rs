use vstd::prelude::*;
use vstd::bytes::{
    spec_u16_from_le_bytes, spec_u16_to_le_bytes, spec_u32_from_le_bytes, spec_u32_to_le_bytes,
    spec_u64_from_le_bytes, spec_u64_to_le_bytes, u16_from_le_bytes, u16_to_le_bytes,
    u32_from_le_bytes, u32_to_le_bytes, u64_from_le_bytes, u64_to_le_bytes,
};
use vstd::slice::slice_subrange;
use crate::utility::{splice_bytes, spliced};

verus! {

/// The `width` bytes of `bytes` that start at `offset`.
pub open spec fn field_bytes(bytes: Seq<u8>, offset: int, width: int) -> Seq<u8>
    recommends
        0 <= offset,
        0 <= width,
        offset + width <= bytes.len(),
{
    bytes.subrange(offset, offset + width)
}

/// Whether a field of `width` bytes at `offset` lies within `len` bytes.
pub open spec fn field_fits(len: nat, offset: int, width: int) -> bool {
    0 <= offset && offset + width <= len
}

/// The window of `width` bytes at `offset`, if `bytes` reaches that far.
pub fn field_at(bytes: &[u8], offset: usize, width: usize) -> (r: Option<&[u8]>)
    ensures
        match r {
            Some(window) => field_fits(bytes@.len(), offset as int, width as int) && window@
                == field_bytes(bytes@, offset as int, width as int),
            None => !field_fits(bytes@.len(), offset as int, width as int),
        },
{
    if offset > bytes.len() || width > bytes.len() - offset {
        return None;
    }
    Some(slice_subrange(bytes, offset, offset + width))
}

/// The byte at `offset`.
pub fn read_u8(bytes: &[u8], offset: usize) -> (r: Option<u8>)
    ensures
        match r {
            Some(value) => field_fits(bytes@.len(), offset as int, 1) && value == bytes@[offset as int],
            None => !field_fits(bytes@.len(), offset as int, 1),
        },
{
    if offset < bytes.len() {
        Some(bytes[offset])
    } else {
        None
    }
}

/// The two-byte little-endian number at `offset`, read without regard to
/// alignment.
pub fn read_u16(bytes: &[u8], offset: usize) -> (r: Option<u16>)
    ensures
        match r {
            Some(value) => field_fits(bytes@.len(), offset as int, 2) && value
                == spec_u16_from_le_bytes(field_bytes(bytes@, offset as int, 2)),
            None => !field_fits(bytes@.len(), offset as int, 2),
        },
{
    match field_at(bytes, offset, 2) {
        Some(window) => Some(u16_from_le_bytes(window)),
        None => None,
    }
}

/// The four-byte little-endian number at `offset`, read without regard to
/// alignment.
pub fn read_u32(bytes: &[u8], offset: usize) -> (r: Option<u32>)
    ensures
        match r {
            Some(value) => field_fits(bytes@.len(), offset as int, 4) && value
                == spec_u32_from_le_bytes(field_bytes(bytes@, offset as int, 4)),
            None => !field_fits(bytes@.len(), offset as int, 4),
        },
{
    match field_at(bytes, offset, 4) {
        Some(window) => Some(u32_from_le_bytes(window)),
        None => None,
    }
}

/// The eight-byte little-endian number at `offset`, read without regard to
/// alignment.
pub fn read_u64(bytes: &[u8], offset: usize) -> (r: Option<u64>)
    ensures
        match r {
            Some(value) => field_fits(bytes@.len(), offset as int, 8) && value
                == spec_u64_from_le_bytes(field_bytes(bytes@, offset as int, 8)),
            None => !field_fits(bytes@.len(), offset as int, 8),
        },
{
    match field_at(bytes, offset, 8) {
        Some(window) => Some(u64_from_le_bytes(window)),
        None => None,
    }
}

/// Writes `source` over `bytes` from `offset` on, if it fits; says whether it
/// did.
pub fn write_field(bytes: &mut Vec<u8>, offset: usize, source: &[u8]) -> (written: bool)
    ensures
        written == field_fits(old(bytes)@.len(), offset as int, source@.len() as int),
        final(bytes)@ == (if written {
            spliced(old(bytes)@, offset as int, source@)
        } else {
            old(bytes)@
        }),
{
    if offset > bytes.len() || source.len() > bytes.len() - offset {
        return false;
    }
    splice_bytes(bytes, offset, source);
    true
}

/// Writes `value` as two little-endian bytes at `offset`, if they fit.
pub fn write_u16(bytes: &mut Vec<u8>, offset: usize, value: u16) -> (written: bool)
    ensures
        written == field_fits(old(bytes)@.len(), offset as int, 2),
        final(bytes)@ == (if written {
            spliced(old(bytes)@, offset as int, spec_u16_to_le_bytes(value))
        } else {
            old(bytes)@
        }),
{
    let encoded = u16_to_le_bytes(value);
    write_field(bytes, offset, encoded.as_slice())
}

/// Writes `value` as four little-endian bytes at `offset`, if they fit.
pub fn write_u32(bytes: &mut Vec<u8>, offset: usize, value: u32) -> (written: bool)
    ensures
        written == field_fits(old(bytes)@.len(), offset as int, 4),
        final(bytes)@ == (if written {
            spliced(old(bytes)@, offset as int, spec_u32_to_le_bytes(value))
        } else {
            old(bytes)@
        }),
{
    let encoded = u32_to_le_bytes(value);
    write_field(bytes, offset, encoded.as_slice())
}

/// Writes `value` as eight little-endian bytes at `offset`, if they fit.
pub fn write_u64(bytes: &mut Vec<u8>, offset: usize, value: u64) -> (written: bool)
    ensures
        written == field_fits(old(bytes)@.len(), offset as int, 8),
        final(bytes)@ == (if written {
            spliced(old(bytes)@, offset as int, spec_u64_to_le_bytes(value))
        } else {
            old(bytes)@
        }),
{
    let encoded = u64_to_le_bytes(value);
    write_field(bytes, offset, encoded.as_slice())
}

/// A number written at an offset is the number read there.
pub proof fn lemma_u64_write_then_read(bytes: Seq<u8>, offset: int, value: u64)
    requires
        field_fits(bytes.len(), offset, 8),
    ensures
        spec_u64_from_le_bytes(
            field_bytes(spliced(bytes, offset, spec_u64_to_le_bytes(value)), offset, 8),
        ) == value,
{
    vstd::bytes::lemma_auto_spec_u64_to_from_le_bytes();
    let encoded = spec_u64_to_le_bytes(value);
    assert(field_bytes(spliced(bytes, offset, encoded), offset, 8) =~= encoded);
}

} // verus!
