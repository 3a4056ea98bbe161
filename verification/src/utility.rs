use vstd::prelude::*;
use vstd::slice::slice_subrange;
use vstd::std_specs::maybe_uninit::MaybeUninitAdditionalSpecFns;
use core::mem::MaybeUninit;
use crate::address::Address;
use crate::errors::{ErrorCode, Result};

verus! {

/// The length of the type tag that opens a typed buffer and an instruction
/// payload.
pub const DISCRIMINATOR_LEN: usize = 8;

/// A record type of fixed size.
pub trait Len: Sized {
    /// The length of a buffer that holds one value of the type: the tag, then
    /// the fields in declaration order with no padding between them.
    const DISCRIMINATED_LEN: usize;
}

/// A record type whose buffers belong to one program.
pub trait OwnerProgram {
    /// The program that controls every record of the type.
    const OWNER: Address;

    fn owner() -> (owner: Address)
        ensures
            owner@ == Self::OWNER@,
    {
        Self::OWNER
    }
}

/// `data` with `bytes` written over it from `offset` on.
pub open spec fn spliced(data: Seq<u8>, offset: int, bytes: Seq<u8>) -> Seq<u8>
    recommends
        0 <= offset,
        offset + bytes.len() <= data.len(),
{
    data.subrange(0, offset) + bytes + data.subrange(offset + bytes.len(), data.len() as int)
}

/// Writes `source` over `destination` from `offset` on.
pub fn splice_bytes(destination: &mut Vec<u8>, offset: usize, source: &[u8])
    requires
        offset + source@.len() <= old(destination)@.len(),
    ensures
        final(destination)@ == spliced(old(destination)@, offset as int, source@),
{
    let n = source.len();
    let mut i: usize = 0;
    while i < n
        invariant
            i <= n,
            n == source@.len(),
            offset + n <= destination.len(),
            destination@.len() == old(destination)@.len(),
            forall|j: int| 0 <= j < offset ==> destination@[j] == old(destination)@[j],
            forall|j: int| 0 <= j < i ==> destination@[offset + j] == source@[j],
            forall|j: int|
                offset + i <= j < destination@.len() ==> destination@[j] == old(destination)@[j],
        decreases n - i,
    {
        destination[offset + i] = source[i];
        i += 1;
    }
    assert(destination@ =~= spliced(old(destination)@, offset as int, source@));
}

/// Splits `data` after its first `n` bytes.
pub fn take_bytes(data: &[u8], n: usize) -> (r: Result<(&[u8], &[u8])>)
    ensures
        match r {
            Ok((head, tail)) => n <= data@.len() && head@ == data@.subrange(0, n as int) && tail@
                == data@.subrange(n as int, data@.len() as int),
            Err(e) => data@.len() < n && e == ErrorCode::InvalidInstructionData,
        },
{
    if data.len() < n {
        return Err(ErrorCode::InvalidInstructionData);
    }
    Ok((slice_subrange(data, 0, n), slice_subrange(data, n, data.len())))
}

/// Copies `source` into the front of `destination`, as far as both reach.
/// What lies behind the copied part keeps its state.
pub fn write_uninit_bytes(destination: &mut [MaybeUninit<u8>], source: &[u8])
    ensures
        final(destination)@.len() == old(destination)@.len(),
        forall|i: int|
            0 <= i < old(destination)@.len() && i < source@.len() ==> (#[trigger] final(destination)@[i]).as_option() == Some(source@[i]),
        forall|i: int|
            source@.len() <= i < old(destination)@.len() ==> #[trigger] final(destination)@[i]
                == old(destination)@[i],
{
    let n = if destination.len() < source.len() {
        destination.len()
    } else {
        source.len()
    };
    let mut i: usize = 0;
    while i < n
        invariant
            i <= n,
            n <= destination@.len(),
            n <= source@.len(),
            destination@.len() == old(destination)@.len(),
            forall|j: int|
                0 <= j < i ==> (#[trigger] destination@[j]).as_option() == Some(source@[j]),
            forall|j: int|
                i <= j < destination@.len() ==> #[trigger] destination@[j] == old(destination)@[j],
        decreases n - i,
    {
        destination[i] = MaybeUninit::new(source[i]);
        i += 1;
    }
}

} // verus!
