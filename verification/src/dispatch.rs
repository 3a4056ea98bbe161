use vstd::prelude::*;
use vstd::slice::slice_subrange;
use crate::decode_instruction::{
    accepts, fixed_total, has_bytes_field, spans_of, well_formed, DecodeIx, FieldKind, FieldSpan,
    IxLayout,
};
use crate::discriminator::{leading_tag, read_tag, Discriminator};
use crate::errors::{ErrorCode, Result};

verus! {

/// One entry of a dispatch table: the tag that selects a handler, and the
/// layout of the handler's parameters.
#[derive(Debug)]
pub struct Handler {
    pub discriminator: [u8; 8],
    pub layout: IxLayout,
}

/// Where a payload goes: the handler it selects, and the place of each of
/// the handler's parameters in the bytes behind the tag.
#[derive(Debug)]
pub struct Dispatched {
    /// The position of the handler in the table.
    pub handler: usize,
    /// The place of each parameter, in declaration order.
    pub fields: Vec<FieldSpan>,
}

/// What a payload holds behind its tag.
pub open spec fn parameters(ix_data: Seq<u8>) -> Seq<u8>
    recommends
        ix_data.len() >= 8,
{
    ix_data.subrange(8, ix_data.len() as int)
}

/// Whether no handler among the first `n` has the tag.
pub open spec fn no_match_before(table: Seq<Handler>, tag: Seq<u8>, n: int) -> bool {
    forall|i: int| 0 <= i < n && i < table.len() ==> (#[trigger] table[i]).discriminator@ != tag
}

/// Whether handler `i` is the first of the table that has the tag.
pub open spec fn is_first_match(table: Seq<Handler>, tag: Seq<u8>, i: int) -> bool {
    &&& 0 <= i < table.len()
    &&& table[i].discriminator@ == tag
    &&& no_match_before(table, tag, i)
}

/// Whether the payload selects a handler of the table: it is long enough to
/// have a tag, and some handler has that tag.
pub open spec fn selects(table: Seq<Handler>, ix_data: Seq<u8>) -> bool {
    ix_data.len() >= 8 && exists|i: int| is_first_match(table, leading_tag(ix_data), i)
}

/// Whether two tags are the same.
fn tag_eq(a: &[u8; 8], b: &[u8; 8]) -> (equal: bool)
    ensures
        equal == (a@ == b@),
{
    let mut i: usize = 0;
    while i < 8
        invariant
            i <= 8,
            forall|j: int| 0 <= j < i ==> a[j] == b[j],
        decreases 8 - i,
    {
        if a[i] != b[i] {
            return false;
        }
        i += 1;
    }
    assert(a@ =~= b@);
    true
}

/// Routes a payload. A payload too short for a tag, or with a tag that no
/// handler has, is an unknown instruction. Otherwise the first handler with
/// the tag is selected, and the bytes behind the tag are held against its
/// layout: they are invalid instruction data where their length does not
/// fit.
pub fn dispatch(table: &[Handler], ix_data: &[u8]) -> (r: Result<Dispatched>)
    ensures
        match r {
            Ok(route) => {
                &&& ix_data@.len() >= 8
                &&& is_first_match(table@, leading_tag(ix_data@), route.handler as int)
                &&& accepts(table@[route.handler as int].layout@, parameters(ix_data@).len())
                &&& route.fields@ == spans_of(
                    table@[route.handler as int].layout@,
                    parameters(ix_data@).len(),
                )
            },
            Err(e) => if !selects(table@, ix_data@) {
                e == ErrorCode::UnknownInstruction
            } else {
                &&& e == ErrorCode::InvalidInstructionData
                &&& forall|i: int|
                    is_first_match(table@, leading_tag(ix_data@), i) ==> !accepts(
                        table@[i].layout@,
                        parameters(ix_data@).len(),
                    )
            },
        },
{
    if ix_data.len() < 8 {
        return Err(ErrorCode::UnknownInstruction);
    }
    let tag = read_tag(ix_data);
    let rest = slice_subrange(ix_data, 8, ix_data.len());
    let mut i: usize = 0;
    while i < table.len()
        invariant
            i <= table.len(),
            ix_data@.len() >= 8,
            tag@ == leading_tag(ix_data@),
            rest@ == parameters(ix_data@),
            no_match_before(table@, tag@, i as int),
        decreases table.len() - i,
    {
        if tag_eq(&table[i].discriminator, &tag) {
            assert(is_first_match(table@, tag@, i as int));
            proof {
                assert forall|j: int| is_first_match(table@, tag@, j) implies j == i by {
                    if j < i {
                        assert(table@[j].discriminator@ != tag@);
                    }
                    if i < j {
                        assert(table@[i as int].discriminator@ != tag@);
                    }
                }
            }
            return match table[i].layout.decode(rest) {
                Ok(fields) => Ok(Dispatched { handler: i, fields }),
                Err(e) => Err(e),
            };
        }
        i += 1;
    }
    proof {
        assert forall|j: int| !is_first_match(table@, tag@, j) by {
            if 0 <= j < table@.len() {
                assert(table@[j].discriminator@ != tag@);
            }
        }
    }
    Err(ErrorCode::UnknownInstruction)
}

/// What holding one payload against one typed handler gives.
pub enum Routed<T> {
    /// The payload has another tag than the handler.
    Elsewhere,
    /// The payload has the handler's tag, and its parameters were read.
    Here(T),
}

/// Holds a payload against the handler `T`. A payload too short for a tag
/// is an unknown instruction; one with another tag goes elsewhere; one with
/// the handler's tag is read by `T`, and whatever `T` objects to is invalid
/// instruction data.
pub fn route<T: Discriminator + DecodeIx>(ix_data: &[u8]) -> (r: Result<Routed<T>>)
    ensures
        match r {
            Ok(Routed::Elsewhere) => ix_data@.len() >= 8 && leading_tag(ix_data@)
                != T::DISCRIMINATOR@,
            Ok(Routed::Here(ix)) => ix_data@.len() >= 8 && leading_tag(ix_data@)
                == T::DISCRIMINATOR@ && exists|bytes: &[u8]|
                bytes@ == parameters(ix_data@) && call_ensures(
                    T::decode,
                    (bytes,),
                    Ok::<T, ErrorCode>(ix),
                ),
            Err(e) => if ix_data@.len() < 8 {
                e == ErrorCode::UnknownInstruction
            } else {
                leading_tag(ix_data@) == T::DISCRIMINATOR@ && e
                    == ErrorCode::InvalidInstructionData && exists|bytes: &[u8], fault: ErrorCode|
                    bytes@ == parameters(ix_data@) && call_ensures(
                        T::decode,
                        (bytes,),
                        Err::<T, ErrorCode>(fault),
                    )
            },
        },
{
    if ix_data.len() < 8 {
        return Err(ErrorCode::UnknownInstruction);
    }
    let tag = read_tag(ix_data);
    let declared = T::DISCRIMINATOR;
    if !tag_eq(&tag, &declared) {
        return Ok(Routed::Elsewhere);
    }
    let rest = slice_subrange(ix_data, 8, ix_data.len());
    match T::decode(rest) {
        Ok(ix) => Ok(Routed::Here(ix)),
        Err(fault) => {
            assert(rest@ == parameters(ix_data@) && call_ensures(
                T::decode,
                (rest,),
                Err::<T, ErrorCode>(fault),
            ));
            Err(ErrorCode::InvalidInstructionData)
        },
    }
}

/// How a payload fares with a handler whose layout is `fields`, once the
/// handler is selected: parameters of the wrong length are refused where
/// every field is fixed, and every length from the fixed total on is taken
/// where a byte-string field is declared.
pub proof fn lemma_length_rule(fields: Seq<FieldKind>, len: nat)
    requires
        well_formed(fields),
    ensures
        !has_bytes_field(fields) ==> (accepts(fields, len) <==> len
            == fixed_total(fields)),
        has_bytes_field(fields) ==> (accepts(fields, len) <==> len
            >= fixed_total(fields)),
{
}

} // verus!
