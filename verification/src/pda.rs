use vstd::prelude::*;
use vstd::slice::slice_to_vec;
use crate::address::{address_eq, Address};
use crate::errors::{ErrorCode, Result};

verus! {

/// The address that the host derives for a program from a list of seeds, or
/// `None` where the seeds give no valid derived address. It is a one-way
/// function of the seeds and the program identifier alone.
pub uninterp spec fn program_address(seeds: Seq<Seq<u8>>, program_id: Seq<u8>) -> Option<Seq<u8>>;

/// The seeds of a list, each as the bytes it holds.
pub open spec fn seeds_view(seeds: Seq<Vec<u8>>) -> Seq<Seq<u8>> {
    Seq::new(seeds.len(), |i: int| seeds[i]@)
}

/// An address that may be missing, as the bytes it holds.
pub open spec fn address_view(address: Option<Address>) -> Option<Seq<u8>> {
    match address {
        Some(a) => Some(a@),
        None => None,
    }
}

/// Calls `solana_address::Address::create_program_address` on the seeds and
/// the program identifier. The contract claims that what comes back is the
/// derived address of exactly these seeds and this program, and that every
/// refusal of the outside function (too many seeds, a seed that is too long,
/// a hash that lies on the curve) comes back as `None`.
#[verifier::external_body]
fn create_program_address(seeds: &Vec<Vec<u8>>, program_id: &Address) -> (derived: Option<Address>)
    ensures
        address_view(derived) == program_address(seeds_view(seeds@), program_id@),
{
    let parts: Vec<&[u8]> = seeds.iter().map(|seed| seed.as_slice()).collect();
    let program = solana_address::Address::new_from_array(*program_id);
    match solana_address::Address::create_program_address(&parts, &program) {
        Ok(address) => Some(address.to_bytes()),
        Err(_) => None,
    }
}

/// The seeds with the bump byte as one more seed behind them.
pub open spec fn with_bump(seeds: Seq<Seq<u8>>, bump: u8) -> Seq<Seq<u8>> {
    seeds.push(seq![bump])
}

/// The address derived for `program_id` from the seeds and the bump byte.
pub fn derive_address(seeds: &Vec<Vec<u8>>, bump: u8, program_id: &Address) -> (derived: Option<
    Address,
>)
    ensures
        address_view(derived) == program_address(
            with_bump(seeds_view(seeds@), bump),
            program_id@,
        ),
{
    let mut all: Vec<Vec<u8>> = Vec::new();
    let mut i: usize = 0;
    while i < seeds.len()
        invariant
            i <= seeds.len(),
            all@.len() == i,
            forall|k: int| 0 <= k < i ==> all@[k]@ == seeds@[k]@,
        decreases seeds.len() - i,
    {
        all.push(slice_to_vec(seeds[i].as_slice()));
        i += 1;
    }
    let mut last: Vec<u8> = Vec::new();
    last.push(bump);
    all.push(last);
    proof {
        assert(all@[seeds@.len() as int]@ =~= seq![bump]);
        assert(seeds_view(all@) =~= with_bump(seeds_view(seeds@), bump));
    }
    create_program_address(&all, program_id)
}

/// What the comparison of a derived address with a record's address gives:
/// only the very address passes.
pub open spec fn derivation_verdict(derived: Option<Seq<u8>>, address: Seq<u8>) -> Result<()> {
    if derived == Some(address) {
        Ok(())
    } else {
        Err(ErrorCode::InvalidAccount)
    }
}

/// Holds a derived address against the address of a record.
pub fn check_derived_address(derived: &Option<Address>, address: &Address) -> (r: Result<()>)
    ensures
        r == derivation_verdict(address_view(*derived), address@),
{
    match derived {
        Some(found) => {
            if address_eq(found, address) {
                Ok(())
            } else {
                Err(ErrorCode::InvalidAccount)
            }
        },
        None => Err(ErrorCode::InvalidAccount),
    }
}

/// Derives the address anew from seeds, bump byte and program, and accepts
/// `address` only if it is the address derived.
pub fn verify_derived_address(
    address: &Address,
    seeds: &Vec<Vec<u8>>,
    bump: u8,
    program_id: &Address,
) -> (r: Result<()>)
    ensures
        r == derivation_verdict(
            program_address(with_bump(seeds_view(seeds@), bump), program_id@),
            address@,
        ),
{
    let derived = derive_address(seeds, bump, program_id);
    check_derived_address(&derived, address)
}

/// Only the triple that reproduces an address passes for it: where two
/// triples of seeds, bump byte and program derive different addresses, or one
/// of them none, at most one of them passes for a given address.
pub proof fn lemma_only_the_deriving_triple_passes(
    address: Seq<u8>,
    seeds: Seq<Seq<u8>>,
    bump: u8,
    program_id: Seq<u8>,
    other_seeds: Seq<Seq<u8>>,
    other_bump: u8,
    other_program_id: Seq<u8>,
)
    requires
        program_address(with_bump(seeds, bump), program_id) != program_address(
            with_bump(other_seeds, other_bump),
            other_program_id,
        ),
    ensures
        !(derivation_verdict(program_address(with_bump(seeds, bump), program_id), address) is Ok
            && derivation_verdict(
            program_address(with_bump(other_seeds, other_bump), other_program_id),
            address,
        ) is Ok),
        derivation_verdict(program_address(with_bump(seeds, bump), program_id), address) is Ok
            <==> program_address(with_bump(seeds, bump), program_id) == Some(address),
{
}

} // verus!
