use vstd::prelude::*;

verus! {

/// The fixed-width identifier of a record or of a program.
pub type Address = [u8; 32];

/// The identifier of the system program, which owns every record that no
/// program has claimed yet.
pub const SYSTEM_PROGRAM_ID: Address = [
    0, 0, 0, 0, 0, 0, 0, 0, 0, 0, 0, 0, 0, 0, 0, 0,
    0, 0, 0, 0, 0, 0, 0, 0, 0, 0, 0, 0, 0, 0, 0, 0,
];

/// Whether two identifiers are the same, byte for byte.
pub fn address_eq(a1: &Address, a2: &Address) -> (equal: bool)
    ensures
        equal == (a1@ == a2@),
{
    let mut i: usize = 0;
    while i < 32
        invariant
            i <= 32,
            forall|j: int| 0 <= j < i ==> a1[j] == a2[j],
        decreases 32 - i,
    {
        if a1[i] != a2[i] {
            return false;
        }
        i += 1;
    }
    assert(a1@ =~= a2@);
    true
}

} // verus!
