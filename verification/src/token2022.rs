use vstd::prelude::*;
use crate::accounts::ProgramId;
use crate::address::Address;

verus! {

/// The identifier of the token program of the 2022 line.
pub const ID: Address = [
    6, 221, 246, 225, 238, 117, 143, 222, 24, 66, 93, 188, 228, 108, 205, 218,
    182, 26, 252, 77, 131, 185, 13, 39, 254, 189, 249, 40, 216, 161, 139, 252,
];

/// The token program of the 2022 line.
#[derive(Clone, Copy, Debug)]
pub struct Token2022;

impl ProgramId for Token2022 {
    const ID: Address = ID;
}

/// `Token2022` names the program that `ID` names.
pub proof fn lemma_token2022_id()
    ensures
        Token2022::ID@ == ID@,
{
}

} // verus!
