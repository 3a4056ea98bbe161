use vstd::prelude::*;

verus! {

/// Why a name cannot name a workspace and its program crate.
#[derive(Clone, Copy, Debug, PartialEq, Eq, Structural)]
pub enum NameError {
    /// The name is empty.
    Empty,
    /// The name holds a character that is no lower-case letter, digit,
    /// hyphen or underscore.
    InvalidCharacter,
}

/// Whether a character may stand in a crate name: a lower-case ASCII
/// letter, an ASCII digit, a hyphen or an underscore.
pub open spec fn is_name_char(c: char) -> bool {
    ||| 'a' <= c <= 'z'
    ||| '0' <= c <= '9'
    ||| c == '-'
    ||| c == '_'
}

/// What is wrong with a name, if anything.
pub open spec fn name_fault(name: Seq<char>) -> Option<NameError> {
    if name.len() == 0 {
        Some(NameError::Empty)
    } else if exists|i: int| 0 <= i < name.len() && !is_name_char(name[i]) {
        Some(NameError::InvalidCharacter)
    } else {
        None
    }
}

fn check_name_char(c: char) -> (ok: bool)
    ensures
        ok == is_name_char(c),
{
    ('a' <= c && c <= 'z') || ('0' <= c && c <= '9') || c == '-' || c == '_'
}

/// Accepts the names that a workspace and its program crate can have.
pub fn validate_crate_name(name: &str) -> (r: Result<(), NameError>)
    ensures
        match r {
            Ok(()) => name_fault(name@) is None,
            Err(fault) => name_fault(name@) == Some(fault),
        },
{
    let len = name.unicode_len();
    if len == 0 {
        return Err(NameError::Empty);
    }
    let mut i: usize = 0;
    while i < len
        invariant
            i <= len,
            len == name@.len(),
            forall|j: int| 0 <= j < i ==> is_name_char(name@[j]),
        decreases len - i,
    {
        if !check_name_char(name.get_char(i)) {
            return Err(NameError::InvalidCharacter);
        }
        i += 1;
    }
    Ok(())
}

} // verus!
