use vstd::prelude::*;

verus! {

/// Why a validation, a decode or a dispatch was refused.
#[derive(Clone, Copy, Debug, PartialEq, Eq, Structural)]
pub enum ErrorCode {
    /// The record is not the one that was asked for: wrong address, a missing
    /// permission flag, or no record left to consume.
    InvalidAccount,
    /// The record is controlled by another program than the declared one.
    InvalidAccountOwner,
    /// The record's buffer has the wrong length or type tag, or holds data
    /// where an empty buffer was required.
    InvalidAccountData,
    /// The program record of a nested call is not the declared target.
    IncorrectProgramId,
    /// The parameters of an instruction do not fit the declared layout.
    InvalidInstructionData,
    /// The payload names no registered handler.
    UnknownInstruction,
    /// The record did not sign the invocation.
    MissingRequiredSignature,
    /// The buffer is already borrowed in a way that excludes the borrow asked for.
    AccountBorrowFailed,
}

pub type Result<T> = core::result::Result<T, ErrorCode>;

impl ErrorCode {
    /// The number under which the host reports this error.
    pub open spec fn spec_code(self) -> u32 {
        match self {
            ErrorCode::InvalidAccount => 0,
            ErrorCode::InvalidAccountOwner => 1,
            ErrorCode::InvalidAccountData => 2,
            ErrorCode::IncorrectProgramId => 3,
            ErrorCode::InvalidInstructionData => 4,
            ErrorCode::UnknownInstruction => 5,
            ErrorCode::MissingRequiredSignature => 6,
            ErrorCode::AccountBorrowFailed => 7,
        }
    }

    #[verifier::when_used_as_spec(spec_code)]
    pub fn code(self) -> (code: u32)
        ensures
            code == self.spec_code(),
    {
        match self {
            ErrorCode::InvalidAccount => 0,
            ErrorCode::InvalidAccountOwner => 1,
            ErrorCode::InvalidAccountData => 2,
            ErrorCode::IncorrectProgramId => 3,
            ErrorCode::InvalidInstructionData => 4,
            ErrorCode::UnknownInstruction => 5,
            ErrorCode::MissingRequiredSignature => 6,
            ErrorCode::AccountBorrowFailed => 7,
        }
    }

    /// The error reported under `code`, if there is one.
    pub fn try_from_code(code: u32) -> (error: Option<ErrorCode>)
        ensures
            match error {
                Some(e) => e.spec_code() == code,
                None => forall|e: ErrorCode| e.spec_code() != code,
            },
    {
        match code {
            0 => Some(ErrorCode::InvalidAccount),
            1 => Some(ErrorCode::InvalidAccountOwner),
            2 => Some(ErrorCode::InvalidAccountData),
            3 => Some(ErrorCode::IncorrectProgramId),
            4 => Some(ErrorCode::InvalidInstructionData),
            5 => Some(ErrorCode::UnknownInstruction),
            6 => Some(ErrorCode::MissingRequiredSignature),
            7 => Some(ErrorCode::AccountBorrowFailed),
            _ => None,
        }
    }

    /// A one-line description for logs.
    pub fn to_str(self) -> (message: &'static str)
        ensures
            message@ == self.spec_message(),
    {
        match self {
            ErrorCode::InvalidAccount => "invalid account",
            ErrorCode::InvalidAccountOwner => "invalid account owner",
            ErrorCode::InvalidAccountData => "invalid account data",
            ErrorCode::IncorrectProgramId => "incorrect program id",
            ErrorCode::InvalidInstructionData => "invalid instruction data",
            ErrorCode::UnknownInstruction => "unknown instruction",
            ErrorCode::MissingRequiredSignature => "missing required signature",
            ErrorCode::AccountBorrowFailed => "account borrow failed",
        }
    }

    pub open spec fn spec_message(self) -> Seq<char> {
        match self {
            ErrorCode::InvalidAccount => "invalid account"@,
            ErrorCode::InvalidAccountOwner => "invalid account owner"@,
            ErrorCode::InvalidAccountData => "invalid account data"@,
            ErrorCode::IncorrectProgramId => "incorrect program id"@,
            ErrorCode::InvalidInstructionData => "invalid instruction data"@,
            ErrorCode::UnknownInstruction => "unknown instruction"@,
            ErrorCode::MissingRequiredSignature => "missing required signature"@,
            ErrorCode::AccountBorrowFailed => "account borrow failed"@,
        }
    }
}

/// Every error has a number of its own, so a number names at most one error.
pub proof fn lemma_code_is_injective(a: ErrorCode, b: ErrorCode)
    ensures
        a.spec_code() == b.spec_code() ==> a == b,
{
}

} // verus!
