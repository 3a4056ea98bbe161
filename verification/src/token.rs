use vstd::prelude::*;
use vstd::bytes::{spec_u64_to_le_bytes, u64_to_le_bytes};
use crate::account_info::AccountInfo;
use crate::accounts::ProgramId;
use crate::address::Address;
use crate::cpi::{CheckProgramId, CpiCtx};
use crate::instruction::{
    readonly_meta, readonly_signer_meta, writable_meta, AccountMeta, Instruction,
};

verus! {

/// The identifier of the token program.
pub const ID: Address = [
    6, 221, 246, 225, 215, 101, 161, 147, 217, 203, 225, 70, 206, 235, 121, 172,
    28, 180, 133, 237, 95, 91, 55, 145, 58, 140, 245, 133, 126, 255, 0, 169,
];

/// The token program.
#[derive(Clone, Copy, Debug)]
pub struct Token;

impl ProgramId for Token {
    const ID: Address = ID;
}

/// The accounts of the instruction that thaws a frozen token account.
pub struct ThawAccount<'a> {
    /// The token account to thaw.
    pub account: &'a AccountInfo,
    /// The mint of the token.
    pub mint: &'a AccountInfo,
    /// The mint's freeze authority.
    pub freeze_authority: &'a AccountInfo,
}

impl CheckProgramId for ThawAccount<'_> {
    const ID: Address = ID;
}

/// The accounts of the instruction that moves tokens and has the token
/// program check mint and decimals.
pub struct TransferChecked<'a> {
    /// The account the tokens leave.
    pub from: &'a AccountInfo,
    /// The mint of the token.
    pub mint: &'a AccountInfo,
    /// The account the tokens reach.
    pub to: &'a AccountInfo,
    /// The authority over the account the tokens leave.
    pub authority: &'a AccountInfo,
}

impl CheckProgramId for TransferChecked<'_> {
    const ID: Address = ID;
}

/// The instructions of this module go to the token program.
pub proof fn lemma_token_targets()
    ensures
        Token::ID@ == ID@,
        ThawAccount::ID@ == ID@,
        TransferChecked::ID@ == ID@,
{
}

/// The number that opens the bytes of a thaw.
pub const THAW_ACCOUNT: u8 = 11;

/// The number that opens the bytes of a checked transfer.
pub const TRANSFER_CHECKED: u8 = 12;

/// The bytes of a checked transfer: the instruction's number, the amount
/// as eight little-endian bytes, and the decimals.
pub open spec fn transfer_checked_data(amount: u64, decimals: u8) -> Seq<u8> {
    seq![TRANSFER_CHECKED] + spec_u64_to_le_bytes(amount) + seq![decimals]
}

/// The thaw of a token account, as the call to hand to the host.
pub fn thaw_account<'a>(cpi_ctx: &CpiCtx<'a, '_, ThawAccount<'a>>) -> (instruction: Instruction)
    ensures
        instruction.program_id@ == ID@,
        instruction.metas() == seq![
            writable_meta(cpi_ctx.accounts.account@),
            readonly_meta(cpi_ctx.accounts.mint@),
            readonly_signer_meta(cpi_ctx.accounts.freeze_authority@),
        ],
        instruction.data@ == seq![THAW_ACCOUNT],
{
    let mut accounts: Vec<AccountMeta> = Vec::new();
    accounts.push(AccountMeta::writable(cpi_ctx.accounts.account));
    accounts.push(AccountMeta::readonly(cpi_ctx.accounts.mint));
    accounts.push(AccountMeta::readonly_signer(cpi_ctx.accounts.freeze_authority));
    let mut data: Vec<u8> = Vec::new();
    data.push(THAW_ACCOUNT);
    let instruction = Instruction { program_id: ID, accounts, data };
    proof {
        assert(instruction.metas() =~= seq![
            writable_meta(cpi_ctx.accounts.account@),
            readonly_meta(cpi_ctx.accounts.mint@),
            readonly_signer_meta(cpi_ctx.accounts.freeze_authority@),
        ]);
        assert(instruction.data@ =~= seq![THAW_ACCOUNT]);
    }
    instruction
}

/// The checked transfer of `amount` tokens of a mint with `decimals`
/// decimals, as the call to hand to the host.
pub fn transfer_checked<'a>(
    cpi_ctx: &CpiCtx<'a, '_, TransferChecked<'a>>,
    amount: u64,
    decimals: u8,
) -> (instruction: Instruction)
    ensures
        instruction.program_id@ == ID@,
        instruction.metas() == seq![
            writable_meta(cpi_ctx.accounts.from@),
            readonly_meta(cpi_ctx.accounts.mint@),
            writable_meta(cpi_ctx.accounts.to@),
            readonly_signer_meta(cpi_ctx.accounts.authority@),
        ],
        instruction.data@ == transfer_checked_data(amount, decimals),
        instruction.data@.len() == 10,
{
    let mut accounts: Vec<AccountMeta> = Vec::new();
    accounts.push(AccountMeta::writable(cpi_ctx.accounts.from));
    accounts.push(AccountMeta::readonly(cpi_ctx.accounts.mint));
    accounts.push(AccountMeta::writable(cpi_ctx.accounts.to));
    accounts.push(AccountMeta::readonly_signer(cpi_ctx.accounts.authority));
    let mut data: Vec<u8> = Vec::new();
    data.push(TRANSFER_CHECKED);
    let mut encoded = u64_to_le_bytes(amount);
    data.append(&mut encoded);
    data.push(decimals);
    let instruction = Instruction { program_id: ID, accounts, data };
    proof {
        assert(instruction.metas() =~= seq![
            writable_meta(cpi_ctx.accounts.from@),
            readonly_meta(cpi_ctx.accounts.mint@),
            writable_meta(cpi_ctx.accounts.to@),
            readonly_signer_meta(cpi_ctx.accounts.authority@),
        ]);
        assert(instruction.data@ =~= transfer_checked_data(amount, decimals));
    }
    instruction
}

} // verus!
