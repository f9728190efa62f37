//! Declarations of the on-chain types this library carries through its logic,
//! and trusted wrappers around the calls into the ledger runtime and the token
//! accounting service. Every contract stated here is backed by the named
//! outside function's source.

use vstd::prelude::*;
use solana_program::account_info::AccountInfo;
use solana_program::instruction::{AccountMeta, Instruction};
use solana_program::program_error::ProgramError;
use solana_program::pubkey::Pubkey;
use solana_program::program_pack::Pack;
use crate::error::SwapError;

verus! {

/// `solana_program::pubkey::Pubkey`: an opaque 32-byte identity.
#[verifier::external_type_specification]
#[verifier::external_body]
pub struct ExPubkey(solana_program::pubkey::Pubkey);

/// `solana_program::program_error::ProgramError`: the error vocabulary of the
/// ledger runtime; the executor propagates engine failures of this type
/// unmodified.
#[verifier::external_type_specification]
#[verifier::external_body]
pub struct ExProgramError(solana_program::program_error::ProgramError);

/// `solana_program::account_info::AccountInfo`: an opaque resource handle to
/// one ledger account.
#[verifier::external_type_specification]
#[verifier::external_body]
pub struct ExAccountInfo<'a>(solana_program::account_info::AccountInfo<'a>);

/// `solana_program::instruction::Instruction`: a delegated-call request.
#[verifier::external_type_specification]
#[verifier::external_body]
pub struct ExInstruction(solana_program::instruction::Instruction);

/// `spl_token::state::Account`: the token accounting service's unpacked view
/// of one token account.
#[verifier::external_type_specification]
#[verifier::external_body]
pub struct ExTokenAccount(spl_token::state::Account);

/// `solana_program::instruction::AccountMeta`: one account reference inside a
/// delegated-call request.
#[verifier::external_type_specification]
#[verifier::external_body]
pub struct ExAccountMeta(AccountMeta);

/// Relies on the `key` field of `solana_program::account_info::AccountInfo`:
/// the identity of the account the handle refers to.
#[verifier::external_body]
pub(crate) fn account_key(info: &AccountInfo<'_>) -> Pubkey {
    *info.key
}

/// Relies on the `owner` field of `AccountInfo` and on `Pubkey` equality:
/// whether the given service owns the account.
#[verifier::external_body]
pub(crate) fn account_owned_by(info: &AccountInfo<'_>, program_id: &Pubkey) -> bool {
    info.owner == program_id
}

/// Relies on `spl_token::state::Account::unpack` (through
/// `solana_program::program_pack::Pack`): parses a token account's bytes and
/// fails exactly on malformed or uninitialized data; that failure is surfaced
/// as `ExpectedAccount`.
#[verifier::external_body]
pub(crate) fn unpack_account<'a>(info: &AccountInfo<'a>) -> (r: Result<
    spl_token::state::Account,
    SwapError,
>)
    ensures
        r matches Err(e) ==> e == SwapError::ExpectedAccount,
{
    match spl_token::state::Account::unpack(&info.data.borrow()) {
        Ok(account) => Ok(account),
        Err(_) => Err(SwapError::ExpectedAccount),
    }
}

/// Relies on the `amount` field of `spl_token::state::Account`: the token
/// balance the account holds.
#[verifier::external_body]
pub(crate) fn account_amount(account: &spl_token::state::Account) -> u64 {
    account.amount
}

/// Relies on `solana_program::instruction::AccountMeta::new`: a writable
/// account reference in a delegated-call request.
#[verifier::external_body]
pub(crate) fn meta_writable(key: Pubkey, is_signer: bool) -> AccountMeta {
    AccountMeta::new(key, is_signer)
}

/// Relies on `solana_program::instruction::AccountMeta::new_readonly`: a
/// read-only account reference in a delegated-call request.
#[verifier::external_body]
pub(crate) fn meta_readonly(key: Pubkey, is_signer: bool) -> AccountMeta {
    AccountMeta::new_readonly(key, is_signer)
}

/// Relies on `solana_program::instruction::Instruction`: assembles a
/// delegated-call request from a program identity, account references and a
/// byte payload, exactly as given.
#[verifier::external_body]
pub(crate) fn new_instruction(program_id: Pubkey, accounts: Vec<AccountMeta>, data: Vec<u8>)
    -> Instruction {
    Instruction { program_id, accounts, data }
}

/// Relies on `solana_program::program::invoke`: synchronously delegates one
/// hop to the external exchange engine. The engine either fully applies its
/// effects or fails; nothing is promised of which, so callers must state what
/// holds of every outcome.
#[verifier::external_body]
pub(crate) fn invoke_hop<'a>(
    ix: &Instruction,
    swap: &AccountInfo<'a>,
    authority: &AccountInfo<'a>,
    user_authority: &AccountInfo<'a>,
    source: &AccountInfo<'a>,
    swap_source: &AccountInfo<'a>,
    swap_destination: &AccountInfo<'a>,
    destination: &AccountInfo<'a>,
    pool_mint: &AccountInfo<'a>,
    pool_fee: &AccountInfo<'a>,
    token_program: &AccountInfo<'a>,
) -> Result<(), ProgramError> {
    solana_program::program::invoke(
        ix,
        &[
            swap.clone(), authority.clone(), user_authority.clone(),
            source.clone(), swap_source.clone(), swap_destination.clone(),
            destination.clone(), pool_mint.clone(), pool_fee.clone(),
            token_program.clone(),
        ],
    )
}

} // verus!
