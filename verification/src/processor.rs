//! The hop executor: consumes a decoded request and an ordered resource list,
//! delegates each hop to the external exchange engine in strict order, and
//! enforces the aggregate minimum-output guarantee after the last hop.

use vstd::prelude::*;
use vstd::bytes::{spec_u64_to_le_bytes, u64_to_le_bytes};
use vstd::slice::slice_index_get;
use solana_program::account_info::AccountInfo;
use solana_program::instruction::{AccountMeta, Instruction};
use solana_program::pubkey::Pubkey;
use crate::chain::{
    account_amount, account_key, account_owned_by, invoke_hop, meta_readonly, meta_writable,
    new_instruction, unpack_account,
};
use crate::error::SwapError;
use crate::instruction::{wire_well_formed, OOSwapInstruction};
use crate::state::OOSwapStruct;

verus! {

/// Number of global resource handles that precede the per-hop groups:
/// caller authority, source account, destination account, exchange-engine
/// identity, token-accounting-service identity.
pub const GLOBAL_RESOURCES: usize = 5;

/// Number of resource handles one hop consumes: pool identity, pool
/// authority, pool source, pool destination, pool-share mint, fee account.
pub const HOP_RESOURCES: usize = 6;

/// The aggregate slippage decision taken after the last hop, from the two
/// destination-balance snapshots and the caller's floor: a shrunken balance
/// is a violated invariant, a delta below the floor is rejected, and a delta
/// equal to the floor is accepted (the bound is non-strict).
pub open spec fn slippage_outcome(
    balance_before: u64,
    balance_after: u64,
    minimum_amount_out: u64,
) -> Result<(), SwapError> {
    if balance_after < balance_before {
        Err(SwapError::BalanceInvariantViolated)
    } else if balance_after - balance_before < minimum_amount_out {
        Err(SwapError::ExceededSlippage)
    } else {
        Ok(())
    }
}

/// Compares the destination-balance delta against the caller's floor.
pub fn check_slippage(balance_before: u64, balance_after: u64, minimum_amount_out: u64) -> (r:
    Result<(), SwapError>)
    ensures
        r == slippage_outcome(balance_before, balance_after, minimum_amount_out),
{
    if balance_after < balance_before {
        Err(SwapError::BalanceInvariantViolated)
    } else if balance_after - balance_before < minimum_amount_out {
        Err(SwapError::ExceededSlippage)
    } else {
        Ok(())
    }
}

/// Law: with zero hops the two snapshots see the same balance, and execution
/// then succeeds exactly when the caller's floor is zero.
pub proof fn lemma_zero_hop_outcome(balance: u64, minimum_amount_out: u64)
    ensures
        slippage_outcome(balance, balance, minimum_amount_out) == Ok::<(), SwapError>(())
            <==> minimum_amount_out == 0,
{
}

/// Law: the slippage bound is non-strict: a delta exactly equal to the floor
/// succeeds.
pub proof fn lemma_exact_minimum_succeeds(
    balance_before: u64,
    balance_after: u64,
    minimum_amount_out: u64,
)
    requires
        balance_after >= balance_before,
        balance_after - balance_before == minimum_amount_out,
    ensures
        slippage_outcome(balance_before, balance_after, minimum_amount_out) == Ok::<
            (),
            SwapError,
        >(()),
{
}

/// The byte payload of one delegated hop call: the engine's swap tag, the
/// hop's input amount, and a zero per-hop minimum output — the engine's own
/// slippage check is deliberately disabled, the aggregate check after the
/// last hop being the sole gate.
pub open spec fn hop_request_bytes(amount_in: u64) -> Seq<u8> {
    seq![1u8] + spec_u64_to_le_bytes(amount_in) + spec_u64_to_le_bytes(0u64)
}

/// Packs one hop's delegated-call payload.
pub fn pack_hop_request(amount_in: u64) -> (r: Vec<u8>)
    ensures
        r@ == hop_request_bytes(amount_in),
{
    let mut out: Vec<u8> = Vec::new();
    out.push(1u8);
    let mut word = u64_to_le_bytes(amount_in);
    out.append(&mut word);
    let mut zero = u64_to_le_bytes(0u64);
    out.append(&mut zero);
    proof {
        assert(out@ =~= hop_request_bytes(amount_in));
    }
    out
}

/// Reads the token balance a resource handle currently holds; a handle that
/// does not decode as a token account fails with `ExpectedAccount`.
pub fn token_balance<'a>(info: &AccountInfo<'a>) -> (r: Result<u64, SwapError>)
    ensures
        r matches Err(e) ==> e == SwapError::ExpectedAccount,
{
    match unpack_account(info) {
        Ok(account) => Ok(account_amount(&account)),
        Err(e) => Err(e),
    }
}

/// Assembles the delegated-call request for one hop, in the exchange engine's
/// account order: pool, pool authority, caller authority, caller source, pool
/// source, pool destination, caller destination, pool-share mint, fee
/// account, then the token-accounting service.
fn swap_hop_instruction<'a>(
    swap_program_info: &AccountInfo<'a>,
    token_program_info: &AccountInfo<'a>,
    swap_info: &AccountInfo<'a>,
    authority_info: &AccountInfo<'a>,
    user_transfer_authority_info: &AccountInfo<'a>,
    source_info: &AccountInfo<'a>,
    swap_source_info: &AccountInfo<'a>,
    swap_destination_info: &AccountInfo<'a>,
    destination_info: &AccountInfo<'a>,
    pool_mint_info: &AccountInfo<'a>,
    pool_fee_account_info: &AccountInfo<'a>,
    data: Vec<u8>,
) -> Instruction {
    let mut metas: Vec<AccountMeta> = Vec::new();
    metas.push(meta_readonly(account_key(swap_info), false));
    metas.push(meta_readonly(account_key(authority_info), false));
    metas.push(meta_readonly(account_key(user_transfer_authority_info), true));
    metas.push(meta_writable(account_key(source_info), false));
    metas.push(meta_writable(account_key(swap_source_info), false));
    metas.push(meta_writable(account_key(swap_destination_info), false));
    metas.push(meta_writable(account_key(destination_info), false));
    metas.push(meta_writable(account_key(pool_mint_info), false));
    metas.push(meta_writable(account_key(pool_fee_account_info), false));
    metas.push(meta_readonly(account_key(token_program_info), false));
    new_instruction(account_key(swap_program_info), metas, data)
}

/// The router's state handler.
pub struct Processor {}

impl Processor {
    /// Unpacks a token account after checking that the expected service owns
    /// it.
    pub fn unpack_token_account<'a>(
        account_info: &AccountInfo<'a>,
        token_program_id: &Pubkey,
    ) -> (r: Result<spl_token::state::Account, SwapError>)
        ensures
            r matches Err(e) ==> e == SwapError::IncorrectOwner || e == SwapError::ExpectedAccount,
    {
        if !account_owned_by(account_info, token_program_id) {
            Err(SwapError::IncorrectOwner)
        } else {
            unpack_account(account_info)
        }
    }

    /// Calculates the authority identity by deriving a program address.
    ///
    /// Relies on `solana_program::pubkey::Pubkey::create_program_address`: a
    /// pure, deterministic, collision-resistant derivation from the owner
    /// identity and the nonce, which fails exactly when the inputs map to no
    /// valid identity; that failure is surfaced as `InvalidProgramAddress`.
    #[verifier::external_body]
    pub fn authority_id(program_id: &Pubkey, my_info: &Pubkey, nonce: u8) -> (r: Result<
        Pubkey,
        SwapError,
    >)
        ensures
            r matches Err(e) ==> e == SwapError::InvalidProgramAddress,
    {
        match Pubkey::create_program_address(&[&my_info.to_bytes()[..32], &[nonce]], program_id) {
            Ok(key) => Ok(key),
            Err(_) => Err(SwapError::InvalidProgramAddress),
        }
    }

    /// Executes the hop chain: consumes the five global resource handles, then
    /// for each hop six more in strict positional order, delegates the hop to
    /// the exchange engine, and after the last hop enforces the aggregate
    /// minimum-output bound on the destination-balance delta.
    ///
    /// Any engine failure aborts the remaining chain immediately and is
    /// carried through unmodified; rollback is the surrounding environment's
    /// job.
    pub fn process_swap<'a>(
        _program_id: &Pubkey,
        swap_info_len: u8,
        amounts_in: Vec<u64>,
        minimum_amount_out: u64,
        accounts: &[AccountInfo<'a>],
    ) -> (r: Result<(), SwapError>)
        requires
            amounts_in@.len() == swap_info_len as int,
        ensures
            accounts@.len() < GLOBAL_RESOURCES as int ==> r == Err::<(), SwapError>(
                SwapError::MissingResource,
            ),
            r == Err::<(), SwapError>(SwapError::MissingResource) ==> accounts@.len()
                < GLOBAL_RESOURCES as int + HOP_RESOURCES as int * (swap_info_len as int),
            r is Ok ==> accounts@.len() >= GLOBAL_RESOURCES as int + HOP_RESOURCES as int * (
            swap_info_len as int),
            r == Err::<(), SwapError>(SwapError::ExceededSlippage) || r == Err::<(), SwapError>(
                SwapError::BalanceInvariantViolated,
            ) ==> accounts@.len() >= GLOBAL_RESOURCES as int + HOP_RESOURCES as int * (
            swap_info_len as int),
    {
        if accounts.len() < GLOBAL_RESOURCES {
            return Err(SwapError::MissingResource);
        }
        let user_transfer_authority_info = slice_index_get(accounts, 0);
        let source_info = slice_index_get(accounts, 1);
        let destination_info = slice_index_get(accounts, 2);
        let swap_program_info = slice_index_get(accounts, 3);
        let token_program_info = slice_index_get(accounts, 4);

        let old_destination_balance = match token_balance(destination_info) {
            Ok(balance) => balance,
            Err(e) => return Err(e),
        };

        let hop_count = swap_info_len as usize;
        let mut i: usize = 0;
        while i < hop_count
            invariant
                i <= hop_count,
                hop_count == swap_info_len as int,
                hop_count <= 255,
                accounts@.len() >= GLOBAL_RESOURCES as int + HOP_RESOURCES as int * (i as int),
                amounts_in@.len() == hop_count as int,
            decreases hop_count - i,
        {
            let base = GLOBAL_RESOURCES + HOP_RESOURCES * i;
            if accounts.len() < base + HOP_RESOURCES {
                return Err(SwapError::MissingResource);
            }
            let swap_info = slice_index_get(accounts, base);
            let authority_info = slice_index_get(accounts, base + 1);
            let swap_source_info = slice_index_get(accounts, base + 2);
            let swap_destination_info = slice_index_get(accounts, base + 3);
            let pool_mint_info = slice_index_get(accounts, base + 4);
            let pool_fee_account_info = slice_index_get(accounts, base + 5);

            let data = pack_hop_request(amounts_in[i]);
            let ix = swap_hop_instruction(
                swap_program_info,
                token_program_info,
                swap_info,
                authority_info,
                user_transfer_authority_info,
                source_info,
                swap_source_info,
                swap_destination_info,
                destination_info,
                pool_mint_info,
                pool_fee_account_info,
                data,
            );
            match invoke_hop(
                &ix,
                swap_info,
                authority_info,
                user_transfer_authority_info,
                source_info,
                swap_source_info,
                swap_destination_info,
                destination_info,
                pool_mint_info,
                pool_fee_account_info,
                token_program_info,
            ) {
                Ok(()) => {},
                Err(e) => return Err(SwapError::Engine(e)),
            }
            i = i + 1;
        }

        let new_destination_balance = match token_balance(destination_info) {
            Ok(balance) => balance,
            Err(e) => return Err(e),
        };
        check_slippage(old_destination_balance, new_destination_balance, minimum_amount_out)
    }

    /// The single entry point for the surrounding dispatcher: decodes the raw
    /// buffer and executes the request against the resource list.
    pub fn process<'a>(program_id: &Pubkey, accounts: &[AccountInfo<'a>], input: &[u8]) -> (r:
        Result<(), SwapError>)
        ensures
            !wire_well_formed(input@) ==> r == Err::<(), SwapError>(SwapError::InvalidInstruction),
            wire_well_formed(input@) && accounts@.len() < GLOBAL_RESOURCES as int ==> r == Err::<
                (),
                SwapError,
            >(SwapError::MissingResource),
            wire_well_formed(input@) && r == Err::<(), SwapError>(SwapError::MissingResource)
                ==> accounts@.len() < GLOBAL_RESOURCES as int + HOP_RESOURCES as int * (
            input@[1] as int),
            wire_well_formed(input@) && r is Ok ==> accounts@.len() >= GLOBAL_RESOURCES as int
                + HOP_RESOURCES as int * (input@[1] as int),
            wire_well_formed(input@) && (r == Err::<(), SwapError>(SwapError::ExceededSlippage)
                || r == Err::<(), SwapError>(SwapError::BalanceInvariantViolated))
                ==> accounts@.len() >= GLOBAL_RESOURCES as int + HOP_RESOURCES as int * (
            input@[1] as int),
    {
        let instruction = match OOSwapInstruction::unpack(input) {
            Ok(ins) => ins,
            Err(e) => return Err(e),
        };
        match instruction {
            OOSwapInstruction::OOSwap(OOSwapStruct { swap_info_len, amounts_in, minimum_amount_out }) => {
                Self::process_swap(program_id, swap_info_len, amounts_in, minimum_amount_out, accounts)
            },
        }
    }
}

} // verus!
