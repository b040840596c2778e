//! The guarantees that make the vault trustworthy, stated and proved over
//! the operations' transition functions. Together with each operation's own
//! contract — a rejected call leaves its whole context unchanged — these
//! pin down the exchange rate, the one-time initialization, the exclusive
//! sweep right, and the non-escapable mint authority.

use vstd::prelude::*;

use crate::ledger::{mint_to_accepts, mint_to_error, LedgerError, TokenAccountV};
use crate::pda::vault_authority_of;
use crate::vault::{
    initialize_accepts, initialize_error, initialize_post, sweep_accepts, sweep_error, sweep_post,
    swap_accepts, swap_error, swap_post, InitializeV, SweepV, SwapV, VaultError, EXCHANGE_RATE,
};

verus! {

/// Every accepted swap moves exactly the deposit into the vault's custody
/// and mints exactly one hundred times the deposit to the destination,
/// debiting the depositor by exactly the deposit; the record and the mint
/// are untouched. There is no partial mint and no mint without a deposit.
pub proof fn lemma_swap_exchange_rate(pre: SwapV, program_id: Seq<u8>, lamports: u64)
    requires
        swap_accepts(pre, program_id, lamports),
    ensures
        swap_post(pre, lamports).receiver_token_account.balance
            == pre.receiver_token_account.balance + EXCHANGE_RATE * lamports,
        swap_post(pre, lamports).faucet_lamports == pre.faucet_lamports + lamports,
        swap_post(pre, lamports).depositor_lamports == pre.depositor_lamports - lamports,
        swap_post(pre, lamports).faucet == pre.faucet,
        swap_post(pre, lamports).token_mint == pre.token_mint,
{
}

/// Initialization happens at most once: after an accepted `initialize`, any
/// later `initialize` against the same record slot is rejected as already
/// initialized — and a rejected call leaves the existing record untouched,
/// by `initialize`'s own contract.
pub proof fn lemma_initialize_once(
    first: InitializeV,
    second: InitializeV,
    program_id: Seq<u8>,
    second_program_id: Seq<u8>,
)
    requires
        initialize_accepts(first, program_id),
        second.faucet == initialize_post(first, program_id).faucet,
    ensures
        !initialize_accepts(second, second_program_id),
        initialize_error(second, second_program_id) == VaultError::AlreadyInitialized,
{
}

/// Only the recorded authority may sweep: a caller whose identity differs
/// from `Faucet.authority` is rejected with an authorization error —
/// distinct from insufficient funds — and, by `sweep_donations`'s contract,
/// no balance moves.
pub proof fn lemma_sweep_requires_recorded_authority(pre: SweepV, lamports: u64)
    requires
        pre.vault is Some,
        pre.authority != pre.vault->Some_0.authority,
    ensures
        !sweep_accepts(pre, lamports),
        sweep_error(pre, lamports) == VaultError::Unauthorized,
{
}

/// The vault's custody balance never goes negative: a sweep is accepted
/// only when the custody balance covers it, and then leaves exactly the
/// difference behind; the recorded authority asking for more than the
/// custody holds is rejected for insufficient funds.
pub proof fn lemma_sweep_never_overdraws(pre: SweepV, lamports: u64)
    ensures
        sweep_accepts(pre, lamports) ==> lamports <= pre.vault_lamports,
        sweep_accepts(pre, lamports) ==> sweep_post(pre, lamports).vault_lamports
            == pre.vault_lamports - lamports,
        sweep_accepts(pre, lamports) ==> sweep_post(pre, lamports).vault == pre.vault,
        (pre.vault is Some && pre.authority == pre.vault->Some_0.authority && lamports
            > pre.vault_lamports) ==> sweep_error(pre, lamports) == VaultError::InsufficientFunds,
{
}

/// A deposit whose hundredfold overflows the token amount representation is
/// rejected outright — before either sub-operation — so, by `swap`'s
/// contract, no deposit moves and nothing is minted.
pub proof fn lemma_swap_overflow_rejected(pre: SwapV, program_id: Seq<u8>, lamports: u64)
    requires
        EXCHANGE_RATE * lamports > u64::MAX,
    ensures
        !swap_accepts(pre, program_id, lamports),
        pre.faucet is Some ==> swap_error(pre, program_id, lamports) == VaultError::RateOverflow,
{
}

/// After initialization the mint's recorded authority is exactly the
/// program-derived identity, so a mint attempt signed by any other identity
/// — in particular the original human authority, which on the host chain is
/// a signable key and therefore distinct from the key-less derived identity
/// — is rejected by the token ledger and mints nothing.
pub proof fn lemma_initializer_cannot_mint(
    pre: InitializeV,
    program_id: Seq<u8>,
    dest: TokenAccountV,
    amount: u64,
)
    requires
        initialize_accepts(pre, program_id),
        pre.authority != vault_authority_of(program_id)->Some_0.0,
    ensures
        initialize_post(pre, program_id).token_mint.authority == Some(
            vault_authority_of(program_id)->Some_0.0,
        ),
        !mint_to_accepts(
            initialize_post(pre, program_id).token_mint,
            dest,
            amount,
            pre.authority,
        ),
        mint_to_error(initialize_post(pre, program_id).token_mint, dest, amount, pre.authority)
            == LedgerError::AuthorityMismatch,
{
}

} // verus!
