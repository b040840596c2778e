//! The vault itself: the persistent record pairing a human authority with a
//! mint, and the three operations on it. `initialize` creates the record and
//! hands the mint authority to the program-derived identity; `swap` accepts
//! a native-currency deposit and mints one hundred times its amount of
//! tokens to the depositor's account, signed by the derived identity;
//! `sweep_donations` lets the recorded authority withdraw accumulated
//! deposits. Every operation checks all of its preconditions before it
//! touches any balance, so a rejected call changes nothing.

use vstd::prelude::*;

use crate::identity::Identity;
use crate::ledger::{
    mint_to, set_mint_authority, transfer_lamports, LedgerError, Mint, MintV, TokenAccount,
    TokenAccountV,
};
use crate::pda::{derived_view, find_vault_authority, vault_authority_of};

verus! {

/// The fixed exchange rate: token units minted per native-currency unit
/// deposited.
pub const EXCHANGE_RATE: u64 = 100;

/// The persistent vault record: the human authority permitted to sweep, and
/// the mint this vault is paired with. Both are set once at initialization
/// and never change afterwards.
pub struct Faucet {
    pub authority: Identity,
    pub mint: Identity,
}

/// The mathematical value of a `Faucet` record.
#[verifier::ext_equal]
pub ghost struct FaucetV {
    pub authority: Seq<u8>,
    pub mint: Seq<u8>,
}

impl View for Faucet {
    type V = FaucetV;

    open spec fn view(&self) -> FaucetV {
        FaucetV { authority: self.authority@, mint: self.mint@ }
    }
}

/// The value of the vault record's storage slot: the record, or nothing
/// while the vault is uninitialized.
pub open spec fn slot_view(slot: Option<Faucet>) -> Option<FaucetV> {
    match slot {
        Some(f) => Some(f@),
        None => None,
    }
}

/// Why the vault rejected an operation.
#[derive(Clone, Copy, Debug, PartialEq, Eq, Structural)]
pub enum VaultError {
    /// A record already exists; initialization is rejected, not overwritten.
    AlreadyInitialized,
    /// No record exists yet; only `initialize` may run.
    NotInitialized,
    /// The initializer does not hold the mint authority it offered to hand
    /// over.
    NotMintAuthority,
    /// The sweep caller is not the recorded authority.
    Unauthorized,
    /// A deposit of zero is not a deposit.
    ZeroAmount,
    /// Multiplying the deposit by the exchange rate would overflow the token
    /// amount representation.
    RateOverflow,
    /// The mint offered to the swap is not the one the vault is paired with,
    /// or the destination token account does not belong to it.
    WrongMint,
    /// The mint's recorded authority is not the program-derived identity, so
    /// the program cannot sign the mint.
    MintAuthorityMismatch,
    /// A debited balance is smaller than the amount.
    InsufficientFunds,
    /// A credited balance would exceed the amount representation.
    BalanceOverflow,
    /// The host's identity space admits no derivation for the program
    /// identity; a fatal configuration error.
    DerivationFailed,
}

/// The accounts `initialize` touches: the co-signing human authority, the
/// mint whose authority it hands over, and the record's storage slot.
pub struct Initialize {
    pub authority: Identity,
    pub token_mint: Mint,
    pub faucet: Option<Faucet>,
}

/// The mathematical value of an `Initialize` context.
#[verifier::ext_equal]
pub ghost struct InitializeV {
    pub authority: Seq<u8>,
    pub token_mint: MintV,
    pub faucet: Option<FaucetV>,
}

impl View for Initialize {
    type V = InitializeV;

    open spec fn view(&self) -> InitializeV {
        InitializeV {
            authority: self.authority@,
            token_mint: self.token_mint@,
            faucet: slot_view(self.faucet),
        }
    }
}

/// When `initialize` is accepted: no record exists yet, the program derives
/// a vault authority, and the caller holds the mint authority it hands over.
pub open spec fn initialize_accepts(pre: InitializeV, program_id: Seq<u8>) -> bool {
    &&& pre.faucet is None
    &&& vault_authority_of(program_id) is Some
    &&& pre.token_mint.authority == Some(pre.authority)
}

/// Which error a rejected `initialize` reports.
pub open spec fn initialize_error(pre: InitializeV, program_id: Seq<u8>) -> VaultError {
    if pre.faucet is Some {
        VaultError::AlreadyInitialized
    } else if vault_authority_of(program_id) is None {
        VaultError::DerivationFailed
    } else {
        VaultError::NotMintAuthority
    }
}

/// The state after an accepted `initialize`: the record pairs the caller
/// with the mint, and the mint's authority is the program-derived identity.
pub open spec fn initialize_post(pre: InitializeV, program_id: Seq<u8>) -> InitializeV {
    InitializeV {
        authority: pre.authority,
        token_mint: MintV {
            id: pre.token_mint.id,
            authority: Some(vault_authority_of(program_id)->Some_0.0),
        },
        faucet: Some(FaucetV { authority: pre.authority, mint: pre.token_mint.id }),
    }
}

/// Creates the vault record and hands the mint authority from the caller to
/// the program-derived identity. Rejected if a record already exists, and
/// atomic: on any error neither the record nor the mint authority changes.
pub fn initialize(ctx: &mut Initialize, program_id: &Identity) -> (r: Result<(), VaultError>)
    ensures
        match r {
            Ok(()) => initialize_accepts(old(ctx)@, program_id@) && final(ctx)@ == initialize_post(
                old(ctx)@,
                program_id@,
            ),
            Err(e) => !initialize_accepts(old(ctx)@, program_id@) && e == initialize_error(
                old(ctx)@,
                program_id@,
            ) && final(ctx)@ == old(ctx)@,
        },
{
    if ctx.faucet.is_some() {
        return Err(VaultError::AlreadyInitialized);
    }
    let vault_authority = match find_vault_authority(program_id) {
        None => {
            return Err(VaultError::DerivationFailed);
        },
        Some(p) => p.0,
    };
    let record = Faucet { authority: ctx.authority.clone(), mint: ctx.token_mint.id.clone() };
    match set_mint_authority(&mut ctx.token_mint, vault_authority, &ctx.authority) {
        Ok(()) => {
            ctx.faucet = Some(record);
            Ok(())
        },
        Err(_) => Err(VaultError::NotMintAuthority),
    }
}

/// The accounts `swap` touches: the co-signing depositor's native balance,
/// the destination token account, the mint, the record, and the vault's
/// custody balance.
pub struct Swap {
    pub depositor_lamports: u64,
    pub receiver_token_account: TokenAccount,
    pub token_mint: Mint,
    pub faucet: Option<Faucet>,
    pub faucet_lamports: u64,
}

/// The mathematical value of a `Swap` context.
#[verifier::ext_equal]
pub ghost struct SwapV {
    pub depositor_lamports: u64,
    pub receiver_token_account: TokenAccountV,
    pub token_mint: MintV,
    pub faucet: Option<FaucetV>,
    pub faucet_lamports: u64,
}

impl View for Swap {
    type V = SwapV;

    open spec fn view(&self) -> SwapV {
        SwapV {
            depositor_lamports: self.depositor_lamports,
            receiver_token_account: self.receiver_token_account@,
            token_mint: self.token_mint@,
            faucet: slot_view(self.faucet),
            faucet_lamports: self.faucet_lamports,
        }
    }
}

/// When `swap` is accepted: the vault is initialized, the deposit is
/// positive and its hundredfold representable, the program derives its vault
/// authority, that identity holds the mint authority of the vault's own
/// mint, the destination belongs to that mint, and both credited balances
/// stay representable while the depositor can cover the deposit.
pub open spec fn swap_accepts(pre: SwapV, program_id: Seq<u8>, lamports: u64) -> bool {
    &&& pre.faucet is Some
    &&& lamports > 0
    &&& EXCHANGE_RATE * lamports <= u64::MAX
    &&& vault_authority_of(program_id) is Some
    &&& pre.token_mint.id == pre.faucet->Some_0.mint
    &&& pre.token_mint.authority == Some(vault_authority_of(program_id)->Some_0.0)
    &&& pre.receiver_token_account.mint == pre.token_mint.id
    &&& pre.receiver_token_account.balance + EXCHANGE_RATE * lamports <= u64::MAX
    &&& pre.depositor_lamports >= lamports
    &&& pre.faucet_lamports + lamports <= u64::MAX
}

/// Which error a rejected `swap` reports.
pub open spec fn swap_error(pre: SwapV, program_id: Seq<u8>, lamports: u64) -> VaultError {
    if pre.faucet is None {
        VaultError::NotInitialized
    } else if lamports == 0 {
        VaultError::ZeroAmount
    } else if EXCHANGE_RATE * lamports > u64::MAX {
        VaultError::RateOverflow
    } else if vault_authority_of(program_id) is None {
        VaultError::DerivationFailed
    } else if pre.token_mint.id != pre.faucet->Some_0.mint {
        VaultError::WrongMint
    } else if pre.token_mint.authority != Some(vault_authority_of(program_id)->Some_0.0) {
        VaultError::MintAuthorityMismatch
    } else if pre.receiver_token_account.mint != pre.token_mint.id {
        VaultError::WrongMint
    } else if pre.receiver_token_account.balance + EXCHANGE_RATE * lamports > u64::MAX {
        VaultError::BalanceOverflow
    } else if pre.depositor_lamports < lamports {
        VaultError::InsufficientFunds
    } else {
        VaultError::BalanceOverflow
    }
}

/// The state after an accepted `swap`: the deposit has moved from the
/// depositor to the vault's custody, and exactly one hundred times the
/// deposit has been minted to the destination. Record and mint are
/// untouched.
pub open spec fn swap_post(pre: SwapV, lamports: u64) -> SwapV {
    SwapV {
        depositor_lamports: (pre.depositor_lamports - lamports) as u64,
        receiver_token_account: TokenAccountV {
            mint: pre.receiver_token_account.mint,
            balance: (pre.receiver_token_account.balance + EXCHANGE_RATE * lamports) as u64,
        },
        token_mint: pre.token_mint,
        faucet: pre.faucet,
        faucet_lamports: (pre.faucet_lamports + lamports) as u64,
    }
}

/// Accepts a deposit of `lamports` native-currency units into the vault's
/// custody and mints `lamports * 100` token units to the destination token
/// account, the mint signed by the program-derived vault authority. Atomic:
/// either the deposit lands and the tokens are minted, or nothing changes.
pub fn swap(ctx: &mut Swap, program_id: &Identity, lamports: u64) -> (r: Result<(), VaultError>)
    ensures
        match r {
            Ok(()) => swap_accepts(old(ctx)@, program_id@, lamports) && final(ctx)@ == swap_post(
                old(ctx)@,
                lamports,
            ),
            Err(e) => !swap_accepts(old(ctx)@, program_id@, lamports) && e == swap_error(
                old(ctx)@,
                program_id@,
                lamports,
            ) && final(ctx)@ == old(ctx)@,
        },
{
    let record_mint_matches = match &ctx.faucet {
        None => {
            return Err(VaultError::NotInitialized);
        },
        Some(f) => ctx.token_mint.id.same_as(&f.mint),
    };
    if lamports == 0 {
        return Err(VaultError::ZeroAmount);
    }
    if lamports > u64::MAX / EXCHANGE_RATE {
        return Err(VaultError::RateOverflow);
    }
    let vault_authority = match find_vault_authority(program_id) {
        None => {
            return Err(VaultError::DerivationFailed);
        },
        Some(p) => p.0,
    };
    if !record_mint_matches {
        return Err(VaultError::WrongMint);
    }
    let authority_held = match &ctx.token_mint.authority {
        Some(a) => a.same_as(&vault_authority),
        None => false,
    };
    if !authority_held {
        return Err(VaultError::MintAuthorityMismatch);
    }
    if !ctx.receiver_token_account.mint.same_as(&ctx.token_mint.id) {
        return Err(VaultError::WrongMint);
    }
    let amount = lamports * EXCHANGE_RATE;
    if amount > u64::MAX - ctx.receiver_token_account.balance {
        return Err(VaultError::BalanceOverflow);
    }
    if ctx.depositor_lamports < lamports {
        return Err(VaultError::InsufficientFunds);
    }
    if lamports > u64::MAX - ctx.faucet_lamports {
        return Err(VaultError::BalanceOverflow);
    }
    // Every precondition of both ledger primitives holds, so neither call
    // below can reject: the deposit and the mint stand or fall together.
    match transfer_lamports(&mut ctx.depositor_lamports, &mut ctx.faucet_lamports, lamports) {
        Ok(()) => {},
        Err(_) => {
            return Err(VaultError::InsufficientFunds);
        },
    }
    match mint_to(
        &ctx.token_mint,
        &mut ctx.receiver_token_account,
        amount,
        &vault_authority,
    ) {
        Ok(()) => Ok(()),
        Err(_) => Err(VaultError::BalanceOverflow),
    }
}

/// The accounts `sweep_donations` touches: the co-signing caller and its
/// native balance, the record, and the vault's custody balance.
pub struct Sweep {
    pub authority: Identity,
    pub authority_lamports: u64,
    pub vault: Option<Faucet>,
    pub vault_lamports: u64,
}

/// The mathematical value of a `Sweep` context.
#[verifier::ext_equal]
pub ghost struct SweepV {
    pub authority: Seq<u8>,
    pub authority_lamports: u64,
    pub vault: Option<FaucetV>,
    pub vault_lamports: u64,
}

impl View for Sweep {
    type V = SweepV;

    open spec fn view(&self) -> SweepV {
        SweepV {
            authority: self.authority@,
            authority_lamports: self.authority_lamports,
            vault: slot_view(self.vault),
            vault_lamports: self.vault_lamports,
        }
    }
}

/// When `sweep_donations` is accepted: the vault is initialized, the caller
/// is exactly the recorded authority, the custody balance covers the
/// withdrawal, and the credited balance stays representable.
pub open spec fn sweep_accepts(pre: SweepV, lamports: u64) -> bool {
    &&& pre.vault is Some
    &&& pre.vault->Some_0.authority == pre.authority
    &&& pre.vault_lamports >= lamports
    &&& pre.authority_lamports + lamports <= u64::MAX
}

/// Which error a rejected `sweep_donations` reports. A caller mismatch is
/// reported as an authorization error, distinct from insufficient funds.
pub open spec fn sweep_error(pre: SweepV, lamports: u64) -> VaultError {
    if pre.vault is None {
        VaultError::NotInitialized
    } else if pre.vault->Some_0.authority != pre.authority {
        VaultError::Unauthorized
    } else if pre.vault_lamports < lamports {
        VaultError::InsufficientFunds
    } else {
        VaultError::BalanceOverflow
    }
}

/// The state after an accepted `sweep_donations`: the withdrawal has moved
/// from the vault's custody to the recorded authority. The record is
/// untouched.
pub open spec fn sweep_post(pre: SweepV, lamports: u64) -> SweepV {
    SweepV {
        authority: pre.authority,
        authority_lamports: (pre.authority_lamports + lamports) as u64,
        vault: pre.vault,
        vault_lamports: (pre.vault_lamports - lamports) as u64,
    }
}

/// Withdraws `lamports` native-currency units from the vault's custody to
/// the recorded authority. Only the recorded authority may withdraw, the
/// custody balance never goes negative, and a rejected call changes no
/// balance. The token ledger and the mint authority are never touched.
pub fn sweep_donations(ctx: &mut Sweep, lamports: u64) -> (r: Result<(), VaultError>)
    ensures
        match r {
            Ok(()) => sweep_accepts(old(ctx)@, lamports) && final(ctx)@ == sweep_post(
                old(ctx)@,
                lamports,
            ),
            Err(e) => !sweep_accepts(old(ctx)@, lamports) && e == sweep_error(old(ctx)@, lamports)
                && final(ctx)@ == old(ctx)@,
        },
{
    let authorized = match &ctx.vault {
        None => {
            return Err(VaultError::NotInitialized);
        },
        Some(f) => f.authority.same_as(&ctx.authority),
    };
    if !authorized {
        return Err(VaultError::Unauthorized);
    }
    match transfer_lamports(&mut ctx.vault_lamports, &mut ctx.authority_lamports, lamports) {
        Ok(()) => Ok(()),
        Err(LedgerError::InsufficientFunds) => Err(VaultError::InsufficientFunds),
        Err(_) => Err(VaultError::BalanceOverflow),
    }
}

} // verus!
