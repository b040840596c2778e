use escrow_token_mint::identity::Identity;
use escrow_token_mint::ledger::{
    mint_to, set_mint_authority, transfer_lamports, LedgerError, Mint, TokenAccount,
};
use escrow_token_mint::pda::find_vault_authority;
use escrow_token_mint::vault::{
    initialize, sweep_donations, swap, Faucet, Initialize, Swap, Sweep, VaultError, EXCHANGE_RATE,
};

fn ident(byte: u8) -> Identity {
    Identity::from_bytes(vec![byte; 32])
}

fn program_id() -> Identity {
    ident(9)
}

fn vault_authority() -> Identity {
    find_vault_authority(&program_id()).expect("derivation must succeed").0
}

/// An initialized context: authority `A` (1), mint `M` (2), authority already
/// handed to the program-derived identity.
fn initialized_mint() -> Mint {
    let mut ctx = Initialize {
        authority: ident(1),
        token_mint: Mint { id: ident(2), authority: Some(ident(1)) },
        faucet: None,
    };
    assert_eq!(initialize(&mut ctx, &program_id()), Ok(()));
    ctx.token_mint
}

fn swap_ctx(depositor_lamports: u64, faucet_lamports: u64, receiver_balance: u64) -> Swap {
    Swap {
        depositor_lamports,
        receiver_token_account: TokenAccount { mint: ident(2), balance: receiver_balance },
        token_mint: initialized_mint(),
        faucet: Some(Faucet { authority: ident(1), mint: ident(2) }),
        faucet_lamports,
    }
}

#[test]
fn exchange_rate_is_one_hundred() {
    assert_eq!(EXCHANGE_RATE, 100);
}

#[test]
fn initialize_records_authority_and_mint_and_hands_over() {
    let mut ctx = Initialize {
        authority: ident(1),
        token_mint: Mint { id: ident(2), authority: Some(ident(1)) },
        faucet: None,
    };
    assert_eq!(initialize(&mut ctx, &program_id()), Ok(()));
    let record = ctx.faucet.as_ref().expect("record must exist");
    assert!(record.authority.same_as(&ident(1)));
    assert!(record.mint.same_as(&ident(2)));
    let new_authority = ctx.token_mint.authority.as_ref().expect("authority must be set");
    assert!(new_authority.same_as(&vault_authority()));
}

#[test]
fn initialize_rejects_second_call_and_keeps_record() {
    let mut ctx = Initialize {
        authority: ident(1),
        token_mint: Mint { id: ident(2), authority: Some(ident(1)) },
        faucet: None,
    };
    assert_eq!(initialize(&mut ctx, &program_id()), Ok(()));
    // A different caller tries to re-initialize against the same slot.
    ctx.authority = ident(3);
    assert_eq!(initialize(&mut ctx, &program_id()), Err(VaultError::AlreadyInitialized));
    let record = ctx.faucet.as_ref().expect("record must survive");
    assert!(record.authority.same_as(&ident(1)));
    assert!(record.mint.same_as(&ident(2)));
    let authority = ctx.token_mint.authority.as_ref().expect("authority must survive");
    assert!(authority.same_as(&vault_authority()));
}

#[test]
fn initialize_rejects_caller_without_mint_authority() {
    let mut ctx = Initialize {
        authority: ident(1),
        token_mint: Mint { id: ident(2), authority: Some(ident(3)) },
        faucet: None,
    };
    assert_eq!(initialize(&mut ctx, &program_id()), Err(VaultError::NotMintAuthority));
    assert!(ctx.faucet.is_none());
    assert!(ctx.token_mint.authority.as_ref().unwrap().same_as(&ident(3)));
}

#[test]
fn initialize_rejects_underivable_program_identity() {
    let mut ctx = Initialize {
        authority: ident(1),
        token_mint: Mint { id: ident(2), authority: Some(ident(1)) },
        faucet: None,
    };
    let short_program = Identity::from_bytes(vec![9u8; 4]);
    assert_eq!(initialize(&mut ctx, &short_program), Err(VaultError::DerivationFailed));
    assert!(ctx.faucet.is_none());
}

#[test]
fn initializer_cannot_mint_after_handover() {
    let mint = initialized_mint();
    let mut dest = TokenAccount { mint: ident(2), balance: 0 };
    let r = mint_to(&mint, &mut dest, 100, &ident(1));
    assert_eq!(r, Err(LedgerError::AuthorityMismatch));
    assert_eq!(dest.balance, 0);
}

#[test]
fn derived_identity_can_mint_after_handover() {
    let mint = initialized_mint();
    let mut dest = TokenAccount { mint: ident(2), balance: 7 };
    assert_eq!(mint_to(&mint, &mut dest, 100, &vault_authority()), Ok(()));
    assert_eq!(dest.balance, 107);
}

#[test]
fn swap_moves_deposit_and_mints_hundredfold() {
    let mut ctx = swap_ctx(10, 0, 3);
    assert_eq!(swap(&mut ctx, &program_id(), 7), Ok(()));
    assert_eq!(ctx.depositor_lamports, 3);
    assert_eq!(ctx.faucet_lamports, 7);
    assert_eq!(ctx.receiver_token_account.balance, 3 + 700);
}

#[test]
fn swap_rejects_zero_amount() {
    let mut ctx = swap_ctx(10, 0, 0);
    assert_eq!(swap(&mut ctx, &program_id(), 0), Err(VaultError::ZeroAmount));
    assert_eq!(ctx.depositor_lamports, 10);
    assert_eq!(ctx.receiver_token_account.balance, 0);
}

#[test]
fn swap_rejects_rate_overflow_atomically() {
    let mut ctx = swap_ctx(u64::MAX, 0, 0);
    let lamports = u64::MAX / EXCHANGE_RATE + 1;
    assert_eq!(swap(&mut ctx, &program_id(), lamports), Err(VaultError::RateOverflow));
    assert_eq!(ctx.depositor_lamports, u64::MAX);
    assert_eq!(ctx.faucet_lamports, 0);
    assert_eq!(ctx.receiver_token_account.balance, 0);
}

#[test]
fn swap_accepts_largest_non_overflowing_amount() {
    let lamports = u64::MAX / EXCHANGE_RATE;
    let mut ctx = swap_ctx(lamports, 0, 0);
    assert_eq!(swap(&mut ctx, &program_id(), lamports), Ok(()));
    assert_eq!(ctx.depositor_lamports, 0);
    assert_eq!(ctx.faucet_lamports, lamports);
    assert_eq!(ctx.receiver_token_account.balance, lamports * EXCHANGE_RATE);
}

#[test]
fn swap_rejects_uninitialized_vault() {
    let mut ctx = swap_ctx(10, 0, 0);
    ctx.faucet = None;
    assert_eq!(swap(&mut ctx, &program_id(), 5), Err(VaultError::NotInitialized));
    assert_eq!(ctx.depositor_lamports, 10);
}

#[test]
fn swap_rejects_insufficient_depositor_funds() {
    let mut ctx = swap_ctx(4, 0, 0);
    assert_eq!(swap(&mut ctx, &program_id(), 5), Err(VaultError::InsufficientFunds));
    assert_eq!(ctx.depositor_lamports, 4);
    assert_eq!(ctx.faucet_lamports, 0);
    assert_eq!(ctx.receiver_token_account.balance, 0);
}

#[test]
fn swap_rejects_foreign_mint() {
    let mut ctx = swap_ctx(10, 0, 0);
    ctx.token_mint.id = ident(4);
    ctx.receiver_token_account.mint = ident(4);
    assert_eq!(swap(&mut ctx, &program_id(), 5), Err(VaultError::WrongMint));
    assert_eq!(ctx.depositor_lamports, 10);
}

#[test]
fn swap_rejects_receiver_of_other_mint() {
    let mut ctx = swap_ctx(10, 0, 0);
    ctx.receiver_token_account.mint = ident(4);
    assert_eq!(swap(&mut ctx, &program_id(), 5), Err(VaultError::WrongMint));
    assert_eq!(ctx.receiver_token_account.balance, 0);
}

#[test]
fn swap_rejects_mint_not_held_by_derived_identity() {
    let mut ctx = swap_ctx(10, 0, 0);
    // The mint authority was never handed over to the derived identity.
    ctx.token_mint.authority = Some(ident(1));
    assert_eq!(swap(&mut ctx, &program_id(), 5), Err(VaultError::MintAuthorityMismatch));
    assert_eq!(ctx.depositor_lamports, 10);
    assert_eq!(ctx.receiver_token_account.balance, 0);
}

#[test]
fn swap_rejects_receiver_balance_overflow_atomically() {
    let mut ctx = swap_ctx(10, 0, u64::MAX - 499);
    assert_eq!(swap(&mut ctx, &program_id(), 5), Err(VaultError::BalanceOverflow));
    assert_eq!(ctx.depositor_lamports, 10);
    assert_eq!(ctx.faucet_lamports, 0);
    assert_eq!(ctx.receiver_token_account.balance, u64::MAX - 499);
}

#[test]
fn sweep_rejects_foreign_caller_and_moves_nothing() {
    let mut ctx = Sweep {
        authority: ident(5),
        authority_lamports: 0,
        vault: Some(Faucet { authority: ident(1), mint: ident(2) }),
        vault_lamports: 50,
    };
    assert_eq!(sweep_donations(&mut ctx, 10), Err(VaultError::Unauthorized));
    assert_eq!(ctx.vault_lamports, 50);
    assert_eq!(ctx.authority_lamports, 0);
}

#[test]
fn sweep_rejects_overdraw_and_moves_nothing() {
    let mut ctx = Sweep {
        authority: ident(1),
        authority_lamports: 3,
        vault: Some(Faucet { authority: ident(1), mint: ident(2) }),
        vault_lamports: 5,
    };
    assert_eq!(sweep_donations(&mut ctx, 6), Err(VaultError::InsufficientFunds));
    assert_eq!(ctx.vault_lamports, 5);
    assert_eq!(ctx.authority_lamports, 3);
}

#[test]
fn sweep_rejects_uninitialized_vault() {
    let mut ctx = Sweep {
        authority: ident(1),
        authority_lamports: 0,
        vault: None,
        vault_lamports: 0,
    };
    assert_eq!(sweep_donations(&mut ctx, 1), Err(VaultError::NotInitialized));
}

#[test]
fn initialize_swap_sweep_scenario() {
    // Initialize with authority A (1) and mint M (2).
    let mut init = Initialize {
        authority: ident(1),
        token_mint: Mint { id: ident(2), authority: Some(ident(1)) },
        faucet: None,
    };
    assert_eq!(initialize(&mut init, &program_id()), Ok(()));

    // Swap by depositor D (6) with amount 5: vault +5, D's tokens +500.
    let mut swp = Swap {
        depositor_lamports: 20,
        receiver_token_account: TokenAccount { mint: ident(2), balance: 0 },
        token_mint: init.token_mint,
        faucet: init.faucet,
        faucet_lamports: 0,
    };
    assert_eq!(swap(&mut swp, &program_id(), 5), Ok(()));
    assert_eq!(swp.faucet_lamports, 5);
    assert_eq!(swp.receiver_token_account.balance, 500);
    assert_eq!(swp.depositor_lamports, 15);

    // Sweep by A of amount 5: vault 0, A's currency +5.
    let mut swe = Sweep {
        authority: ident(1),
        authority_lamports: 0,
        vault: swp.faucet,
        vault_lamports: swp.faucet_lamports,
    };
    assert_eq!(sweep_donations(&mut swe, 5), Ok(()));
    assert_eq!(swe.vault_lamports, 0);
    assert_eq!(swe.authority_lamports, 5);

    // Sweep by A of amount 1 now fails: the vault is empty.
    assert_eq!(sweep_donations(&mut swe, 1), Err(VaultError::InsufficientFunds));
    assert_eq!(swe.vault_lamports, 0);
    assert_eq!(swe.authority_lamports, 5);
}

#[test]
fn transfer_rejects_insufficient_funds() {
    let mut from: u64 = 3;
    let mut to: u64 = 1;
    assert_eq!(transfer_lamports(&mut from, &mut to, 4), Err(LedgerError::InsufficientFunds));
    assert_eq!((from, to), (3, 1));
    assert_eq!(transfer_lamports(&mut from, &mut to, 3), Ok(()));
    assert_eq!((from, to), (0, 4));
}

#[test]
fn transfer_rejects_credit_overflow() {
    let mut from: u64 = 10;
    let mut to: u64 = u64::MAX - 1;
    assert_eq!(transfer_lamports(&mut from, &mut to, 2), Err(LedgerError::BalanceOverflow));
    assert_eq!((from, to), (10, u64::MAX - 1));
}

#[test]
fn set_mint_authority_rejects_foreign_signer() {
    let mut mint = Mint { id: ident(2), authority: Some(ident(1)) };
    let r = set_mint_authority(&mut mint, ident(5), &ident(3));
    assert_eq!(r, Err(LedgerError::AuthorityMismatch));
    assert!(mint.authority.as_ref().unwrap().same_as(&ident(1)));
}

#[test]
fn mint_to_rejects_account_of_other_mint() {
    let mint = initialized_mint();
    let mut dest = TokenAccount { mint: ident(4), balance: 0 };
    assert_eq!(mint_to(&mint, &mut dest, 1, &vault_authority()), Err(LedgerError::MintMismatch));
    assert_eq!(dest.balance, 0);
}
