//! A model of the two ledger services the vault relies on: the fungible
//! token ledger (a mint with a recorded mint authority, and token accounts
//! holding balances) and the native currency ledger (plain balances moved by
//! checked transfers). Every primitive is atomic: it either applies its whole
//! effect or rejects and changes nothing.

use vstd::prelude::*;

use crate::identity::Identity;

verus! {

/// A token mint: the identity of the token, and the identity currently
/// permitted to create new units of it.
pub struct Mint {
    pub id: Identity,
    pub authority: Option<Identity>,
}

/// The mathematical value of a `Mint`.
#[verifier::ext_equal]
pub ghost struct MintV {
    pub id: Seq<u8>,
    pub authority: Option<Seq<u8>>,
}

impl View for Mint {
    type V = MintV;

    open spec fn view(&self) -> MintV {
        MintV {
            id: self.id@,
            authority: match self.authority {
                Some(a) => Some(a@),
                None => None,
            },
        }
    }
}

/// A token account: a balance of one mint's tokens.
pub struct TokenAccount {
    pub mint: Identity,
    pub balance: u64,
}

/// The mathematical value of a `TokenAccount`.
#[verifier::ext_equal]
pub ghost struct TokenAccountV {
    pub mint: Seq<u8>,
    pub balance: u64,
}

impl View for TokenAccount {
    type V = TokenAccountV;

    open spec fn view(&self) -> TokenAccountV {
        TokenAccountV { mint: self.mint@, balance: self.balance }
    }
}

/// Why a ledger primitive rejected an operation.
#[derive(Clone, Copy, Debug, PartialEq, Eq, Structural)]
pub enum LedgerError {
    /// The presented authority proof does not match the recorded authority.
    AuthorityMismatch,
    /// The destination token account does not belong to the mint.
    MintMismatch,
    /// The credited balance would exceed the amount representation.
    BalanceOverflow,
    /// The debited balance is smaller than the amount.
    InsufficientFunds,
}

/// When the token ledger accepts an authority transfer: the presented proof
/// must match the mint's current recorded authority.
pub open spec fn set_authority_accepts(mint: MintV, signer: Seq<u8>) -> bool {
    mint.authority == Some(signer)
}

/// The mint after an accepted authority transfer.
pub open spec fn set_authority_post(mint: MintV, new_authority: Seq<u8>) -> MintV {
    MintV { id: mint.id, authority: Some(new_authority) }
}

/// The token ledger's authority-transfer primitive: reassigns the mint
/// authority to `new_authority`, provided `signer` matches the current one.
pub fn set_mint_authority(mint: &mut Mint, new_authority: Identity, signer: &Identity) -> (r:
    Result<(), LedgerError>)
    ensures
        match r {
            Ok(()) => set_authority_accepts(old(mint)@, signer@) && final(mint)@
                == set_authority_post(old(mint)@, new_authority@),
            Err(e) => !set_authority_accepts(old(mint)@, signer@) && e
                == LedgerError::AuthorityMismatch && final(mint)@ == old(mint)@,
        },
{
    let held = match &mint.authority {
        Some(a) => a.same_as(signer),
        None => false,
    };
    if !held {
        return Err(LedgerError::AuthorityMismatch);
    }
    mint.authority = Some(new_authority);
    Ok(())
}

/// When the token ledger accepts a mint-to: the presented proof must match
/// the mint's recorded authority, the destination must belong to the mint,
/// and the credited balance must stay representable.
pub open spec fn mint_to_accepts(
    mint: MintV,
    dest: TokenAccountV,
    amount: u64,
    signer: Seq<u8>,
) -> bool {
    &&& mint.authority == Some(signer)
    &&& dest.mint == mint.id
    &&& dest.balance + amount <= u64::MAX
}

/// Which error a rejected mint-to reports.
pub open spec fn mint_to_error(
    mint: MintV,
    dest: TokenAccountV,
    amount: u64,
    signer: Seq<u8>,
) -> LedgerError {
    if mint.authority != Some(signer) {
        LedgerError::AuthorityMismatch
    } else if dest.mint != mint.id {
        LedgerError::MintMismatch
    } else {
        LedgerError::BalanceOverflow
    }
}

/// The destination after an accepted mint-to.
pub open spec fn mint_to_post(dest: TokenAccountV, amount: u64) -> TokenAccountV {
    TokenAccountV { mint: dest.mint, balance: (dest.balance + amount) as u64 }
}

/// The token ledger's mint-to primitive: creates `amount` new units of the
/// mint's token in `dest`, provided `signer` matches the mint's recorded
/// authority and the destination belongs to the mint.
pub fn mint_to(mint: &Mint, dest: &mut TokenAccount, amount: u64, signer: &Identity) -> (r: Result<
    (),
    LedgerError,
>)
    ensures
        match r {
            Ok(()) => mint_to_accepts(mint@, old(dest)@, amount, signer@) && final(dest)@
                == mint_to_post(old(dest)@, amount),
            Err(e) => !mint_to_accepts(mint@, old(dest)@, amount, signer@) && e == mint_to_error(
                mint@,
                old(dest)@,
                amount,
                signer@,
            ) && final(dest)@ == old(dest)@,
        },
{
    let held = match &mint.authority {
        Some(a) => a.same_as(signer),
        None => false,
    };
    if !held {
        return Err(LedgerError::AuthorityMismatch);
    }
    if !dest.mint.same_as(&mint.id) {
        return Err(LedgerError::MintMismatch);
    }
    if amount > u64::MAX - dest.balance {
        return Err(LedgerError::BalanceOverflow);
    }
    dest.balance = dest.balance + amount;
    Ok(())
}

/// When the native currency ledger accepts a transfer: the debited balance
/// must cover the amount and the credited balance must stay representable.
pub open spec fn transfer_accepts(from: u64, to: u64, amount: u64) -> bool {
    from >= amount && to + amount <= u64::MAX
}

/// Which error a rejected transfer reports.
pub open spec fn transfer_error(from: u64, to: u64, amount: u64) -> LedgerError {
    if from < amount {
        LedgerError::InsufficientFunds
    } else {
        LedgerError::BalanceOverflow
    }
}

/// The native currency ledger's transfer primitive: moves `amount` units
/// from one balance to another, rejecting on insufficient funds and never
/// letting a balance wrap around.
pub fn transfer_lamports(from: &mut u64, to: &mut u64, amount: u64) -> (r: Result<(), LedgerError>)
    ensures
        match r {
            Ok(()) => transfer_accepts(*old(from), *old(to), amount) && *final(from) == *old(from)
                - amount && *final(to) == *old(to) + amount,
            Err(e) => !transfer_accepts(*old(from), *old(to), amount) && e == transfer_error(
                *old(from),
                *old(to),
                amount,
            ) && *final(from) == *old(from) && *final(to) == *old(to),
        },
{
    if *from < amount {
        return Err(LedgerError::InsufficientFunds);
    }
    if amount > u64::MAX - *to {
        return Err(LedgerError::BalanceOverflow);
    }
    *from = *from - amount;
    *to = *to + amount;
    Ok(())
}

} // verus!
