use crate::address::{canonical_nonce, find_nonce, Address, AuthorityHandle, SeedTag};
use vstd::prelude::*;

verus! {

/// Why an instruction was refused. Every check runs before any balance moves.
#[derive(Clone, Copy, Debug, PartialEq, Eq, Structural)]
pub enum VaultError {
    /// The signer is not the vault's controller, or did not sign, or an
    /// account is not owned by the re-derived authority.
    Authorization,
    /// A stored nonce does not reproduce the address that was supplied.
    DerivationMismatch,
    /// The instruction needs setup that has not happened yet.
    UninitializedState,
    /// The paying account holds less than the amount.
    InsufficientBalance,
    /// A record already exists at the target address.
    DuplicateInitialization,
    /// A token account holds another token than the one named.
    MintMismatch,
    /// The receiving balance would pass the largest `u64`.
    BalanceOverflow,
}

/// The durable record of a vault.
#[derive(Clone, Copy, Debug, PartialEq, Eq)]
pub struct DepositBase {
    /// The controller: the one identity that may operate the vault.
    pub deposit_auth: Address,
    /// The nonce of the signing authority (tag `auth`, the record's address).
    pub auth_bump: u8,
    /// The nonce of the native sub-account (tag `sol_vault`, the authority's
    /// address); absent until the first native deposit, then fixed.
    pub sol_vault_bump: Option<u8>,
}

/// The account that holds a vault record.
#[derive(Clone, Copy, Debug, PartialEq, Eq)]
pub struct RecordAccount {
    pub key: Address,
    pub data: DepositBase,
}

/// An account that holds native currency.
#[derive(Clone, Copy, Debug, PartialEq, Eq)]
pub struct NativeAccount {
    pub key: Address,
    pub lamports: u64,
    /// Whether the request carries this account's signature.
    pub is_signer: bool,
}

/// A token-holding account: a balance of one token, owned by one address.
#[derive(Clone, Copy, Debug, PartialEq, Eq)]
pub struct TokenAccount {
    pub key: Address,
    pub mint: Address,
    pub owner: Address,
    pub amount: u64,
}

/// The accounts of one request, with the program that handles it.
#[derive(Clone, Copy, Debug, PartialEq, Eq)]
pub struct Context<T> {
    pub program_id: Address,
    pub accounts: T,
}

/// The accounts of `initialize`.
#[derive(Clone, Copy, Debug, PartialEq, Eq)]
pub struct Initialize {
    /// Where the record is to be created.
    pub deposit_account: Address,
    /// Whether a record already stands there.
    pub deposit_account_in_use: bool,
    pub pda_auth: Address,
    pub deposit_auth: NativeAccount,
}

/// The accounts of `deposit_native`.
#[derive(Clone, Copy, Debug, PartialEq, Eq)]
pub struct DepositNative {
    pub deposit_account: RecordAccount,
    pub pda_auth: Address,
    pub sol_vault: NativeAccount,
    pub deposit_auth: NativeAccount,
}

/// The accounts of `withdraw_native`.
#[derive(Clone, Copy, Debug, PartialEq, Eq)]
pub struct WithdrawNative {
    pub deposit_account: RecordAccount,
    pub pda_auth: Address,
    pub sol_vault: NativeAccount,
    pub deposit_auth: NativeAccount,
}

/// The accounts of `deposit_spl`.
#[derive(Clone, Copy, Debug, PartialEq, Eq)]
pub struct DepositSpl {
    pub deposit_account: RecordAccount,
    pub pda_auth: Address,
    pub deposit_auth: NativeAccount,
    /// The vault's account for the token, owned by the authority.
    pub to_token_acct: TokenAccount,
    /// The controller's account for the token.
    pub from_token_acct: TokenAccount,
    pub token_mint: Address,
}

/// The accounts of `withdraw_spl`.
#[derive(Clone, Copy, Debug, PartialEq, Eq)]
pub struct WithdrawSpl {
    pub deposit_account: RecordAccount,
    pub pda_auth: Address,
    pub deposit_auth: NativeAccount,
    /// The account that the controller names as destination.
    pub to_token_acct: TokenAccount,
    /// The vault's account for the token, owned by the authority.
    pub from_token_acct: TokenAccount,
    pub token_mint: Address,
}

/// A movement of value for the ledger to carry out: `amount` from `from` to
/// `to`, signed by the derived authority `signer` where there is one, else
/// by the controller.
#[derive(Clone, Copy, Debug, PartialEq, Eq)]
pub struct Transfer {
    pub from: Address,
    pub to: Address,
    pub amount: u64,
    pub signer: Option<AuthorityHandle>,
}

/// `signer` signed the request and is the vault's controller.
pub open spec fn authorized(signer: NativeAccount, record: DepositBase) -> bool {
    signer.is_signer && signer.key@ == record.deposit_auth@
}

/// The handle of (`tag`, `parent`, `nonce`) yields exactly `target`.
pub open spec fn rederives(tag: SeedTag, parent: Address, nonce: u8, program_id: Address, target: Address) -> bool {
    (AuthorityHandle { seed_tag: tag, parent, nonce }).address_of(program_id) == Some(target@)
}

/// The vault's signing authority yields the supplied `pda_auth`.
pub open spec fn authority_matches(program_id: Address, record: RecordAccount, pda_auth: Address) -> bool {
    rederives(SeedTag::Auth, record.key, record.data.auth_bump, program_id, pda_auth)
}

/// The nonce that a native deposit uses for the sub-account: the stored one,
/// else the canonical one.
pub open spec fn sub_account_nonce(c: Context<DepositNative>) -> Option<u8> {
    match c.accounts.deposit_account.data.sol_vault_bump {
        Some(b) => Some(b),
        None => canonical_nonce(SeedTag::SolVault, c.accounts.pda_auth, c.program_id),
    }
}

/// What `deposit_native` does: the accounts after it and the transfer, or the
/// error.
pub open spec fn deposit_native_spec(c: Context<DepositNative>, amount: u64) -> Result<(DepositNative, Transfer), VaultError> {
    let a = c.accounts;
    if !authorized(a.deposit_auth, a.deposit_account.data) {
        Err(VaultError::Authorization)
    } else if !authority_matches(c.program_id, a.deposit_account, a.pda_auth) {
        Err(VaultError::DerivationMismatch)
    } else {
        match sub_account_nonce(c) {
            None => Err(VaultError::DerivationMismatch),
            Some(b) => if !rederives(SeedTag::SolVault, a.pda_auth, b, c.program_id, a.sol_vault.key) {
                Err(VaultError::DerivationMismatch)
            } else if a.deposit_auth.lamports < amount {
                Err(VaultError::InsufficientBalance)
            } else if a.sol_vault.lamports + amount > u64::MAX {
                Err(VaultError::BalanceOverflow)
            } else {
                Ok((
                    DepositNative {
                        deposit_account: RecordAccount {
                            data: DepositBase { sol_vault_bump: Some(b), ..a.deposit_account.data },
                            ..a.deposit_account
                        },
                        sol_vault: NativeAccount { lamports: (a.sol_vault.lamports + amount) as u64, ..a.sol_vault },
                        deposit_auth: NativeAccount { lamports: (a.deposit_auth.lamports - amount) as u64, ..a.deposit_auth },
                        ..a
                    },
                    Transfer { from: a.deposit_auth.key, to: a.sol_vault.key, amount, signer: None },
                ))
            },
        }
    }
}

/// What `withdraw_native` does.
pub open spec fn withdraw_native_spec(c: Context<WithdrawNative>, amount: u64) -> Result<(WithdrawNative, Transfer), VaultError> {
    let a = c.accounts;
    if !authorized(a.deposit_auth, a.deposit_account.data) {
        Err(VaultError::Authorization)
    } else {
        match a.deposit_account.data.sol_vault_bump {
            None => Err(VaultError::UninitializedState),
            Some(b) => if !authority_matches(c.program_id, a.deposit_account, a.pda_auth) {
                Err(VaultError::DerivationMismatch)
            } else if !rederives(SeedTag::SolVault, a.pda_auth, b, c.program_id, a.sol_vault.key) {
                Err(VaultError::DerivationMismatch)
            } else if a.sol_vault.lamports < amount {
                Err(VaultError::InsufficientBalance)
            } else if a.deposit_auth.lamports + amount > u64::MAX {
                Err(VaultError::BalanceOverflow)
            } else {
                Ok((
                    WithdrawNative {
                        sol_vault: NativeAccount { lamports: (a.sol_vault.lamports - amount) as u64, ..a.sol_vault },
                        deposit_auth: NativeAccount { lamports: (a.deposit_auth.lamports + amount) as u64, ..a.deposit_auth },
                        ..a
                    },
                    Transfer {
                        from: a.sol_vault.key,
                        to: a.deposit_auth.key,
                        amount,
                        signer: Some(AuthorityHandle { seed_tag: SeedTag::SolVault, parent: a.pda_auth, nonce: b }),
                    },
                ))
            },
        }
    }
}

/// What `initialize` does: the new record, or the error.
pub open spec fn initialize_spec(c: Context<Initialize>) -> Result<DepositBase, VaultError> {
    let a = c.accounts;
    if !a.deposit_auth.is_signer {
        Err(VaultError::Authorization)
    } else if a.deposit_account_in_use {
        Err(VaultError::DuplicateInitialization)
    } else {
        match canonical_nonce(SeedTag::Auth, a.deposit_account, c.program_id) {
            None => Err(VaultError::DerivationMismatch),
            Some(b) => if !rederives(SeedTag::Auth, a.deposit_account, b, c.program_id, a.pda_auth) {
                Err(VaultError::DerivationMismatch)
            } else {
                Ok(DepositBase { deposit_auth: a.deposit_auth.key, auth_bump: b, sol_vault_bump: None })
            },
        }
    }
}

/// What the ledger's token transfer does to the two accounts, both of which
/// must hold `mint`.
pub open spec fn token_transfer_spec(from: TokenAccount, to: TokenAccount, mint: Address, amount: u64) -> Result<(TokenAccount, TokenAccount), VaultError> {
    if from.mint@ != mint@ || to.mint@ != mint@ {
        Err(VaultError::MintMismatch)
    } else if from.amount < amount {
        Err(VaultError::InsufficientBalance)
    } else if to.amount + amount > u64::MAX {
        Err(VaultError::BalanceOverflow)
    } else {
        Ok((
            TokenAccount { amount: (from.amount - amount) as u64, ..from },
            TokenAccount { amount: (to.amount + amount) as u64, ..to },
        ))
    }
}

/// What `deposit_spl` does.
pub open spec fn deposit_spl_spec(c: Context<DepositSpl>, amount: u64) -> Result<(DepositSpl, Transfer), VaultError> {
    let a = c.accounts;
    if !authorized(a.deposit_auth, a.deposit_account.data) {
        Err(VaultError::Authorization)
    } else if !authority_matches(c.program_id, a.deposit_account, a.pda_auth) {
        Err(VaultError::DerivationMismatch)
    } else if a.to_token_acct.owner@ != a.pda_auth@ || a.from_token_acct.owner@ != a.deposit_auth.key@ {
        Err(VaultError::Authorization)
    } else {
        match token_transfer_spec(a.from_token_acct, a.to_token_acct, a.token_mint, amount) {
            Err(e) => Err(e),
            Ok((f, t)) => Ok((
                DepositSpl { from_token_acct: f, to_token_acct: t, ..a },
                Transfer { from: a.from_token_acct.key, to: a.to_token_acct.key, amount, signer: None },
            )),
        }
    }
}

/// The signing authority of the vault whose record is `record`.
pub open spec fn authority_of(record: RecordAccount) -> AuthorityHandle {
    AuthorityHandle { seed_tag: SeedTag::Auth, parent: record.key, nonce: record.data.auth_bump }
}

/// What `withdraw_spl` does.
pub open spec fn withdraw_spl_spec(c: Context<WithdrawSpl>, amount: u64) -> Result<(WithdrawSpl, Transfer), VaultError> {
    let a = c.accounts;
    let h = authority_of(a.deposit_account);
    if !authorized(a.deposit_auth, a.deposit_account.data) {
        Err(VaultError::Authorization)
    } else {
        match h.address_of(c.program_id) {
            None => Err(VaultError::DerivationMismatch),
            Some(x) => if a.from_token_acct.owner@ != x {
                Err(VaultError::Authorization)
            } else if a.pda_auth@ != x {
                Err(VaultError::DerivationMismatch)
            } else {
                match token_transfer_spec(a.from_token_acct, a.to_token_acct, a.token_mint, amount) {
                    Err(e) => Err(e),
                    Ok((f, t)) => Ok((
                        WithdrawSpl { from_token_acct: f, to_token_acct: t, ..a },
                        Transfer { from: a.from_token_acct.key, to: a.to_token_acct.key, amount, signer: Some(h) },
                    )),
                }
            },
        }
    }
}

/// Checks that `signer` signed and is the controller of `record`.
pub(crate) fn check_controller(signer: &NativeAccount, record: &DepositBase) -> (r: Result<(), VaultError>)
    ensures
        r is Ok <==> authorized(*signer, *record),
        r is Err ==> r == Err::<(), VaultError>(VaultError::Authorization),
{
    if signer.is_signer && signer.key.same_as(&record.deposit_auth) {
        Ok(())
    } else {
        Err(VaultError::Authorization)
    }
}

/// Checks that the handle of (`tag`, `parent`, `nonce`) yields `target`.
pub(crate) fn check_derivation(tag: SeedTag, parent: &Address, nonce: u8, program_id: &Address, target: &Address) -> (r: Result<(), VaultError>)
    ensures
        r is Ok <==> rederives(tag, *parent, nonce, *program_id, *target),
        r is Err ==> r == Err::<(), VaultError>(VaultError::DerivationMismatch),
{
    let handle = AuthorityHandle { seed_tag: tag, parent: *parent, nonce };
    if handle.rederives_to(program_id, target) {
        Ok(())
    } else {
        Err(VaultError::DerivationMismatch)
    }
}

/// Moves `amount` of native currency from the controller into the vault's
/// sub-account. The first deposit finds the sub-account's canonical nonce and
/// stores it; later ones re-derive the sub-account from the stored nonce.
pub fn deposit_native(ctx: &mut Context<DepositNative>, amount: u64) -> (r: Result<Transfer, VaultError>)
    ensures
        match deposit_native_spec(*old(ctx), amount) {
            Ok((post, t)) => r == Ok::<Transfer, VaultError>(t) && final(ctx).accounts == post
                && final(ctx).program_id == old(ctx).program_id,
            Err(e) => r == Err::<Transfer, VaultError>(e) && *final(ctx) == *old(ctx),
        },
{
    let pid = ctx.program_id;
    let a = ctx.accounts;
    check_controller(&a.deposit_auth, &a.deposit_account.data)?;
    check_derivation(SeedTag::Auth, &a.deposit_account.key, a.deposit_account.data.auth_bump, &pid, &a.pda_auth)?;
    let nonce = match a.deposit_account.data.sol_vault_bump {
        Some(b) => b,
        None => match find_nonce(SeedTag::SolVault, &a.pda_auth, &pid) {
            Some((_, b)) => b,
            None => return Err(VaultError::DerivationMismatch),
        },
    };
    check_derivation(SeedTag::SolVault, &a.pda_auth, nonce, &pid, &a.sol_vault.key)?;
    if a.deposit_auth.lamports < amount {
        return Err(VaultError::InsufficientBalance);
    }
    if a.sol_vault.lamports > u64::MAX - amount {
        return Err(VaultError::BalanceOverflow);
    }
    ctx.accounts.deposit_account.data.sol_vault_bump = Some(nonce);
    ctx.accounts.deposit_auth.lamports = a.deposit_auth.lamports - amount;
    ctx.accounts.sol_vault.lamports = a.sol_vault.lamports + amount;
    Ok(Transfer { from: a.deposit_auth.key, to: a.sol_vault.key, amount, signer: None })
}

/// Moves `amount` of native currency from the vault's sub-account back to the
/// controller, signed by the sub-account's derived handle.
pub fn withdraw_native(ctx: &mut Context<WithdrawNative>, amount: u64) -> (r: Result<Transfer, VaultError>)
    ensures
        match withdraw_native_spec(*old(ctx), amount) {
            Ok((post, t)) => r == Ok::<Transfer, VaultError>(t) && final(ctx).accounts == post
                && final(ctx).program_id == old(ctx).program_id,
            Err(e) => r == Err::<Transfer, VaultError>(e) && *final(ctx) == *old(ctx),
        },
{
    let pid = ctx.program_id;
    let a = ctx.accounts;
    check_controller(&a.deposit_auth, &a.deposit_account.data)?;
    let nonce = match a.deposit_account.data.sol_vault_bump {
        Some(b) => b,
        None => return Err(VaultError::UninitializedState),
    };
    check_derivation(SeedTag::Auth, &a.deposit_account.key, a.deposit_account.data.auth_bump, &pid, &a.pda_auth)?;
    check_derivation(SeedTag::SolVault, &a.pda_auth, nonce, &pid, &a.sol_vault.key)?;
    if a.sol_vault.lamports < amount {
        return Err(VaultError::InsufficientBalance);
    }
    if a.deposit_auth.lamports > u64::MAX - amount {
        return Err(VaultError::BalanceOverflow);
    }
    ctx.accounts.sol_vault.lamports = a.sol_vault.lamports - amount;
    ctx.accounts.deposit_auth.lamports = a.deposit_auth.lamports + amount;
    Ok(Transfer {
        from: a.sol_vault.key,
        to: a.deposit_auth.key,
        amount,
        signer: Some(AuthorityHandle { seed_tag: SeedTag::SolVault, parent: a.pda_auth, nonce }),
    })
}

/// Creates the record of a vault for the signer of the request, with the
/// canonical nonce of its signing authority.
pub fn initialize(ctx: &Context<Initialize>) -> (r: Result<DepositBase, VaultError>)
    ensures
        r == initialize_spec(*ctx),
{
    let a = ctx.accounts;
    if !a.deposit_auth.is_signer {
        return Err(VaultError::Authorization);
    }
    if a.deposit_account_in_use {
        return Err(VaultError::DuplicateInitialization);
    }
    let nonce = match find_nonce(SeedTag::Auth, &a.deposit_account, &ctx.program_id) {
        Some((_, b)) => b,
        None => return Err(VaultError::DerivationMismatch),
    };
    check_derivation(SeedTag::Auth, &a.deposit_account, nonce, &ctx.program_id, &a.pda_auth)?;
    Ok(DepositBase { deposit_auth: a.deposit_auth.key, auth_bump: nonce, sol_vault_bump: None })
}

/// Moves `amount` of `mint` from `from` to `to` in this library's view of the
/// two balances, with the checks that the token ledger applies to a transfer.
pub fn token_transfer(from: &mut TokenAccount, to: &mut TokenAccount, mint: &Address, amount: u64) -> (r: Result<(), VaultError>)
    ensures
        match token_transfer_spec(*old(from), *old(to), *mint, amount) {
            Ok((f, t)) => r is Ok && *final(from) == f && *final(to) == t,
            Err(e) => r == Err::<(), VaultError>(e) && *final(from) == *old(from) && *final(to) == *old(to),
        },
{
    if !from.mint.same_as(mint) || !to.mint.same_as(mint) {
        return Err(VaultError::MintMismatch);
    }
    if from.amount < amount {
        return Err(VaultError::InsufficientBalance);
    }
    if to.amount > u64::MAX - amount {
        return Err(VaultError::BalanceOverflow);
    }
    from.amount = from.amount - amount;
    to.amount = to.amount + amount;
    Ok(())
}

/// Moves `amount` of a token from the controller's account into the vault's
/// account for it, which the signing authority owns.
pub fn deposit_spl(ctx: &mut Context<DepositSpl>, amount: u64) -> (r: Result<Transfer, VaultError>)
    ensures
        match deposit_spl_spec(*old(ctx), amount) {
            Ok((post, t)) => r == Ok::<Transfer, VaultError>(t) && final(ctx).accounts == post
                && final(ctx).program_id == old(ctx).program_id,
            Err(e) => r == Err::<Transfer, VaultError>(e) && *final(ctx) == *old(ctx),
        },
{
    let pid = ctx.program_id;
    let a = ctx.accounts;
    check_controller(&a.deposit_auth, &a.deposit_account.data)?;
    check_derivation(SeedTag::Auth, &a.deposit_account.key, a.deposit_account.data.auth_bump, &pid, &a.pda_auth)?;
    if !a.to_token_acct.owner.same_as(&a.pda_auth) || !a.from_token_acct.owner.same_as(&a.deposit_auth.key) {
        return Err(VaultError::Authorization);
    }
    token_transfer(&mut ctx.accounts.from_token_acct, &mut ctx.accounts.to_token_acct, &a.token_mint, amount)?;
    Ok(Transfer { from: a.from_token_acct.key, to: a.to_token_acct.key, amount, signer: None })
}

/// Moves `amount` of a token from the vault's account to the account that the
/// controller names, signed by the vault's authority. The authority is derived
/// again from the stored nonce, and the source account must be its own.
pub fn withdraw_spl(ctx: &mut Context<WithdrawSpl>, amount: u64) -> (r: Result<Transfer, VaultError>)
    ensures
        match withdraw_spl_spec(*old(ctx), amount) {
            Ok((post, t)) => r == Ok::<Transfer, VaultError>(t) && final(ctx).accounts == post
                && final(ctx).program_id == old(ctx).program_id,
            Err(e) => r == Err::<Transfer, VaultError>(e) && *final(ctx) == *old(ctx),
        },
{
    let pid = ctx.program_id;
    let a = ctx.accounts;
    check_controller(&a.deposit_auth, &a.deposit_account.data)?;
    let handle = AuthorityHandle {
        seed_tag: SeedTag::Auth,
        parent: a.deposit_account.key,
        nonce: a.deposit_account.data.auth_bump,
    };
    let authority = match handle.derive(&pid) {
        Some(x) => x,
        None => return Err(VaultError::DerivationMismatch),
    };
    if !a.from_token_acct.owner.same_as(&authority) {
        return Err(VaultError::Authorization);
    }
    if !a.pda_auth.same_as(&authority) {
        return Err(VaultError::DerivationMismatch);
    }
    token_transfer(&mut ctx.accounts.from_token_acct, &mut ctx.accounts.to_token_acct, &a.token_mint, amount)?;
    Ok(Transfer { from: a.from_token_acct.key, to: a.to_token_acct.key, amount, signer: Some(handle) })
}

} // verus!
