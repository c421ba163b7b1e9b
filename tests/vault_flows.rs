use deposit_vault::address::{find_nonce, Address, AuthorityHandle, SeedTag};
use deposit_vault::listing::{create_limit, Asset, CreateLimit};
use deposit_vault::vault::{
    deposit_native, deposit_spl, initialize, token_transfer, withdraw_native, withdraw_spl,
    Context, DepositBase, DepositNative, DepositSpl, Initialize, NativeAccount, RecordAccount,
    TokenAccount, VaultError, WithdrawNative, WithdrawSpl,
};
use solana_program::pubkey::Pubkey;

struct Setup {
    program_id: Address,
    vault: Address,
    controller: Address,
    pda_auth: Address,
    auth_bump: u8,
    sol_vault: Address,
    sol_bump: u8,
}

fn addr(p: &Pubkey) -> Address {
    Address::new(p.to_bytes())
}

fn key(n: u8) -> Address {
    Address::new([n; 32])
}

fn setup() -> Setup {
    let pid = Pubkey::new_from_array([7; 32]);
    let vault = Pubkey::new_from_array([9; 32]);
    let (auth, auth_bump) = Pubkey::find_program_address(&[b"auth", vault.as_ref()], &pid);
    let (sv, sol_bump) = Pubkey::find_program_address(&[b"sol_vault", auth.as_ref()], &pid);
    Setup {
        program_id: addr(&pid),
        vault: addr(&vault),
        controller: key(1),
        pda_auth: addr(&auth),
        auth_bump,
        sol_vault: addr(&sv),
        sol_bump,
    }
}

fn signer(k: Address, lamports: u64) -> NativeAccount {
    NativeAccount { key: k, lamports, is_signer: true }
}

fn record(s: &Setup, sol_vault_bump: Option<u8>) -> RecordAccount {
    RecordAccount {
        key: s.vault,
        data: DepositBase { deposit_auth: s.controller, auth_bump: s.auth_bump, sol_vault_bump },
    }
}

fn native_ctx(s: &Setup, bump: Option<u8>, controller: u64, vault: u64) -> Context<DepositNative> {
    Context {
        program_id: s.program_id,
        accounts: DepositNative {
            deposit_account: record(s, bump),
            pda_auth: s.pda_auth,
            sol_vault: NativeAccount { key: s.sol_vault, lamports: vault, is_signer: false },
            deposit_auth: signer(s.controller, controller),
        },
    }
}

fn withdraw_ctx(d: &Context<DepositNative>) -> Context<WithdrawNative> {
    let a = d.accounts;
    Context {
        program_id: d.program_id,
        accounts: WithdrawNative {
            deposit_account: a.deposit_account,
            pda_auth: a.pda_auth,
            sol_vault: a.sol_vault,
            deposit_auth: a.deposit_auth,
        },
    }
}

fn token(k: u8, mint: Address, owner: Address, amount: u64) -> TokenAccount {
    TokenAccount { key: key(k), mint, owner, amount }
}

fn spl_deposit_ctx(s: &Setup, from_amount: u64, to_amount: u64) -> Context<DepositSpl> {
    let mint = key(50);
    Context {
        program_id: s.program_id,
        accounts: DepositSpl {
            deposit_account: record(s, None),
            pda_auth: s.pda_auth,
            deposit_auth: signer(s.controller, 10),
            to_token_acct: token(60, mint, s.pda_auth, to_amount),
            from_token_acct: token(61, mint, s.controller, from_amount),
            token_mint: mint,
        },
    }
}

fn spl_withdraw_ctx(s: &Setup, vault_amount: u64, dest_amount: u64) -> Context<WithdrawSpl> {
    let mint = key(50);
    Context {
        program_id: s.program_id,
        accounts: WithdrawSpl {
            deposit_account: record(s, None),
            pda_auth: s.pda_auth,
            deposit_auth: signer(s.controller, 10),
            to_token_acct: token(61, mint, s.controller, dest_amount),
            from_token_acct: token(60, mint, s.pda_auth, vault_amount),
            token_mint: mint,
        },
    }
}

fn limit_ctx(s: &Setup, who: Address) -> Context<CreateLimit> {
    Context {
        program_id: s.program_id,
        accounts: CreateLimit {
            deposit_account: record(s, None),
            pda_auth: s.pda_auth,
            deposit_auth: signer(who, 10),
            token_mint: key(50),
            ask_token_mint: key(51),
        },
    }
}

#[test]
fn derivation_matches_ledger_and_is_deterministic() {
    let s = setup();
    let h = AuthorityHandle { seed_tag: SeedTag::Auth, parent: s.vault, nonce: s.auth_bump };
    let first = h.derive(&s.program_id);
    let second = h.derive(&s.program_id);
    assert_eq!(first, Some(s.pda_auth));
    assert_eq!(first, second);
    let v = AuthorityHandle { seed_tag: SeedTag::SolVault, parent: s.pda_auth, nonce: s.sol_bump };
    assert_eq!(v.derive(&s.program_id), Some(s.sol_vault));
    assert!(v.rederives_to(&s.program_id, &s.sol_vault));
    assert!(!v.rederives_to(&s.program_id, &s.pda_auth));
}

#[test]
fn derivation_on_the_curve_gives_none() {
    let s = setup();
    let pid = Pubkey::new_from_array(s.program_id.bytes);
    let vault = Pubkey::new_from_array(s.vault.bytes);
    let mut found = false;
    for n in 0..=255u8 {
        let ledger = Pubkey::create_program_address(&[b"auth", vault.as_ref(), &[n]], &pid);
        let h = AuthorityHandle { seed_tag: SeedTag::Auth, parent: s.vault, nonce: n };
        match ledger {
            Ok(k) => assert_eq!(h.derive(&s.program_id), Some(addr(&k))),
            Err(_) => {
                assert_eq!(h.derive(&s.program_id), None);
                found = true;
            }
        }
    }
    assert!(found);
}

#[test]
fn find_nonce_gives_canonical_nonce() {
    let s = setup();
    assert_eq!(find_nonce(SeedTag::Auth, &s.vault, &s.program_id), Some((s.pda_auth, s.auth_bump)));
    assert_eq!(
        find_nonce(SeedTag::SolVault, &s.pda_auth, &s.program_id),
        Some((s.sol_vault, s.sol_bump))
    );
}

#[test]
fn initialize_binds_controller_and_nonce() {
    let s = setup();
    let ctx = Context {
        program_id: s.program_id,
        accounts: Initialize {
            deposit_account: s.vault,
            deposit_account_in_use: false,
            pda_auth: s.pda_auth,
            deposit_auth: signer(s.controller, 10),
        },
    };
    let r = initialize(&ctx).unwrap();
    assert_eq!(r.deposit_auth, s.controller);
    assert_eq!(r.auth_bump, s.auth_bump);
    assert_eq!(r.sol_vault_bump, None);
}

#[test]
fn initialize_errors() {
    let s = setup();
    let base = Initialize {
        deposit_account: s.vault,
        deposit_account_in_use: false,
        pda_auth: s.pda_auth,
        deposit_auth: signer(s.controller, 10),
    };
    let mut a = base;
    a.deposit_account_in_use = true;
    let ctx = Context { program_id: s.program_id, accounts: a };
    assert_eq!(initialize(&ctx), Err(VaultError::DuplicateInitialization));
    let mut a = base;
    a.deposit_auth.is_signer = false;
    let ctx = Context { program_id: s.program_id, accounts: a };
    assert_eq!(initialize(&ctx), Err(VaultError::Authorization));
    let mut a = base;
    a.pda_auth = key(3);
    let ctx = Context { program_id: s.program_id, accounts: a };
    assert_eq!(initialize(&ctx), Err(VaultError::DerivationMismatch));
}

#[test]
fn end_to_end_native() {
    let s = setup();
    let mut d = native_ctx(&s, None, 5000, 0);
    let t = deposit_native(&mut d, 1000).unwrap();
    assert_eq!(t.from, s.controller);
    assert_eq!(t.to, s.sol_vault);
    assert_eq!(t.amount, 1000);
    assert_eq!(t.signer, None);
    assert_eq!(d.accounts.deposit_account.data.sol_vault_bump, Some(s.sol_bump));
    let after_deposit = d.accounts.deposit_auth.lamports;
    assert_eq!(after_deposit, 4000);
    assert_eq!(d.accounts.sol_vault.lamports, 1000);
    let mut w = withdraw_ctx(&d);
    let t = withdraw_native(&mut w, 400).unwrap();
    assert_eq!(t.from, s.sol_vault);
    assert_eq!(t.to, s.controller);
    assert_eq!(
        t.signer,
        Some(AuthorityHandle { seed_tag: SeedTag::SolVault, parent: s.pda_auth, nonce: s.sol_bump })
    );
    assert_eq!(w.accounts.sol_vault.lamports, 600);
    assert_eq!(w.accounts.deposit_auth.lamports, after_deposit + 400);
}

#[test]
fn repeat_deposit_reaches_same_sub_account() {
    let s = setup();
    let mut d = native_ctx(&s, None, 1000, 0);
    let t1 = deposit_native(&mut d, 100).unwrap();
    let bump = d.accounts.deposit_account.data.sol_vault_bump;
    let t2 = deposit_native(&mut d, 50).unwrap();
    assert_eq!(t1.to, t2.to);
    assert_eq!(d.accounts.deposit_account.data.sol_vault_bump, bump);
    assert_eq!(d.accounts.sol_vault.lamports, 150);
}

#[test]
fn withdraw_before_deposit_is_uninitialized() {
    let s = setup();
    let d = native_ctx(&s, None, 1000, 500);
    let mut w = withdraw_ctx(&d);
    let before = w;
    assert_eq!(withdraw_native(&mut w, 10), Err(VaultError::UninitializedState));
    assert_eq!(w, before);
}

#[test]
fn only_the_controller_operates() {
    let s = setup();
    let other = key(2);
    let mut d = native_ctx(&s, Some(s.sol_bump), 1000, 1000);
    d.accounts.deposit_auth.key = other;
    let before = d;
    assert_eq!(deposit_native(&mut d, 1), Err(VaultError::Authorization));
    assert_eq!(d, before);
    let mut w = withdraw_ctx(&d);
    assert_eq!(withdraw_native(&mut w, 1), Err(VaultError::Authorization));
    let mut ds = spl_deposit_ctx(&s, 100, 0);
    ds.accounts.deposit_auth.key = other;
    assert_eq!(deposit_spl(&mut ds, 1), Err(VaultError::Authorization));
    let mut ws = spl_withdraw_ctx(&s, 100, 0);
    ws.accounts.deposit_auth.key = other;
    assert_eq!(withdraw_spl(&mut ws, 1), Err(VaultError::Authorization));
    let cl = limit_ctx(&s, other);
    assert!(matches!(create_limit(&cl, Asset::blank(), 5), Err(VaultError::Authorization)));
    let mut unsigned = native_ctx(&s, Some(s.sol_bump), 1000, 1000);
    unsigned.accounts.deposit_auth.is_signer = false;
    assert_eq!(deposit_native(&mut unsigned, 1), Err(VaultError::Authorization));
}

#[test]
fn native_conservation() {
    let s = setup();
    let mut d = native_ctx(&s, None, 700, 20);
    deposit_native(&mut d, 300).unwrap();
    let mut w = withdraw_ctx(&d);
    withdraw_native(&mut w, 120).unwrap();
    let controller_after = w.accounts.deposit_auth.lamports;
    let vault_delta = w.accounts.sol_vault.lamports - 20;
    assert_eq!(controller_after, 520);
    assert_eq!(700, controller_after + vault_delta);
}

#[test]
fn token_conservation() {
    let s = setup();
    let mut d = spl_deposit_ctx(&s, 900, 5);
    let t = deposit_spl(&mut d, 250).unwrap();
    assert_eq!(t.from, key(61));
    assert_eq!(t.to, key(60));
    assert_eq!(d.accounts.from_token_acct.amount, 650);
    assert_eq!(d.accounts.to_token_acct.amount, 255);
    let mut w = spl_withdraw_ctx(&s, d.accounts.to_token_acct.amount, d.accounts.from_token_acct.amount);
    let t = withdraw_spl(&mut w, 100).unwrap();
    assert_eq!(
        t.signer,
        Some(AuthorityHandle { seed_tag: SeedTag::Auth, parent: s.vault, nonce: s.auth_bump })
    );
    assert_eq!(w.accounts.from_token_acct.amount, 155);
    assert_eq!(w.accounts.to_token_acct.amount, 750);
    assert_eq!(900, w.accounts.to_token_acct.amount + (w.accounts.from_token_acct.amount - 5));
}

#[test]
fn substituted_token_account_is_refused() {
    let s = setup();
    for amount in [0u64, 1, 100, u64::MAX] {
        let mut w = spl_withdraw_ctx(&s, 100, 0);
        w.accounts.from_token_acct.owner = key(4);
        let before = w;
        assert_eq!(withdraw_spl(&mut w, amount), Err(VaultError::Authorization));
        assert_eq!(w, before);
    }
}

#[test]
fn withdraw_spl_needs_matching_authority_account() {
    let s = setup();
    let mut w = spl_withdraw_ctx(&s, 100, 0);
    w.accounts.pda_auth = key(4);
    assert_eq!(withdraw_spl(&mut w, 1), Err(VaultError::DerivationMismatch));
    let mut w = spl_withdraw_ctx(&s, 100, 0);
    w.accounts.deposit_account.data.auth_bump = s.auth_bump.wrapping_sub(1);
    assert!(matches!(
        withdraw_spl(&mut w, 1),
        Err(VaultError::DerivationMismatch) | Err(VaultError::Authorization)
    ));
}

#[test]
fn native_balance_errors() {
    let s = setup();
    let mut d = native_ctx(&s, None, 10, 0);
    assert_eq!(deposit_native(&mut d, 11), Err(VaultError::InsufficientBalance));
    assert_eq!(d.accounts.deposit_account.data.sol_vault_bump, None);
    let mut d = native_ctx(&s, None, 10, u64::MAX);
    assert_eq!(deposit_native(&mut d, 1), Err(VaultError::BalanceOverflow));
    let d = native_ctx(&s, Some(s.sol_bump), 10, 5);
    let mut w = withdraw_ctx(&d);
    assert_eq!(withdraw_native(&mut w, 6), Err(VaultError::InsufficientBalance));
    let d = native_ctx(&s, Some(s.sol_bump), u64::MAX, 5);
    let mut w = withdraw_ctx(&d);
    assert_eq!(withdraw_native(&mut w, 1), Err(VaultError::BalanceOverflow));
}

#[test]
fn native_derivation_errors() {
    let s = setup();
    let mut d = native_ctx(&s, None, 10, 0);
    d.accounts.sol_vault.key = key(5);
    assert_eq!(deposit_native(&mut d, 1), Err(VaultError::DerivationMismatch));
    let mut d = native_ctx(&s, None, 10, 0);
    d.accounts.pda_auth = key(5);
    assert_eq!(deposit_native(&mut d, 1), Err(VaultError::DerivationMismatch));
    let d = native_ctx(&s, Some(s.sol_bump.wrapping_sub(1)), 10, 5);
    let mut w = withdraw_ctx(&d);
    assert_eq!(withdraw_native(&mut w, 1), Err(VaultError::DerivationMismatch));
}

#[test]
fn deposit_spl_errors() {
    let s = setup();
    let mut d = spl_deposit_ctx(&s, 100, 0);
    d.accounts.to_token_acct.owner = key(8);
    assert_eq!(deposit_spl(&mut d, 1), Err(VaultError::Authorization));
    let mut d = spl_deposit_ctx(&s, 100, 0);
    d.accounts.from_token_acct.owner = key(8);
    assert_eq!(deposit_spl(&mut d, 1), Err(VaultError::Authorization));
    let mut d = spl_deposit_ctx(&s, 100, 0);
    d.accounts.from_token_acct.mint = key(8);
    assert_eq!(deposit_spl(&mut d, 1), Err(VaultError::MintMismatch));
    let mut d = spl_deposit_ctx(&s, 100, 0);
    assert_eq!(deposit_spl(&mut d, 101), Err(VaultError::InsufficientBalance));
    let mut d = spl_deposit_ctx(&s, 100, u64::MAX);
    assert_eq!(deposit_spl(&mut d, 1), Err(VaultError::BalanceOverflow));
}

#[test]
fn token_transfer_moves_amount() {
    let mint = key(50);
    let mut from = token(1, mint, key(2), 40);
    let mut to = token(3, mint, key(4), 2);
    assert_eq!(token_transfer(&mut from, &mut to, &mint, 15), Ok(()));
    assert_eq!((from.amount, to.amount), (25, 17));
    assert_eq!(token_transfer(&mut from, &mut to, &key(9), 1), Err(VaultError::MintMismatch));
    assert_eq!((from.amount, to.amount), (25, 17));
}

#[test]
fn create_limit_reserves_blank_listing() {
    let s = setup();
    let cl = limit_ctx(&s, s.controller);
    let ask = Asset { asset_type: "token".to_string(), asset_metadata: None, asset_mint: Some(key(51)) };
    let limit = create_limit(&cl, ask, 42).unwrap();
    assert_eq!(limit.ask_price_per_asset, 0);
    assert!(limit.ask_asset.asset_type.is_empty());
    assert_eq!(limit.ask_asset.asset_mint, None);
    assert_eq!(limit.asset_holding_pda, None);
    let mut bad = limit_ctx(&s, s.controller);
    bad.accounts.pda_auth = key(6);
    assert!(matches!(create_limit(&bad, Asset::blank(), 1), Err(VaultError::DerivationMismatch)));
}
