//! Properties that hold across the instructions of a vault.
use crate::address::{Address, AuthorityHandle};
use crate::listing::{create_limit_error, CreateLimit};
use crate::vault::{
    authority_matches, authority_of, authorized, deposit_native_spec, initialize_spec, Initialize,
    RecordAccount, deposit_spl_spec, withdraw_native_spec,
    withdraw_spl_spec, Context, DepositBase, DepositNative, DepositSpl, Transfer, VaultError,
    WithdrawNative, WithdrawSpl,
};
use vstd::prelude::*;

verus! {

/// Deriving twice from equal seeds and an equal nonce gives the same address.
pub proof fn lemma_derivation_deterministic(h1: AuthorityHandle, h2: AuthorityHandle, program_id: Address)
    requires
        h1.seed_tag == h2.seed_tag,
        h1.parent@ == h2.parent@,
        h1.nonce == h2.nonce,
    ensures
        h1.address_of(program_id) == h2.address_of(program_id),
{
}

/// The nonce that `initialize` binds re-derives the authority it was given,
/// so every later instruction on the new record finds that same authority.
pub proof fn lemma_initialized_authority_rederives(c: Context<Initialize>)
    requires
        initialize_spec(c) is Ok,
    ensures
        authority_matches(
            c.program_id,
            RecordAccount { key: c.accounts.deposit_account, data: initialize_spec(c)->Ok_0 },
            c.accounts.pda_auth,
        ),
        initialize_spec(c)->Ok_0.deposit_auth == c.accounts.deposit_auth.key,
        initialize_spec(c)->Ok_0.sol_vault_bump is None,
{
}

/// Once bound, a nonce stays: no instruction changes the authority's nonce or
/// the controller, and none changes a bound sub-account nonce; a native
/// deposit leaves the sub-account nonce bound.
pub proof fn lemma_nonces_write_once(
    dn: Context<DepositNative>,
    wn: Context<WithdrawNative>,
    ds: Context<DepositSpl>,
    ws: Context<WithdrawSpl>,
    amount: u64,
)
    ensures
        deposit_native_spec(dn, amount) matches Ok((post, _)) ==> {
            &&& post.deposit_account.key == dn.accounts.deposit_account.key
            &&& post.deposit_account.data.deposit_auth == dn.accounts.deposit_account.data.deposit_auth
            &&& post.deposit_account.data.auth_bump == dn.accounts.deposit_account.data.auth_bump
            &&& post.deposit_account.data.sol_vault_bump is Some
            &&& (dn.accounts.deposit_account.data.sol_vault_bump is Some
                ==> post.deposit_account.data.sol_vault_bump == dn.accounts.deposit_account.data.sol_vault_bump)
        },
        withdraw_native_spec(wn, amount) matches Ok((post, _)) ==> post.deposit_account == wn.accounts.deposit_account,
        deposit_spl_spec(ds, amount) matches Ok((post, _)) ==> post.deposit_account == ds.accounts.deposit_account,
        withdraw_spl_spec(ws, amount) matches Ok((post, _)) ==> post.deposit_account == ws.accounts.deposit_account,
{
}

/// A request signed by anyone but the vault's controller fails with an
/// authorization error, whatever the instruction.
pub proof fn lemma_authority_exclusive(
    vault: DepositBase,
    identity: Address,
    dn: Context<DepositNative>,
    wn: Context<WithdrawNative>,
    ds: Context<DepositSpl>,
    ws: Context<WithdrawSpl>,
    cl: Context<CreateLimit>,
    amount: u64,
)
    requires
        identity@ != vault.deposit_auth@,
        dn.accounts.deposit_account.data == vault && dn.accounts.deposit_auth.key == identity,
        wn.accounts.deposit_account.data == vault && wn.accounts.deposit_auth.key == identity,
        ds.accounts.deposit_account.data == vault && ds.accounts.deposit_auth.key == identity,
        ws.accounts.deposit_account.data == vault && ws.accounts.deposit_auth.key == identity,
        cl.accounts.deposit_account.data == vault && cl.accounts.deposit_auth.key == identity,
    ensures
        deposit_native_spec(dn, amount) == Err::<(DepositNative, Transfer), VaultError>(VaultError::Authorization),
        withdraw_native_spec(wn, amount) == Err::<(WithdrawNative, Transfer), VaultError>(VaultError::Authorization),
        deposit_spl_spec(ds, amount) == Err::<(DepositSpl, Transfer), VaultError>(VaultError::Authorization),
        withdraw_spl_spec(ws, amount) == Err::<(WithdrawSpl, Transfer), VaultError>(VaultError::Authorization),
        create_limit_error(cl) == Some(VaultError::Authorization),
{
}

/// A native deposit followed by a native withdrawal over the same two
/// accounts creates and destroys nothing: what the controller holds before
/// equals what it holds after plus what the sub-account gained.
pub proof fn lemma_native_conservation(
    d: Context<DepositNative>,
    amount_in: u64,
    w: Context<WithdrawNative>,
    amount_out: u64,
)
    requires
        deposit_native_spec(d, amount_in) is Ok,
        w.accounts.deposit_auth == deposit_native_spec(d, amount_in)->Ok_0.0.deposit_auth,
        w.accounts.sol_vault == deposit_native_spec(d, amount_in)->Ok_0.0.sol_vault,
        withdraw_native_spec(w, amount_out) is Ok,
    ensures
        ({
            let post = withdraw_native_spec(w, amount_out)->Ok_0.0;
            d.accounts.deposit_auth.lamports == post.deposit_auth.lamports + (post.sol_vault.lamports
                - d.accounts.sol_vault.lamports)
        }),
{
}

/// A token deposit followed by a withdrawal back to the account it came
/// from creates and destroys nothing: what the controller's account holds
/// before equals what it holds after plus what the vault's account gained.
pub proof fn lemma_token_conservation(
    d: Context<DepositSpl>,
    amount_in: u64,
    w: Context<WithdrawSpl>,
    amount_out: u64,
)
    requires
        deposit_spl_spec(d, amount_in) is Ok,
        w.accounts.from_token_acct == deposit_spl_spec(d, amount_in)->Ok_0.0.to_token_acct,
        w.accounts.to_token_acct == deposit_spl_spec(d, amount_in)->Ok_0.0.from_token_acct,
        withdraw_spl_spec(w, amount_out) is Ok,
    ensures
        ({
            let post = withdraw_spl_spec(w, amount_out)->Ok_0.0;
            d.accounts.from_token_acct.amount == post.to_token_acct.amount + (
            post.from_token_acct.amount - d.accounts.to_token_acct.amount)
        }),
{
}

/// A native withdrawal by the controller from a vault that never took a
/// native deposit fails as uninitialized.
pub proof fn lemma_withdraw_before_deposit(c: Context<WithdrawNative>, amount: u64)
    requires
        authorized(c.accounts.deposit_auth, c.accounts.deposit_account.data),
        c.accounts.deposit_account.data.sol_vault_bump is None,
    ensures
        withdraw_native_spec(c, amount) == Err::<(WithdrawNative, Transfer), VaultError>(
            VaultError::UninitializedState,
        ),
{
}

/// A token withdrawal from an account that the re-derived authority does not
/// own fails with an authorization error, whatever the amount.
pub proof fn lemma_substitution_resistance(c: Context<WithdrawSpl>, amount: u64, authority: Seq<u8>)
    requires
        authority_of(c.accounts.deposit_account).address_of(c.program_id) == Some(authority),
        c.accounts.from_token_acct.owner@ != authority,
    ensures
        withdraw_spl_spec(c, amount) == Err::<(WithdrawSpl, Transfer), VaultError>(VaultError::Authorization),
{
}

/// A second native deposit into a vault reuses the bound nonce, reaches the
/// same sub-account, and adds to its balance.
pub proof fn lemma_repeat_deposit_same_sub_account(
    d: Context<DepositNative>,
    first: u64,
    e: Context<DepositNative>,
    second: u64,
)
    requires
        deposit_native_spec(d, first) is Ok,
        e.program_id == d.program_id,
        e.accounts.deposit_account == deposit_native_spec(d, first)->Ok_0.0.deposit_account,
        e.accounts.pda_auth == d.accounts.pda_auth,
        e.accounts.sol_vault == deposit_native_spec(d, first)->Ok_0.0.sol_vault,
        deposit_native_spec(e, second) is Ok,
    ensures
        ({
            let (mid, t1) = deposit_native_spec(d, first)->Ok_0;
            let (post, t2) = deposit_native_spec(e, second)->Ok_0;
            &&& post.deposit_account.data.sol_vault_bump == mid.deposit_account.data.sol_vault_bump
            &&& t2.to == t1.to
            &&& post.sol_vault.lamports == d.accounts.sol_vault.lamports + first + second
        }),
{
}

} // verus!
