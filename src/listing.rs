use crate::address::{Address, SeedTag};
use crate::vault::{
    authority_matches, authorized, check_controller, check_derivation, Context, NativeAccount,
    RecordAccount, VaultError,
};
use vstd::prelude::*;

verus! {

/// A description of an asset: native currency, a token, or a collectible.
#[derive(Clone, Debug)]
pub struct Asset {
    /// A free-form tag for the kind of asset.
    pub asset_type: String,
    pub asset_metadata: Option<Address>,
    pub asset_mint: Option<Address>,
}

impl Asset {
    /// The asset with an empty tag and no references.
    pub open spec fn is_blank(&self) -> bool {
        self.asset_type@.len() == 0 && self.asset_metadata is None && self.asset_mint is None
    }

    pub fn blank() -> (r: Asset)
        ensures
            r.is_blank(),
    {
        Asset { asset_type: String::new(), asset_metadata: None, asset_mint: None }
    }
}

/// An offer to trade a held asset for another at a unit price. Only the
/// shape is defined: no matching, escrow or acceptance happens.
#[derive(Clone, Debug)]
pub struct Limit {
    pub asset_holding_pda: Option<Address>,
    pub asset: Asset,
    pub ask_price_per_asset: u64,
    pub ask_asset: Asset,
    pub ask_asset_pda: Option<Address>,
}

impl Limit {
    /// The record as reserved: nothing filled in.
    pub open spec fn is_blank(&self) -> bool {
        &&& self.asset_holding_pda is None
        &&& self.asset.is_blank()
        &&& self.ask_price_per_asset == 0
        &&& self.ask_asset.is_blank()
        &&& self.ask_asset_pda is None
    }
}

/// The accounts of `create_limit`.
#[derive(Clone, Copy, Debug, PartialEq, Eq)]
pub struct CreateLimit {
    pub deposit_account: RecordAccount,
    pub pda_auth: Address,
    pub deposit_auth: NativeAccount,
    pub token_mint: Address,
    pub ask_token_mint: Address,
}

/// Reserved: the accounts of a future update of a listing.
#[derive(Clone, Copy, Debug, PartialEq, Eq)]
pub struct UpdateLimit {}

/// Reserved: the accounts of a future removal of a listing.
#[derive(Clone, Copy, Debug, PartialEq, Eq)]
pub struct RemoveLimit {}

/// Reserved: the accounts of a future acceptance of a listing.
#[derive(Clone, Copy, Debug, PartialEq, Eq)]
pub struct AcceptLimit {}

/// The checks of `create_limit`: its error, if one applies.
pub open spec fn create_limit_error(c: Context<CreateLimit>) -> Option<VaultError> {
    let a = c.accounts;
    if !authorized(a.deposit_auth, a.deposit_account.data) {
        Some(VaultError::Authorization)
    } else if !authority_matches(c.program_id, a.deposit_account, a.pda_auth) {
        Some(VaultError::DerivationMismatch)
    } else {
        None
    }
}

/// Reserves a listing for the vault. The asked asset and price are accepted
/// but not recorded: the listing comes back blank.
pub fn create_limit(ctx: &Context<CreateLimit>, ask_asset: Asset, ask_price_per_asset: u64) -> (r: Result<Limit, VaultError>)
    ensures
        match create_limit_error(*ctx) {
            Some(e) => r == Err::<Limit, VaultError>(e),
            None => r is Ok && r->Ok_0.is_blank(),
        },
{
    let a = ctx.accounts;
    check_controller(&a.deposit_auth, &a.deposit_account.data)?;
    check_derivation(
        SeedTag::Auth,
        &a.deposit_account.key,
        a.deposit_account.data.auth_bump,
        &ctx.program_id,
        &a.pda_auth,
    )?;
    Ok(Limit {
        asset_holding_pda: None,
        asset: Asset::blank(),
        ask_price_per_asset: 0,
        ask_asset: Asset::blank(),
        ask_asset_pda: None,
    })
}

} // verus!
