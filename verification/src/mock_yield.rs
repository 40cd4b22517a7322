//! A toy yield vault: shares are minted one-for-one with deposited assets,
//! and redeeming pays `shares * (10000 + yield_bps) / 10000`.

use vstd::prelude::*;
use crate::bytes::Address;

verus! {

/// Basis points in one whole.
pub const BPS: u128 = 10_000;

/// One vault for one asset mint.
#[derive(Clone, Copy, Debug)]
pub struct Vault {
    pub asset_mint: Address,
    pub share_mint: Address,
    pub yield_bps: u16,
    pub bump: u8,
    pub auth_bump: u8,
}

/// Stands up a vault for one asset mint.
pub fn init_vault(asset_mint: &Address, share_mint: &Address, yield_bps: u16, bump: u8, auth_bump: u8) -> (v: Vault)
    ensures
        v.asset_mint == *asset_mint,
        v.share_mint == *share_mint,
        v.yield_bps == yield_bps,
        v.bump == bump,
        v.auth_bump == auth_bump,
{
    Vault { asset_mint: *asset_mint, share_mint: *share_mint, yield_bps, bump, auth_bump }
}

/// Turns the yield knob; only `yield_bps` changes.
pub fn set_yield_bps(vault: &mut Vault, yield_bps: u16)
    ensures
        final(vault).yield_bps == yield_bps,
        final(vault).asset_mint == old(vault).asset_mint,
        final(vault).share_mint == old(vault).share_mint,
        final(vault).bump == old(vault).bump,
        final(vault).auth_bump == old(vault).auth_bump,
{
    vault.yield_bps = yield_bps;
}

/// Assets paid for burning `shares`: `shares * (10000 + yield_bps) / 10000`.
pub open spec fn redeem_assets_spec(shares: u64, yield_bps: u16) -> int {
    (shares as int) * (10000 + yield_bps as int) / 10000
}

/// Assets paid out for burning `shares` at the vault's configured yield:
/// exactly `redeem_assets_spec`, or `None` when that does not fit in a
/// `u64`, in which case nothing may be burned or paid. The caller burns the
/// shares and transfers the assets.
pub fn redeem(vault: &Vault, shares: u64) -> (assets: Option<u64>)
    ensures
        redeem_assets_spec(shares, vault.yield_bps) > u64::MAX ==> assets is None,
        redeem_assets_spec(shares, vault.yield_bps) <= u64::MAX
            ==> assets == Some(redeem_assets_spec(shares, vault.yield_bps) as u64),
{
    let yield_bps = vault.yield_bps;
    let factor: u128 = BPS + yield_bps as u128;
    assert((shares as u128) * factor <= 0xffff_ffff_ffff_ffffu128 * 75535u128) by (nonlinear_arith)
        requires
            factor <= 75535,
    ;
    let gross: u128 = shares as u128 * factor / BPS;
    if gross > 0xffff_ffff_ffff_ffffu128 {
        None
    } else {
        Some(gross as u64)
    }
}

/// With no yield configured, redeeming returns exactly the deposited
/// principal (shares are minted one-for-one on deposit).
pub proof fn lemma_zero_yield_returns_principal(shares: u64)
    ensures
        redeem_assets_spec(shares, 0) == shares as int,
{
    assert((shares as int) * 10000 / 10000 == shares as int) by (nonlinear_arith);
}

/// Redeeming never pays less than the principal.
pub proof fn lemma_redeem_at_least_principal(shares: u64, yield_bps: u16)
    ensures
        redeem_assets_spec(shares, yield_bps) >= shares as int,
{
    let s = shares as int;
    let f = 10000 + yield_bps as int;
    assert(s * f >= s * 10000) by (nonlinear_arith)
        requires
            s >= 0,
            f >= 10000,
    ;
    assert(s * f / 10000 >= s) by (nonlinear_arith)
        requires
            s * f >= s * 10000,
            s >= 0,
    ;
}

/// Redeeming pays the yield-grown principal rounded down to a whole unit:
/// `assets * 10000 <= shares * (10000 + yield_bps) < (assets + 1) * 10000`,
/// and more shares never redeem for less.
pub proof fn lemma_redeem_rounds_down(shares: u64, more: u64, yield_bps: u16)
    ensures
        redeem_assets_spec(shares, yield_bps) * 10000 <= (shares as int) * (10000 + yield_bps as int),
        (shares as int) * (10000 + yield_bps as int) < (redeem_assets_spec(shares, yield_bps) + 1) * 10000,
        shares <= more ==> redeem_assets_spec(shares, yield_bps) <= redeem_assets_spec(more, yield_bps),
{
    let s = shares as int;
    let m = more as int;
    let f = 10000 + yield_bps as int;
    assert(s * f / 10000 * 10000 <= s * f && s * f < (s * f / 10000 + 1) * 10000) by (nonlinear_arith)
        requires
            s >= 0,
            f >= 10000,
    ;
    if shares <= more {
        assert(s * f / 10000 <= m * f / 10000) by (nonlinear_arith)
            requires
                0 <= s <= m,
                f >= 10000,
        ;
    }
}

} // verus!
