//! Claiming the reward of a parcel, and asking what is pending.

use vstd::prelude::*;
use crate::address::Address;
use crate::earnings::{calculate_earnings, spec_pending};
use crate::error::ColonyError;
use crate::schedule::{valid_level, MINING_START_TIME, TOKEN_DECIMALS};
use crate::state::{GameState, LandData};
use crate::token::Transfer;

verus! {

/// What a claim reads and writes.
#[derive(Clone, Copy, Debug, PartialEq, Eq)]
pub struct ClaimEarnings {
    /// The caller.
    pub user: Address,
    /// The configuration record.
    pub game_state: GameState,
    /// The parcel whose reward is claimed.
    pub land_data: LandData,
    /// The token registry that the reward is paid in.
    pub token_mint: Address,
    /// Base units that the pooled reward vault holds.
    pub token_vault_amount: u64,
}

/// What a query of the pending reward reads.
#[derive(Clone, Copy, Debug, PartialEq, Eq)]
pub struct GetPendingEarnings {
    /// The parcel asked about.
    pub land_data: LandData,
}

/// The first reason, if any, for which a claim at time `now` is rejected.
pub open spec fn claim_error(ctx: ClaimEarnings, now: i64) -> Option<ColonyError> {
    if !ctx.game_state.spec_accepts_mint(ctx.token_mint) {
        Some(ColonyError::InvalidTokenMint)
    } else if now < MINING_START_TIME {
        Some(ColonyError::MiningNotStarted)
    } else if ctx.land_data.owner != ctx.user {
        Some(ColonyError::NotLandOwner)
    } else {
        match spec_pending(ctx.land_data, now) {
            Err(e) => Some(e),
            Ok(earnings) => if earnings == 0 {
                Some(ColonyError::NoEarnings)
            } else if ctx.token_vault_amount < earnings {
                Some(ColonyError::InsufficientTreasury)
            } else {
                None
            },
        }
    }
}

/// The records after a claim at time `now`: nothing frozen, checkout at
/// `now`.
pub open spec fn claimed(ctx: ClaimEarnings, now: i64) -> ClaimEarnings {
    ClaimEarnings {
        land_data: LandData { fixed_earnings: 0, last_checkout: now, ..ctx.land_data },
        ..ctx
    }
}

/// Claims the pending reward of `ctx.land_data` for `ctx.user` at time `now`.
///
/// On success the whole pending reward is to be transferred out of the reward
/// vault, nothing stays frozen and the checkout moves to `now`. On failure
/// nothing changes.
pub fn claim_earnings(ctx: &mut ClaimEarnings, now: i64) -> (r: Result<Transfer, ColonyError>)
    requires
        now >= MINING_START_TIME ==> valid_level(old(ctx).land_data.level),
    ensures
        match claim_error(*old(ctx), now) {
            Some(e) => r == Err::<Transfer, ColonyError>(e) && *final(ctx) == *old(ctx),
            None => r == Ok::<Transfer, ColonyError>(
                (Transfer {
                    amount: spec_pending(old(ctx).land_data, now)->Ok_0,
                    decimals: TOKEN_DECIMALS,
                }),
            ) && *final(ctx) == claimed(*old(ctx), now),
        },
        r is Ok ==> 0 < r->Ok_0.amount <= old(ctx).token_vault_amount,
        final(ctx).land_data.last_checkout >= old(ctx).land_data.last_checkout,
{
    if !ctx.game_state.accepts_mint(&ctx.token_mint) {
        return Err(ColonyError::InvalidTokenMint);
    }
    if now < MINING_START_TIME {
        return Err(ColonyError::MiningNotStarted);
    }
    if ctx.land_data.owner != ctx.user {
        return Err(ColonyError::NotLandOwner);
    }
    let earnings: u64 = match calculate_earnings(&ctx.land_data, now) {
        Ok(earnings) => earnings,
        Err(e) => {
            return Err(e);
        },
    };
    if earnings == 0 {
        return Err(ColonyError::NoEarnings);
    }
    if ctx.token_vault_amount < earnings {
        return Err(ColonyError::InsufficientTreasury);
    }
    ctx.land_data.fixed_earnings = 0;
    ctx.land_data.last_checkout = now;
    Ok(Transfer { amount: earnings, decimals: TOKEN_DECIMALS })
}

/// The pending reward of `ctx.land_data` at time `now`; reads only.
pub fn get_pending_earnings(ctx: &GetPendingEarnings, now: i64) -> (r: Result<u64, ColonyError>)
    requires
        now >= MINING_START_TIME ==> valid_level(ctx.land_data.level),
    ensures
        r == spec_pending(ctx.land_data, now),
{
    calculate_earnings(&ctx.land_data, now)
}

/// Right after a claim went through, a second claim of the same parcel by the
/// same caller at the same instant finds nothing to claim, whatever the vault
/// holds.
pub proof fn lemma_second_claim_finds_nothing(ctx: ClaimEarnings, now: i64, vault_after: u64)
    requires
        claim_error(ctx, now) is None,
    ensures
        claimed(ctx, now).land_data.fixed_earnings == 0,
        claimed(ctx, now).land_data.last_checkout == now,
        claim_error(
            (ClaimEarnings { token_vault_amount: vault_after, ..claimed(ctx, now) }),
            now,
        ) == Some(ColonyError::NoEarnings),
{
    crate::earnings::lemma_pending_at_checkout(claimed(ctx, now).land_data);
}

} // verus!
