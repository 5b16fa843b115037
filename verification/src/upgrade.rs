//! Raising a parcel to the next level.

use vstd::prelude::*;
use crate::address::Address;
use crate::earnings::{calculate_earnings, lemma_pending_at_checkout, spec_pending};
use crate::error::ColonyError;
use crate::schedule::{
    spec_upgrade_cost, upgrade_cost, valid_level, MAX_LEVEL, MINING_START_TIME, TOKEN_DECIMALS,
};
use crate::state::{GameState, LandData};
use crate::token::Burn;

verus! {

/// What an upgrade reads and writes.
#[derive(Clone, Copy, Debug, PartialEq, Eq)]
pub struct UpgradeLand {
    /// The caller.
    pub user: Address,
    /// The configuration record.
    pub game_state: GameState,
    /// The parcel to raise.
    pub land_data: LandData,
    /// The token registry that the caller pays in.
    pub token_mint: Address,
    /// Base units that the caller holds.
    pub user_token_amount: u64,
}

/// The first reason, if any, for which an upgrade at time `now` is rejected.
pub open spec fn upgrade_error(ctx: UpgradeLand, now: i64) -> Option<ColonyError> {
    if !ctx.game_state.spec_accepts_mint(ctx.token_mint) {
        Some(ColonyError::InvalidTokenMint)
    } else if now < MINING_START_TIME {
        Some(ColonyError::MiningNotStarted)
    } else if ctx.land_data.owner != ctx.user {
        Some(ColonyError::NotLandOwner)
    } else if ctx.land_data.level >= MAX_LEVEL {
        Some(ColonyError::MaxLevelReached)
    } else {
        match spec_pending(ctx.land_data, now) {
            Err(e) => Some(e),
            Ok(_) => if ctx.user_token_amount < spec_upgrade_cost(ctx.land_data.level) {
                Some(ColonyError::InsufficientBalance)
            } else {
                None
            },
        }
    }
}

/// The records after an upgrade at time `now`: what was pending at the old
/// level is frozen, the checkout moves to `now`, the level goes up by one.
pub open spec fn upgraded(ctx: UpgradeLand, now: i64) -> UpgradeLand {
    UpgradeLand {
        land_data: LandData {
            fixed_earnings: spec_pending(ctx.land_data, now)->Ok_0,
            last_checkout: now,
            level: (ctx.land_data.level + 1) as u8,
            ..ctx.land_data
        },
        ..ctx
    }
}

/// Raises `ctx.land_data` by one level for `ctx.user` at time `now`.
///
/// On success the cost of the old level is to be burned from the caller's
/// balance, and the reward earned at the old rate up to `now` is frozen. On
/// failure nothing changes.
pub fn upgrade_land(ctx: &mut UpgradeLand, now: i64) -> (r: Result<Burn, ColonyError>)
    requires
        now >= MINING_START_TIME ==> 1 <= old(ctx).land_data.level,
    ensures
        match upgrade_error(*old(ctx), now) {
            Some(e) => r == Err::<Burn, ColonyError>(e) && *final(ctx) == *old(ctx),
            None => r == Ok::<Burn, ColonyError>(
                (Burn {
                    amount: spec_upgrade_cost(old(ctx).land_data.level) as u64,
                    decimals: TOKEN_DECIMALS,
                }),
            ) && *final(ctx) == upgraded(*old(ctx), now),
        },
        r is Ok ==> r->Ok_0.amount <= old(ctx).user_token_amount,
        r is Ok ==> valid_level(final(ctx).land_data.level),
        final(ctx).land_data.last_checkout >= old(ctx).land_data.last_checkout,
        final(ctx).land_data.fixed_earnings >= old(ctx).land_data.fixed_earnings,
{
    if !ctx.game_state.accepts_mint(&ctx.token_mint) {
        return Err(ColonyError::InvalidTokenMint);
    }
    if now < MINING_START_TIME {
        return Err(ColonyError::MiningNotStarted);
    }
    if ctx.land_data.owner != ctx.user {
        return Err(ColonyError::NotLandOwner);
    }
    if ctx.land_data.level >= MAX_LEVEL {
        return Err(ColonyError::MaxLevelReached);
    }
    let pending: u64 = match calculate_earnings(&ctx.land_data, now) {
        Ok(pending) => pending,
        Err(e) => {
            return Err(e);
        },
    };
    let cost: u64 = upgrade_cost(ctx.land_data.level);
    if ctx.user_token_amount < cost {
        return Err(ColonyError::InsufficientBalance);
    }
    ctx.land_data.fixed_earnings = pending;
    ctx.land_data.last_checkout = now;
    ctx.land_data.level = ctx.land_data.level + 1;
    Ok(Burn { amount: cost, decimals: TOKEN_DECIMALS })
}

/// Right after an upgrade, the pending reward at the same instant is exactly
/// what the upgrade froze.
pub proof fn lemma_pending_after_upgrade(ctx: UpgradeLand, now: i64)
    requires
        upgrade_error(ctx, now) is None,
    ensures
        spec_pending(upgraded(ctx, now).land_data, now) == Ok::<u64, ColonyError>(
            upgraded(ctx, now).land_data.fixed_earnings,
        ),
        upgraded(ctx, now).land_data.fixed_earnings == spec_pending(ctx.land_data, now)->Ok_0,
{
    lemma_pending_at_checkout(upgraded(ctx, now).land_data);
}

} // verus!
