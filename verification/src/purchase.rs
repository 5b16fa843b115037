//! Buying a parcel.

use vstd::prelude::*;
use crate::address::Address;
use crate::error::ColonyError;
use crate::schedule::{
    LAND_PRICE_TOKENS, MAX_LANDS_PER_USER, MAX_LAND_ID, MINING_START_TIME, TOKEN_DECIMALS,
};
use crate::state::{GameState, LandData, UserProfile};
use crate::token::Burn;

verus! {

/// What a purchase reads and writes.
#[derive(Clone, Copy, Debug, PartialEq, Eq)]
pub struct BuyLand {
    /// The buyer.
    pub user: Address,
    /// The configuration record.
    pub game_state: GameState,
    /// The fresh record that the store has set aside for the parcel.
    pub land_data: LandData,
    /// The buyer's profile: fresh on a first purchase, else as stored.
    pub user_profile: UserProfile,
    /// The token registry that the buyer pays in.
    pub token_mint: Address,
    /// Salt of the parcel record's derived address.
    pub land_data_bump: u8,
    /// Salt of the profile's derived address.
    pub user_profile_bump: u8,
}

/// The first reason, if any, for which the purchase of parcel `land_id` is
/// rejected.
pub open spec fn buy_land_error(ctx: BuyLand, land_id: u16) -> Option<ColonyError> {
    if !ctx.game_state.spec_accepts_mint(ctx.token_mint) {
        Some(ColonyError::InvalidTokenMint)
    } else if !ctx.game_state.is_active {
        Some(ColonyError::GameNotActive)
    } else if !(1 <= land_id <= MAX_LAND_ID) {
        Some(ColonyError::InvalidLandId)
    } else if ctx.user_profile.lands_owned >= MAX_LANDS_PER_USER {
        Some(ColonyError::MaxLandsReached)
    } else if ctx.game_state.total_lands_sold == u64::MAX {
        Some(ColonyError::Overflow)
    } else {
        None
    }
}

/// The time from which a parcel bought at `now` accrues: `now`, but never
/// before launch.
pub open spec fn first_checkout(now: i64) -> i64 {
    if now < MINING_START_TIME {
        MINING_START_TIME
    } else {
        now
    }
}

/// The records after the purchase of parcel `land_id` at time `now`.
pub open spec fn bought(ctx: BuyLand, land_id: u16, now: i64) -> BuyLand {
    BuyLand {
        land_data: LandData {
            land_id,
            owner: ctx.user,
            level: 1,
            fixed_earnings: 0,
            last_checkout: first_checkout(now),
            bump: ctx.land_data_bump,
        },
        user_profile: UserProfile {
            owner: ctx.user,
            lands_owned: (ctx.user_profile.lands_owned + 1) as u8,
            bump: ctx.user_profile_bump,
            ..ctx.user_profile
        },
        game_state: GameState {
            total_lands_sold: (ctx.game_state.total_lands_sold + 1) as u64,
            ..ctx.game_state
        },
        ..ctx
    }
}

/// Buys parcel `land_id` for `ctx.user` at time `now`.
///
/// On success the parcel record is filled in at level 1 with nothing frozen,
/// the buyer's count and the sold counter go up by one, and the price is to be
/// burned from the buyer's balance. On failure nothing changes.
pub fn buy_land(ctx: &mut BuyLand, land_id: u16, now: i64) -> (r: Result<Burn, ColonyError>)
    ensures
        match buy_land_error(*old(ctx), land_id) {
            Some(e) => r == Err::<Burn, ColonyError>(e) && *final(ctx) == *old(ctx),
            None => r == Ok::<Burn, ColonyError>(
                (Burn { amount: LAND_PRICE_TOKENS, decimals: TOKEN_DECIMALS }),
            ) && *final(ctx) == bought(*old(ctx), land_id, now),
        },
        !(1 <= land_id <= MAX_LAND_ID) ==> r is Err,
        old(ctx).user_profile.lands_owned >= MAX_LANDS_PER_USER ==> r is Err,
        old(ctx).user_profile.wf() ==> final(ctx).user_profile.wf(),
        r is Ok ==> final(ctx).land_data.wf(),
{
    if !ctx.game_state.accepts_mint(&ctx.token_mint) {
        return Err(ColonyError::InvalidTokenMint);
    }
    if !ctx.game_state.is_active {
        return Err(ColonyError::GameNotActive);
    }
    if land_id == 0 || land_id > MAX_LAND_ID {
        return Err(ColonyError::InvalidLandId);
    }
    if ctx.user_profile.lands_owned >= MAX_LANDS_PER_USER {
        return Err(ColonyError::MaxLandsReached);
    }
    let lands_owned: u8 = match ctx.user_profile.lands_owned.checked_add(1) {
        Some(n) => n,
        None => {
            return Err(ColonyError::Overflow);
        },
    };
    let total_lands_sold: u64 = match ctx.game_state.total_lands_sold.checked_add(1) {
        Some(n) => n,
        None => {
            return Err(ColonyError::Overflow);
        },
    };
    ctx.land_data.land_id = land_id;
    ctx.land_data.owner = ctx.user;
    ctx.land_data.level = 1;
    ctx.land_data.fixed_earnings = 0;
    ctx.land_data.last_checkout = if now < MINING_START_TIME {
        MINING_START_TIME
    } else {
        now
    };
    ctx.land_data.bump = ctx.land_data_bump;
    ctx.user_profile.owner = ctx.user;
    ctx.user_profile.lands_owned = lands_owned;
    ctx.user_profile.bump = ctx.user_profile_bump;
    ctx.game_state.total_lands_sold = total_lands_sold;
    Ok(Burn { amount: LAND_PRICE_TOKENS, decimals: TOKEN_DECIMALS })
}

/// While the configuration is active and the token registry is the configured
/// one, every identifier outside the inventory is rejected as invalid.
pub proof fn lemma_buy_rejects_foreign_id(ctx: BuyLand, land_id: u16)
    requires
        ctx.game_state.spec_accepts_mint(ctx.token_mint),
        ctx.game_state.is_active,
        land_id < 1 || land_id > MAX_LAND_ID,
    ensures
        buy_land_error(ctx, land_id) == Some(ColonyError::InvalidLandId),
{
}

/// An owner at the cap cannot buy: with an active configuration, the
/// configured token registry and an identifier of the inventory, the purchase
/// is rejected because of the cap. A purchase that goes through leaves the
/// count within the cap.
pub proof fn lemma_buy_respects_cap(ctx: BuyLand, land_id: u16, now: i64)
    requires
        ctx.user_profile.wf(),
        ctx.game_state.spec_accepts_mint(ctx.token_mint),
        ctx.game_state.is_active,
        1 <= land_id <= MAX_LAND_ID,
    ensures
        ctx.user_profile.lands_owned == MAX_LANDS_PER_USER ==> buy_land_error(ctx, land_id)
            == Some(ColonyError::MaxLandsReached),
        buy_land_error(ctx, land_id) is None ==> bought(ctx, land_id, now).user_profile.wf(),
{
}

} // verus!
