//! What only the controlling authority may do, and setting the game up.

use vstd::prelude::*;
use crate::address::{zero_bytes, Address};
use crate::error::ColonyError;
use crate::state::{GameState, LandData, UserProfile};
use crate::schedule::TOKEN_DECIMALS;
use crate::token::Transfer;

verus! {

/// The bytes of the registry of the game's token.
pub open spec fn spec_game_token_mint() -> Seq<u8> {
    seq![
        27u8, 8u8, 190u8, 88u8, 55u8, 142u8, 208u8, 146u8,
        72u8, 132u8, 27u8, 39u8, 78u8, 162u8, 171u8, 49u8,
        3u8, 35u8, 41u8, 199u8, 195u8, 48u8, 41u8, 92u8,
        192u8, 144u8, 119u8, 70u8, 239u8, 181u8, 13u8, 79u8,
    ]
}

/// The registry of the game's token, which a new configuration points to.
pub fn game_token_mint() -> (mint: Address)
    ensures
        mint@ == spec_game_token_mint(),
{
    let mint = Address {
        bytes: [
            27, 8, 190, 88, 55, 142, 208, 146,
            72, 132, 27, 39, 78, 162, 171, 49,
            3, 35, 41, 199, 195, 48, 41, 92,
            192, 144, 119, 70, 239, 181, 13, 79,
        ],
    };
    assert(mint@ =~= spec_game_token_mint());
    mint
}

/// What setting the game up reads and writes.
#[derive(Clone, Copy, Debug, PartialEq, Eq)]
pub struct InitializeGame {
    /// Who sets the game up and becomes its controlling authority.
    pub authority: Address,
    /// The fresh configuration record.
    pub game_state: GameState,
    /// Salt of the configuration record's derived address.
    pub game_state_bump: u8,
    /// Salt of the native-currency vault's derived address.
    pub vault_bump: u8,
}

/// What creating the reward vault reads and writes.
#[derive(Clone, Copy, Debug, PartialEq, Eq)]
pub struct InitTokenVault {
    /// The caller.
    pub authority: Address,
    /// The configuration record.
    pub game_state: GameState,
    /// The token registry that the vault is bound to.
    pub token_mint: Address,
    /// Salt of the new vault's derived address.
    pub token_vault_bump: u8,
}

/// What emptying the native-currency vault reads.
#[derive(Clone, Copy, Debug, PartialEq, Eq)]
pub struct WithdrawSol {
    /// The caller.
    pub authority: Address,
    /// The configuration record.
    pub game_state: GameState,
    /// What the native-currency vault holds.
    pub vault_lamports: u64,
}

/// What emptying the reward vault reads.
#[derive(Clone, Copy, Debug, PartialEq, Eq)]
pub struct WithdrawTokens {
    /// The caller.
    pub authority: Address,
    /// The configuration record.
    pub game_state: GameState,
    /// The token registry of the vault.
    pub token_mint: Address,
    /// Base units that the reward vault holds.
    pub token_vault_amount: u64,
}

/// What closing the reward vault reads and writes.
#[derive(Clone, Copy, Debug, PartialEq, Eq)]
pub struct AdminCloseTokenVault {
    /// The caller.
    pub authority: Address,
    /// The configuration record.
    pub game_state: GameState,
}

/// What a change of a configuration setting reads and writes.
#[derive(Clone, Copy, Debug, PartialEq, Eq)]
pub struct AdminAction {
    /// The caller.
    pub authority: Address,
    /// The configuration record.
    pub game_state: GameState,
}

/// What the forced close of a parcel reads and writes.
#[derive(Clone, Copy, Debug, PartialEq, Eq)]
pub struct AdminCloseLand {
    /// The caller.
    pub authority: Address,
    /// The configuration record.
    pub game_state: GameState,
    /// The parcel record to remove.
    pub land_data: LandData,
    /// The profile of the parcel's owner.
    pub user_profile: UserProfile,
}

/// What the forced close of a profile reads.
#[derive(Clone, Copy, Debug, PartialEq, Eq)]
pub struct AdminCloseUserProfile {
    /// The caller.
    pub authority: Address,
    /// The configuration record.
    pub game_state: GameState,
    /// The profile to remove.
    pub user_profile: UserProfile,
}

/// The configuration record of a game that `ctx.authority` has just set up.
pub open spec fn initialized(ctx: InitializeGame, mint: Address) -> InitializeGame {
    InitializeGame {
        game_state: GameState {
            authority: ctx.authority,
            treasury_balance: 0,
            total_lands_sold: 0,
            total_sol_collected: 0,
            is_active: true,
            bump: ctx.game_state_bump,
            vault_bump: ctx.vault_bump,
            token_mint: mint,
            token_vault_bump: 0,
        },
        ..ctx
    }
}

/// Sets the game up: the caller becomes the controlling authority, the game is
/// active, nothing is sold, the registry is that of the game's token and
/// there is no reward vault yet. Always succeeds.
pub fn initialize_game(ctx: &mut InitializeGame) -> (r: Result<(), ColonyError>)
    ensures
        r is Ok,
        final(ctx).game_state.token_mint@ == spec_game_token_mint(),
        *final(ctx) == initialized(*old(ctx), final(ctx).game_state.token_mint),
{
    let mint = game_token_mint();
    ctx.game_state.authority = ctx.authority;
    ctx.game_state.treasury_balance = 0;
    ctx.game_state.total_lands_sold = 0;
    ctx.game_state.total_sol_collected = 0;
    ctx.game_state.is_active = true;
    ctx.game_state.bump = ctx.game_state_bump;
    ctx.game_state.vault_bump = ctx.vault_bump;
    ctx.game_state.token_mint = mint;
    ctx.game_state.token_vault_bump = 0;
    Ok(())
}

/// The first reason, if any, for which the creation of the reward vault is
/// rejected.
pub open spec fn init_token_vault_error(ctx: InitTokenVault) -> Option<ColonyError> {
    if !ctx.game_state.spec_is_authority(ctx.authority) {
        Some(ColonyError::Unauthorized)
    } else if !ctx.game_state.spec_accepts_mint(ctx.token_mint) {
        Some(ColonyError::InvalidTokenMint)
    } else if ctx.game_state.token_mint@ == zero_bytes() {
        Some(ColonyError::TokenMintNotSet)
    } else {
        None
    }
}

/// Records the salt of the reward vault that the store has just created for
/// the configured token registry.
pub fn init_token_vault(ctx: &mut InitTokenVault) -> (r: Result<(), ColonyError>)
    ensures
        match init_token_vault_error(*old(ctx)) {
            Some(e) => r == Err::<(), ColonyError>(e) && *final(ctx) == *old(ctx),
            None => r is Ok && *final(ctx) == (InitTokenVault {
                game_state: GameState {
                    token_vault_bump: old(ctx).token_vault_bump,
                    ..old(ctx).game_state
                },
                ..*old(ctx)
            }),
        },
{
    if !ctx.game_state.is_authority(&ctx.authority) {
        return Err(ColonyError::Unauthorized);
    }
    if !ctx.game_state.accepts_mint(&ctx.token_mint) {
        return Err(ColonyError::InvalidTokenMint);
    }
    if ctx.game_state.token_mint.is_zero() {
        return Err(ColonyError::TokenMintNotSet);
    }
    ctx.game_state.token_vault_bump = ctx.token_vault_bump;
    Ok(())
}

/// The whole balance of the native-currency vault, which is to be moved to
/// the controlling authority. Rejected for any other caller, and when the
/// vault is empty.
pub fn withdraw_sol(ctx: &WithdrawSol) -> (r: Result<u64, ColonyError>)
    ensures
        r == (if !ctx.game_state.spec_is_authority(ctx.authority) {
            Err::<u64, ColonyError>(ColonyError::Unauthorized)
        } else if ctx.vault_lamports == 0 {
            Err::<u64, ColonyError>(ColonyError::InsufficientBalance)
        } else {
            Ok::<u64, ColonyError>(ctx.vault_lamports)
        }),
{
    if !ctx.game_state.is_authority(&ctx.authority) {
        return Err(ColonyError::Unauthorized);
    }
    if ctx.vault_lamports == 0 {
        return Err(ColonyError::InsufficientBalance);
    }
    Ok(ctx.vault_lamports)
}

/// The transfer of the whole balance of the reward vault to the controlling
/// authority. Rejected for any other caller, for a token registry that is not
/// the configured one, and when the vault is empty.
pub fn withdraw_tokens(ctx: &WithdrawTokens) -> (r: Result<Transfer, ColonyError>)
    ensures
        r == (if !ctx.game_state.spec_is_authority(ctx.authority) {
            Err::<Transfer, ColonyError>(ColonyError::Unauthorized)
        } else if !ctx.game_state.spec_accepts_mint(ctx.token_mint) {
            Err::<Transfer, ColonyError>(ColonyError::InvalidTokenMint)
        } else if ctx.token_vault_amount == 0 {
            Err::<Transfer, ColonyError>(ColonyError::InsufficientBalance)
        } else {
            Ok::<Transfer, ColonyError>(
                (Transfer { amount: ctx.token_vault_amount, decimals: TOKEN_DECIMALS }),
            )
        }),
{
    if !ctx.game_state.is_authority(&ctx.authority) {
        return Err(ColonyError::Unauthorized);
    }
    if !ctx.game_state.accepts_mint(&ctx.token_mint) {
        return Err(ColonyError::InvalidTokenMint);
    }
    if ctx.token_vault_amount == 0 {
        return Err(ColonyError::InsufficientBalance);
    }
    Ok(Transfer { amount: ctx.token_vault_amount, decimals: TOKEN_DECIMALS })
}

/// Forgets the reward vault, which is to be closed, so that one for another
/// token registry can be created later. Rejected for any caller but the
/// controlling authority.
pub fn admin_close_token_vault(ctx: &mut AdminCloseTokenVault) -> (r: Result<(), ColonyError>)
    ensures
        if old(ctx).game_state.spec_is_authority(old(ctx).authority) {
            r is Ok && *final(ctx) == (AdminCloseTokenVault {
                game_state: GameState { token_vault_bump: 0, ..old(ctx).game_state },
                ..*old(ctx)
            })
        } else {
            r == Err::<(), ColonyError>(ColonyError::Unauthorized) && *final(ctx) == *old(ctx)
        },
{
    if !ctx.game_state.is_authority(&ctx.authority) {
        return Err(ColonyError::Unauthorized);
    }
    ctx.game_state.token_vault_bump = 0;
    Ok(())
}

/// Pauses or resumes the game. Rejected for any caller but the controlling
/// authority.
pub fn set_game_active(ctx: &mut AdminAction, is_active: bool) -> (r: Result<(), ColonyError>)
    ensures
        if old(ctx).game_state.spec_is_authority(old(ctx).authority) {
            r is Ok && *final(ctx) == (AdminAction {
                game_state: GameState { is_active, ..old(ctx).game_state },
                ..*old(ctx)
            })
        } else {
            r == Err::<(), ColonyError>(ColonyError::Unauthorized) && *final(ctx) == *old(ctx)
        },
{
    if !ctx.game_state.is_authority(&ctx.authority) {
        return Err(ColonyError::Unauthorized);
    }
    ctx.game_state.is_active = is_active;
    Ok(())
}

/// Points the configuration to another token registry. Rejected for any
/// caller but the controlling authority.
pub fn set_token_mint(ctx: &mut AdminAction, new_mint: Address) -> (r: Result<(), ColonyError>)
    ensures
        if old(ctx).game_state.spec_is_authority(old(ctx).authority) {
            r is Ok && *final(ctx) == (AdminAction {
                game_state: GameState { token_mint: new_mint, ..old(ctx).game_state },
                ..*old(ctx)
            })
        } else {
            r == Err::<(), ColonyError>(ColonyError::Unauthorized) && *final(ctx) == *old(ctx)
        },
{
    if !ctx.game_state.is_authority(&ctx.authority) {
        return Err(ColonyError::Unauthorized);
    }
    ctx.game_state.token_mint = new_mint;
    Ok(())
}

/// The first reason, if any, for which the forced close of a parcel is
/// rejected.
pub open spec fn close_land_error(ctx: AdminCloseLand) -> Option<ColonyError> {
    if !ctx.game_state.spec_is_authority(ctx.authority) {
        Some(ColonyError::Unauthorized)
    } else if ctx.user_profile.lands_owned == 0 || ctx.game_state.total_lands_sold == 0 {
        Some(ColonyError::Overflow)
    } else {
        None
    }
}

/// The records after the forced close of a parcel: the owner's count and the
/// sold counter are one lower.
pub open spec fn land_closed(ctx: AdminCloseLand) -> AdminCloseLand {
    AdminCloseLand {
        user_profile: UserProfile {
            lands_owned: (ctx.user_profile.lands_owned - 1) as u8,
            ..ctx.user_profile
        },
        game_state: GameState {
            total_lands_sold: (ctx.game_state.total_lands_sold - 1) as u64,
            ..ctx.game_state
        },
        ..ctx
    }
}

/// Takes a parcel away from its owner: on success the parcel record is to be
/// removed from the store, and the owner's count and the sold counter go down
/// by one. On failure nothing changes.
pub fn admin_close_land(ctx: &mut AdminCloseLand) -> (r: Result<(), ColonyError>)
    ensures
        match close_land_error(*old(ctx)) {
            Some(e) => r == Err::<(), ColonyError>(e) && *final(ctx) == *old(ctx),
            None => r is Ok && *final(ctx) == land_closed(*old(ctx)),
        },
        old(ctx).user_profile.wf() ==> final(ctx).user_profile.wf(),
{
    if !ctx.game_state.is_authority(&ctx.authority) {
        return Err(ColonyError::Unauthorized);
    }
    let lands_owned: u8 = match ctx.user_profile.lands_owned.checked_sub(1) {
        Some(n) => n,
        None => {
            return Err(ColonyError::Overflow);
        },
    };
    let total_lands_sold: u64 = match ctx.game_state.total_lands_sold.checked_sub(1) {
        Some(n) => n,
        None => {
            return Err(ColonyError::Overflow);
        },
    };
    ctx.user_profile.lands_owned = lands_owned;
    ctx.game_state.total_lands_sold = total_lands_sold;
    Ok(())
}

/// Decides whether a profile may be removed from the store: only by the
/// controlling authority, and only when it counts no parcel.
pub fn admin_close_user_profile(ctx: &AdminCloseUserProfile) -> (r: Result<(), ColonyError>)
    ensures
        r == (if !ctx.game_state.spec_is_authority(ctx.authority) {
            Err::<(), ColonyError>(ColonyError::Unauthorized)
        } else if ctx.user_profile.lands_owned != 0 {
            Err::<(), ColonyError>(ColonyError::UserHasLands)
        } else {
            Ok::<(), ColonyError>(())
        }),
{
    if !ctx.game_state.is_authority(&ctx.authority) {
        return Err(ColonyError::Unauthorized);
    }
    if ctx.user_profile.lands_owned != 0 {
        return Err(ColonyError::UserHasLands);
    }
    Ok(())
}

} // verus!
