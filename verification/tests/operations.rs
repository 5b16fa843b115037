use colony::address::Address;
use colony::admin::{
    admin_close_land, admin_close_token_vault, admin_close_user_profile, game_token_mint,
    init_token_vault, initialize_game, set_game_active, set_token_mint, withdraw_sol,
    withdraw_tokens, AdminAction, AdminCloseLand, AdminCloseTokenVault, AdminCloseUserProfile,
    InitTokenVault, InitializeGame, WithdrawSol, WithdrawTokens,
};
use colony::claim::{claim_earnings, get_pending_earnings, ClaimEarnings, GetPendingEarnings};
use colony::earnings::calculate_earnings;
use colony::error::ColonyError;
use colony::purchase::{buy_land, BuyLand};
use colony::schedule::{
    earning_speed, upgrade_cost, LAND_PRICE_TOKENS, MAX_LAND_ID, MINING_START_TIME,
    SECONDS_PER_DAY, TOKEN_DECIMALS, TOKEN_MULTIPLIER,
};
use colony::state::{GameState, LandData, UserProfile};
use colony::token::{Burn, Transfer};
use colony::upgrade::{upgrade_land, UpgradeLand};

const DAY: i64 = 86400;

fn addr(tag: u8) -> Address {
    Address::new([tag; 32])
}

fn game() -> GameState {
    GameState {
        authority: addr(1),
        treasury_balance: 0,
        total_lands_sold: 0,
        total_sol_collected: 0,
        is_active: true,
        bump: 254,
        vault_bump: 253,
        token_mint: addr(9),
        token_vault_bump: 252,
    }
}

fn blank_land() -> LandData {
    LandData {
        land_id: 0,
        owner: Address::zero(),
        level: 0,
        fixed_earnings: 0,
        last_checkout: 0,
        bump: 0,
    }
}

fn land(level: u8, fixed_earnings: u64, last_checkout: i64) -> LandData {
    LandData { land_id: 7, owner: addr(2), level, fixed_earnings, last_checkout, bump: 250 }
}

fn profile(lands_owned: u8) -> UserProfile {
    UserProfile { owner: addr(2), lands_owned, token_balance: 0, bump: 249 }
}

fn blank_profile() -> UserProfile {
    UserProfile { owner: Address::zero(), lands_owned: 0, token_balance: 0, bump: 0 }
}

fn buy_ctx() -> BuyLand {
    BuyLand {
        user: addr(2),
        game_state: game(),
        land_data: blank_land(),
        user_profile: blank_profile(),
        token_mint: addr(9),
        land_data_bump: 250,
        user_profile_bump: 249,
    }
}

fn claim_ctx(land_data: LandData, vault: u64) -> ClaimEarnings {
    ClaimEarnings {
        user: addr(2),
        game_state: game(),
        land_data,
        token_mint: addr(9),
        token_vault_amount: vault,
    }
}

fn upgrade_ctx(land_data: LandData, balance: u64) -> UpgradeLand {
    UpgradeLand {
        user: addr(2),
        game_state: game(),
        land_data,
        token_mint: addr(9),
        user_token_amount: balance,
    }
}

// ---- schedule -------------------------------------------------------------

#[test]
fn schedule_tables_hold_the_published_values() {
    let speeds: [u64; 10] = [1_000, 2_000, 3_000, 5_000, 8_000, 13_000, 21_000, 34_000, 45_000, 79_000];
    let costs: [u64; 9] = [1_000, 2_000, 4_000, 8_000, 16_000, 32_000, 64_000, 128_000, 152_000];
    for level in 1..=10u8 {
        assert_eq!(earning_speed(level), speeds[(level - 1) as usize] * TOKEN_MULTIPLIER);
    }
    for level in 1..=9u8 {
        assert_eq!(upgrade_cost(level), costs[(level - 1) as usize] * TOKEN_MULTIPLIER);
    }
    assert_eq!(LAND_PRICE_TOKENS, 10_000 * TOKEN_MULTIPLIER);
    assert_eq!(MAX_LAND_ID, 21000);
    assert_eq!(SECONDS_PER_DAY, 86400);
    assert_eq!(TOKEN_DECIMALS, 6);
    assert_eq!(MINING_START_TIME, 1771340400);
}

// ---- identities -----------------------------------------------------------

#[test]
fn address_equality_is_bytewise() {
    let mut bytes = [5u8; 32];
    let a = Address::new(bytes);
    assert_eq!(a, addr(5));
    bytes[31] = 6;
    assert_ne!(Address::new(bytes), a);
    assert!(Address::zero().is_zero());
    assert!(!a.is_zero());
    assert_eq!(Address::zero(), Address::new([0u8; 32]));
}

#[test]
fn address_read_takes_thirty_two_bytes_at_offset() {
    let mut data = vec![0u8; 50];
    for i in 0..50 {
        data[i] = i as u8;
    }
    let a = Address::read(&data, 8);
    let mut expected = [0u8; 32];
    for i in 0..32 {
        expected[i] = (8 + i) as u8;
    }
    assert_eq!(a.bytes, expected);
    let b = Address::read(&data, 18);
    assert_eq!(b.bytes[0], 18);
    assert_eq!(b.bytes[31], 49);
}

// ---- accrual --------------------------------------------------------------

#[test]
fn level_one_earns_one_thousand_tokens_in_a_day() {
    let l = land(1, 0, MINING_START_TIME);
    assert_eq!(calculate_earnings(&l, MINING_START_TIME + DAY), Ok(1_000 * TOKEN_MULTIPLIER));
    let q = GetPendingEarnings { land_data: l };
    assert_eq!(get_pending_earnings(&q, MINING_START_TIME + DAY), Ok(1_000_000_000));
}

#[test]
fn accrual_rounds_down() {
    // 1e9 * 1 / 86400 = 11574.07...
    let l = land(1, 0, MINING_START_TIME);
    assert_eq!(calculate_earnings(&l, MINING_START_TIME + 1), Ok(11_574));
    // 79e9 * 12345 / 86400 = 11287673611.11..., and 5 frozen
    let l = land(10, 5, MINING_START_TIME);
    assert_eq!(calculate_earnings(&l, MINING_START_TIME + 12_345), Ok(11_287_673_616));
}

#[test]
fn before_launch_pending_is_the_frozen_value() {
    let l = land(4, 777, -5_000);
    assert_eq!(calculate_earnings(&l, MINING_START_TIME - 1), Ok(777));
    assert_eq!(calculate_earnings(&l, 0), Ok(777));
    assert_eq!(calculate_earnings(&l, i64::MIN), Ok(777));
    let ahead = land(4, 777, i64::MAX);
    assert_eq!(calculate_earnings(&ahead, MINING_START_TIME - 1), Ok(777));
    // a record that has no level yet
    let blank = land(0, 3, 0);
    assert_eq!(calculate_earnings(&blank, MINING_START_TIME - 1), Ok(3));
}

#[test]
fn pending_does_not_shrink_as_time_advances() {
    let l = land(6, 42, MINING_START_TIME + 10);
    let mut last: u64 = 0;
    for step in 0..200i64 {
        let now = MINING_START_TIME + 10 + step * 37;
        let p = calculate_earnings(&l, now).unwrap();
        assert!(p >= last);
        last = p;
    }
    assert_eq!(calculate_earnings(&l, MINING_START_TIME + 10), Ok(42));
}

#[test]
fn checkout_ahead_of_now_is_an_arithmetic_error() {
    let l = land(1, 0, MINING_START_TIME + 100);
    assert_eq!(calculate_earnings(&l, MINING_START_TIME + 99), Err(ColonyError::Overflow));
    assert_eq!(calculate_earnings(&l, MINING_START_TIME + 100), Ok(0));
}

#[test]
fn accrual_overflow_is_reported() {
    // the product of rate and elapsed time leaves 64 bits
    let l = land(10, 0, MINING_START_TIME);
    assert_eq!(calculate_earnings(&l, i64::MAX), Err(ColonyError::Overflow));
    let l = land(1, 0, i64::MIN);
    assert_eq!(calculate_earnings(&l, i64::MAX), Err(ColonyError::Overflow));
    // the product fits, the sum with the frozen earnings does not
    let l = land(1, u64::MAX, MINING_START_TIME);
    assert_eq!(calculate_earnings(&l, MINING_START_TIME + DAY), Err(ColonyError::Overflow));
    let l = land(1, u64::MAX - 1_000_000_000, MINING_START_TIME);
    assert_eq!(calculate_earnings(&l, MINING_START_TIME + DAY), Ok(u64::MAX));
    // largest elapsed time whose product still fits at level 1
    let elapsed = (u64::MAX / 1_000_000_000) as i64;
    let l = land(1, 0, MINING_START_TIME);
    assert_eq!(
        calculate_earnings(&l, MINING_START_TIME + elapsed),
        Ok(1_000_000_000 * (elapsed as u64) / 86400)
    );
    assert_eq!(
        calculate_earnings(&l, MINING_START_TIME + elapsed + 1),
        Err(ColonyError::Overflow)
    );
}

// ---- purchase -------------------------------------------------------------

#[test]
fn purchase_before_launch_clamps_the_checkout() {
    let mut ctx = buy_ctx();
    let r = buy_land(&mut ctx, 1, MINING_START_TIME - 100);
    assert_eq!(r, Ok(Burn { amount: 10_000_000_000, decimals: 6 }));
    assert_eq!(ctx.land_data.last_checkout, MINING_START_TIME);
    assert_eq!(ctx.land_data.fixed_earnings, 0);
    assert_eq!(ctx.land_data.level, 1);
    assert_eq!(ctx.land_data.land_id, 1);
    assert_eq!(ctx.land_data.owner, addr(2));
    assert_eq!(ctx.land_data.bump, 250);
    assert_eq!(ctx.user_profile.owner, addr(2));
    assert_eq!(ctx.user_profile.lands_owned, 1);
    assert_eq!(ctx.user_profile.bump, 249);
    assert_eq!(ctx.game_state.total_lands_sold, 1);
}

#[test]
fn purchase_after_launch_checks_out_at_the_purchase() {
    let mut ctx = buy_ctx();
    ctx.user_profile = profile(3);
    ctx.game_state.total_lands_sold = 40;
    let r = buy_land(&mut ctx, 21000, MINING_START_TIME + 5);
    assert!(r.is_ok());
    assert_eq!(ctx.land_data.last_checkout, MINING_START_TIME + 5);
    assert_eq!(ctx.user_profile.lands_owned, 4);
    assert_eq!(ctx.game_state.total_lands_sold, 41);
    let mut at = buy_ctx();
    assert!(buy_land(&mut at, 5, MINING_START_TIME).is_ok());
    assert_eq!(at.land_data.last_checkout, MINING_START_TIME);
}

#[test]
fn purchase_rejects_identifiers_outside_the_inventory() {
    for id in [0u16, 21001, 21002, 30000, u16::MAX] {
        let mut ctx = buy_ctx();
        let before = ctx;
        assert_eq!(buy_land(&mut ctx, id, MINING_START_TIME), Err(ColonyError::InvalidLandId));
        assert_eq!(ctx, before);
    }
    for id in [1u16, 2, 20999, 21000] {
        let mut ctx = buy_ctx();
        assert!(buy_land(&mut ctx, id, MINING_START_TIME).is_ok());
    }
}

#[test]
fn eleventh_purchase_is_rejected() {
    let mut profile_now = blank_profile();
    let mut game_now = game();
    for id in 1..=10u16 {
        let mut ctx = buy_ctx();
        ctx.user_profile = profile_now;
        ctx.game_state = game_now;
        assert!(buy_land(&mut ctx, id, MINING_START_TIME).is_ok());
        profile_now = ctx.user_profile;
        game_now = ctx.game_state;
        assert!(profile_now.lands_owned <= 10);
    }
    assert_eq!(profile_now.lands_owned, 10);
    assert_eq!(game_now.total_lands_sold, 10);
    let mut ctx = buy_ctx();
    ctx.user_profile = profile_now;
    ctx.game_state = game_now;
    let before = ctx;
    assert_eq!(buy_land(&mut ctx, 11, MINING_START_TIME), Err(ColonyError::MaxLandsReached));
    assert_eq!(ctx, before);
}

#[test]
fn purchase_needs_an_active_game_and_the_configured_token() {
    let mut ctx = buy_ctx();
    ctx.game_state.is_active = false;
    assert_eq!(buy_land(&mut ctx, 1, MINING_START_TIME), Err(ColonyError::GameNotActive));
    // an inactive game is reported before a bad identifier
    assert_eq!(buy_land(&mut ctx, 0, MINING_START_TIME), Err(ColonyError::GameNotActive));
    let mut ctx = buy_ctx();
    ctx.token_mint = addr(8);
    assert_eq!(buy_land(&mut ctx, 1, MINING_START_TIME), Err(ColonyError::InvalidTokenMint));
    ctx.game_state.is_active = false;
    assert_eq!(buy_land(&mut ctx, 1, MINING_START_TIME), Err(ColonyError::InvalidTokenMint));
}

#[test]
fn purchase_reports_a_full_sold_counter() {
    let mut ctx = buy_ctx();
    ctx.game_state.total_lands_sold = u64::MAX;
    let before = ctx;
    assert_eq!(buy_land(&mut ctx, 1, MINING_START_TIME), Err(ColonyError::Overflow));
    assert_eq!(ctx, before);
}

// ---- claim ----------------------------------------------------------------

#[test]
fn claim_pays_out_and_resets() {
    let mut ctx = claim_ctx(land(1, 500, MINING_START_TIME), 2_000_000_000);
    let now = MINING_START_TIME + DAY;
    assert_eq!(claim_earnings(&mut ctx, now), Ok(Transfer { amount: 1_000_000_500, decimals: 6 }));
    assert_eq!(ctx.land_data.fixed_earnings, 0);
    assert_eq!(ctx.land_data.last_checkout, now);
    assert_eq!(ctx.land_data.level, 1);
    // an immediate second claim finds nothing
    let before = ctx;
    assert_eq!(claim_earnings(&mut ctx, now), Err(ColonyError::NoEarnings));
    assert_eq!(ctx, before);
}

#[test]
fn claim_with_a_short_vault_changes_nothing() {
    let mut ctx = claim_ctx(land(1, 0, MINING_START_TIME), 999_999_999);
    let before = ctx;
    assert_eq!(
        claim_earnings(&mut ctx, MINING_START_TIME + DAY),
        Err(ColonyError::InsufficientTreasury)
    );
    assert_eq!(ctx, before);
    ctx.token_vault_amount = 1_000_000_000;
    assert_eq!(
        claim_earnings(&mut ctx, MINING_START_TIME + DAY),
        Ok(Transfer { amount: 1_000_000_000, decimals: 6 })
    );
}

#[test]
fn claim_preconditions_in_order() {
    let l = land(2, 10, MINING_START_TIME);
    let mut ctx = claim_ctx(l, u64::MAX);
    assert_eq!(claim_earnings(&mut ctx, MINING_START_TIME - 1), Err(ColonyError::MiningNotStarted));
    ctx.user = addr(3);
    assert_eq!(claim_earnings(&mut ctx, MINING_START_TIME), Err(ColonyError::NotLandOwner));
    assert_eq!(claim_earnings(&mut ctx, MINING_START_TIME - 1), Err(ColonyError::MiningNotStarted));
    ctx.token_mint = addr(8);
    assert_eq!(claim_earnings(&mut ctx, MINING_START_TIME - 1), Err(ColonyError::InvalidTokenMint));
    let mut ctx = claim_ctx(land(2, 0, MINING_START_TIME + 50), u64::MAX);
    assert_eq!(claim_earnings(&mut ctx, MINING_START_TIME + 10), Err(ColonyError::Overflow));
    assert_eq!(claim_earnings(&mut ctx, MINING_START_TIME + 50), Err(ColonyError::NoEarnings));
    // frozen earnings alone can be claimed
    let mut ctx = claim_ctx(l, 10);
    assert_eq!(claim_earnings(&mut ctx, MINING_START_TIME), Ok(Transfer { amount: 10, decimals: 6 }));
}

// ---- upgrade --------------------------------------------------------------

#[test]
fn upgrade_of_level_three_costs_four_thousand_tokens() {
    let l = land(3, 0, MINING_START_TIME);
    let mut ctx = upgrade_ctx(l, 3_999 * TOKEN_MULTIPLIER);
    let before = ctx;
    assert_eq!(upgrade_land(&mut ctx, MINING_START_TIME), Err(ColonyError::InsufficientBalance));
    assert_eq!(ctx, before);
    ctx.user_token_amount = 4_000 * TOKEN_MULTIPLIER - 1;
    assert_eq!(upgrade_land(&mut ctx, MINING_START_TIME), Err(ColonyError::InsufficientBalance));
    ctx.user_token_amount = 4_000 * TOKEN_MULTIPLIER;
    assert_eq!(
        upgrade_land(&mut ctx, MINING_START_TIME),
        Ok(Burn { amount: 4_000_000_000, decimals: 6 })
    );
    assert_eq!(ctx.land_data.level, 4);
}

#[test]
fn upgrade_freezes_what_was_earned_at_the_old_rate() {
    let l = land(3, 100, MINING_START_TIME);
    let mut ctx = upgrade_ctx(l, u64::MAX);
    let now = MINING_START_TIME + 2 * DAY;
    assert!(upgrade_land(&mut ctx, now).is_ok());
    assert_eq!(ctx.land_data.fixed_earnings, 100 + 2 * 3_000 * TOKEN_MULTIPLIER);
    assert_eq!(ctx.land_data.last_checkout, now);
    assert_eq!(ctx.land_data.level, 4);
    // at the same instant the pending reward is the frozen value
    assert_eq!(calculate_earnings(&ctx.land_data, now), Ok(ctx.land_data.fixed_earnings));
    // a day later the new rate applies
    assert_eq!(
        calculate_earnings(&ctx.land_data, now + DAY),
        Ok(100 + 6_000 * TOKEN_MULTIPLIER + 5_000 * TOKEN_MULTIPLIER)
    );
}

#[test]
fn upgrade_preconditions_in_order() {
    let mut ctx = upgrade_ctx(land(10, 0, MINING_START_TIME), u64::MAX);
    assert_eq!(upgrade_land(&mut ctx, MINING_START_TIME), Err(ColonyError::MaxLevelReached));
    ctx.user = addr(3);
    assert_eq!(upgrade_land(&mut ctx, MINING_START_TIME), Err(ColonyError::NotLandOwner));
    assert_eq!(upgrade_land(&mut ctx, MINING_START_TIME - 1), Err(ColonyError::MiningNotStarted));
    ctx.token_mint = addr(8);
    assert_eq!(upgrade_land(&mut ctx, MINING_START_TIME - 1), Err(ColonyError::InvalidTokenMint));
    let mut ctx = upgrade_ctx(land(9, 0, MINING_START_TIME + 1), 0);
    assert_eq!(upgrade_land(&mut ctx, MINING_START_TIME), Err(ColonyError::Overflow));
    let mut ctx = upgrade_ctx(land(9, 0, MINING_START_TIME), 152_000 * TOKEN_MULTIPLIER);
    assert_eq!(
        upgrade_land(&mut ctx, MINING_START_TIME),
        Ok(Burn { amount: 152_000_000_000, decimals: 6 })
    );
    assert_eq!(ctx.land_data.level, 10);
}

// ---- administration -------------------------------------------------------

#[test]
fn initialize_sets_every_field() {
    let mut ctx = InitializeGame {
        authority: addr(1),
        game_state: GameState {
            authority: addr(77),
            treasury_balance: 5,
            total_lands_sold: 6,
            total_sol_collected: 7,
            is_active: false,
            bump: 1,
            vault_bump: 2,
            token_mint: Address::zero(),
            token_vault_bump: 3,
        },
        game_state_bump: 254,
        vault_bump: 253,
    };
    assert_eq!(initialize_game(&mut ctx), Ok(()));
    assert_eq!(
        ctx.game_state,
        GameState {
            authority: addr(1),
            treasury_balance: 0,
            total_lands_sold: 0,
            total_sol_collected: 0,
            is_active: true,
            bump: 254,
            vault_bump: 253,
            token_mint: game_token_mint(),
            token_vault_bump: 0,
        }
    );
    assert_eq!(game_token_mint().bytes[0], 27);
    assert_eq!(game_token_mint().bytes[31], 79);
}

#[test]
fn settings_change_only_for_the_authority() {
    let mut ctx = AdminAction { authority: addr(1), game_state: game() };
    assert_eq!(set_game_active(&mut ctx, false), Ok(()));
    assert!(!ctx.game_state.is_active);
    assert_eq!(set_game_active(&mut ctx, true), Ok(()));
    assert!(ctx.game_state.is_active);
    assert_eq!(set_token_mint(&mut ctx, addr(10)), Ok(()));
    assert_eq!(ctx.game_state.token_mint, addr(10));
    let mut other = AdminAction { authority: addr(2), game_state: game() };
    let before = other;
    assert_eq!(set_game_active(&mut other, false), Err(ColonyError::Unauthorized));
    assert_eq!(set_token_mint(&mut other, addr(10)), Err(ColonyError::Unauthorized));
    assert_eq!(other, before);
    assert!(game().is_authority(&addr(1)));
    assert!(!game().is_authority(&addr(2)));
    assert!(game().accepts_mint(&addr(9)));
    assert!(!game().accepts_mint(&addr(1)));
}

#[test]
fn token_vault_creation_and_close() {
    let mut g = game();
    g.token_vault_bump = 0;
    let mut ctx = InitTokenVault { authority: addr(1), game_state: g, token_mint: addr(9), token_vault_bump: 251 };
    assert_eq!(init_token_vault(&mut ctx), Ok(()));
    assert_eq!(ctx.game_state.token_vault_bump, 251);
    let mut bad = InitTokenVault { authority: addr(2), game_state: g, token_mint: addr(9), token_vault_bump: 251 };
    assert_eq!(init_token_vault(&mut bad), Err(ColonyError::Unauthorized));
    assert_eq!(bad.game_state, g);
    let mut bad = InitTokenVault { authority: addr(1), game_state: g, token_mint: addr(8), token_vault_bump: 251 };
    assert_eq!(init_token_vault(&mut bad), Err(ColonyError::InvalidTokenMint));
    g.token_mint = Address::zero();
    let mut unset = InitTokenVault { authority: addr(1), game_state: g, token_mint: Address::zero(), token_vault_bump: 251 };
    assert_eq!(init_token_vault(&mut unset), Err(ColonyError::TokenMintNotSet));
    assert_eq!(unset.game_state.token_vault_bump, 0);

    let mut close = AdminCloseTokenVault { authority: addr(1), game_state: game() };
    assert_eq!(admin_close_token_vault(&mut close), Ok(()));
    assert_eq!(close.game_state.token_vault_bump, 0);
    let mut close = AdminCloseTokenVault { authority: addr(3), game_state: game() };
    assert_eq!(admin_close_token_vault(&mut close), Err(ColonyError::Unauthorized));
    assert_eq!(close.game_state.token_vault_bump, 252);
}

#[test]
fn withdrawals_take_the_whole_balance() {
    let ctx = WithdrawSol { authority: addr(1), game_state: game(), vault_lamports: 12_345 };
    assert_eq!(withdraw_sol(&ctx), Ok(12_345));
    let ctx = WithdrawSol { authority: addr(1), game_state: game(), vault_lamports: 0 };
    assert_eq!(withdraw_sol(&ctx), Err(ColonyError::InsufficientBalance));
    let ctx = WithdrawSol { authority: addr(2), game_state: game(), vault_lamports: 12_345 };
    assert_eq!(withdraw_sol(&ctx), Err(ColonyError::Unauthorized));

    let ctx = WithdrawTokens { authority: addr(1), game_state: game(), token_mint: addr(9), token_vault_amount: 77 };
    assert_eq!(withdraw_tokens(&ctx), Ok(Transfer { amount: 77, decimals: 6 }));
    let ctx = WithdrawTokens { authority: addr(1), game_state: game(), token_mint: addr(9), token_vault_amount: 0 };
    assert_eq!(withdraw_tokens(&ctx), Err(ColonyError::InsufficientBalance));
    let ctx = WithdrawTokens { authority: addr(1), game_state: game(), token_mint: addr(8), token_vault_amount: 77 };
    assert_eq!(withdraw_tokens(&ctx), Err(ColonyError::InvalidTokenMint));
    let ctx = WithdrawTokens { authority: addr(2), game_state: game(), token_mint: addr(8), token_vault_amount: 0 };
    assert_eq!(withdraw_tokens(&ctx), Err(ColonyError::Unauthorized));
}

#[test]
fn profile_close_needs_an_empty_profile() {
    let ctx = AdminCloseUserProfile { authority: addr(1), game_state: game(), user_profile: profile(2) };
    assert_eq!(admin_close_user_profile(&ctx), Err(ColonyError::UserHasLands));
    let ctx = AdminCloseUserProfile { authority: addr(1), game_state: game(), user_profile: profile(0) };
    assert_eq!(admin_close_user_profile(&ctx), Ok(()));
    let ctx = AdminCloseUserProfile { authority: addr(2), game_state: game(), user_profile: profile(0) };
    assert_eq!(admin_close_user_profile(&ctx), Err(ColonyError::Unauthorized));
}

#[test]
fn land_close_lowers_both_counters() {
    let mut g = game();
    g.total_lands_sold = 5;
    let mut ctx = AdminCloseLand { authority: addr(1), game_state: g, land_data: land(1, 0, 0), user_profile: profile(2) };
    assert_eq!(admin_close_land(&mut ctx), Ok(()));
    assert_eq!(ctx.user_profile.lands_owned, 1);
    assert_eq!(ctx.game_state.total_lands_sold, 4);
    let mut ctx = AdminCloseLand { authority: addr(2), game_state: g, land_data: land(1, 0, 0), user_profile: profile(2) };
    let before = ctx;
    assert_eq!(admin_close_land(&mut ctx), Err(ColonyError::Unauthorized));
    assert_eq!(ctx, before);
    let mut ctx = AdminCloseLand { authority: addr(1), game_state: g, land_data: land(1, 0, 0), user_profile: profile(0) };
    let before = ctx;
    assert_eq!(admin_close_land(&mut ctx), Err(ColonyError::Overflow));
    assert_eq!(ctx, before);
    g.total_lands_sold = 0;
    let mut ctx = AdminCloseLand { authority: addr(1), game_state: g, land_data: land(1, 0, 0), user_profile: profile(2) };
    let before = ctx;
    assert_eq!(admin_close_land(&mut ctx), Err(ColonyError::Overflow));
    assert_eq!(ctx, before);
}

#[test]
fn sold_counter_is_purchases_minus_closes() {
    let mut g = game();
    let mut p = blank_profile();
    let mut purchases: u64 = 0;
    let mut closes: u64 = 0;
    for round in 0..6u16 {
        for k in 0..3u16 {
            let mut ctx = buy_ctx();
            ctx.game_state = g;
            ctx.user_profile = p;
            assert!(buy_land(&mut ctx, 1 + round * 3 + k, MINING_START_TIME).is_ok());
            g = ctx.game_state;
            p = ctx.user_profile;
            purchases += 1;
        }
        for _ in 0..2 {
            let mut ctx = AdminCloseLand { authority: addr(1), game_state: g, land_data: land(1, 0, 0), user_profile: p };
            assert_eq!(admin_close_land(&mut ctx), Ok(()));
            g = ctx.game_state;
            p = ctx.user_profile;
            closes += 1;
        }
        assert_eq!(g.total_lands_sold, purchases - closes);
    }
    assert_eq!(g.total_lands_sold, 6);
    assert_eq!(p.lands_owned, 6);
}
