use colony::address::Address;
use colony::error::ColonyError;
use colony::migration::{
    migrate_v2, MigrateV2, Migration, AUTHORITY_END, AUTHORITY_OFFSET, GAME_STATE_LEN,
    LEGACY_GAME_STATE_LEN,
};

fn legacy_record(authority: u8) -> Vec<u8> {
    let mut data = vec![0xAAu8; LEGACY_GAME_STATE_LEN];
    for i in AUTHORITY_OFFSET..AUTHORITY_END {
        data[i] = authority;
    }
    data
}

#[test]
fn migration_grows_a_legacy_record_with_zeros() {
    let mut ctx = MigrateV2 {
        authority: Address::new([4u8; 32]),
        game_state: legacy_record(4),
        game_state_lamports: 1_000,
    };
    let r = migrate_v2(&mut ctx, 1_600);
    assert_eq!(r, Ok(Migration::Grown { additional_rent: 600 }));
    assert_eq!(ctx.game_state.len(), GAME_STATE_LEN);
    assert_eq!(GAME_STATE_LEN, 100);
    assert_eq!(&ctx.game_state[..67], &legacy_record(4)[..]);
    assert!(ctx.game_state[67..].iter().all(|b| *b == 0));
    assert_eq!(ctx.game_state_lamports, 1_600);
}

#[test]
fn migration_twice_is_a_no_op() {
    let mut ctx = MigrateV2 {
        authority: Address::new([4u8; 32]),
        game_state: legacy_record(4),
        game_state_lamports: 1_000,
    };
    assert!(migrate_v2(&mut ctx, 1_600).is_ok());
    let after_first = ctx.clone();
    assert_eq!(migrate_v2(&mut ctx, 9_999), Ok(Migration::AlreadyCurrent));
    assert_eq!(ctx, after_first);
}

#[test]
fn migration_asks_for_no_rent_when_the_deposit_suffices() {
    let mut ctx = MigrateV2 {
        authority: Address::new([4u8; 32]),
        game_state: legacy_record(4),
        game_state_lamports: 2_000,
    };
    assert_eq!(migrate_v2(&mut ctx, 1_600), Ok(Migration::Grown { additional_rent: 0 }));
    assert_eq!(ctx.game_state_lamports, 2_000);
    assert_eq!(ctx.game_state.len(), 100);
    let mut ctx = MigrateV2 {
        authority: Address::new([4u8; 32]),
        game_state: legacy_record(4),
        game_state_lamports: 0,
    };
    assert_eq!(migrate_v2(&mut ctx, u64::MAX), Ok(Migration::Grown { additional_rent: u64::MAX }));
    assert_eq!(ctx.game_state_lamports, u64::MAX);
}

#[test]
fn migration_reads_the_authority_from_the_raw_bytes() {
    let mut ctx = MigrateV2 {
        authority: Address::new([5u8; 32]),
        game_state: legacy_record(4),
        game_state_lamports: 1_000,
    };
    let before = ctx.clone();
    assert_eq!(migrate_v2(&mut ctx, 1_600), Err(ColonyError::Unauthorized));
    assert_eq!(ctx, before);
    // one byte off at either end of the stored authority
    let mut data = legacy_record(4);
    data[39] = 5;
    let mut ctx = MigrateV2 { authority: Address::new([4u8; 32]), game_state: data, game_state_lamports: 0 };
    assert_eq!(migrate_v2(&mut ctx, 0), Err(ColonyError::Unauthorized));
    let mut data = legacy_record(4);
    data[7] = 4;
    data[40] = 4;
    let mut ctx = MigrateV2 { authority: Address::new([4u8; 32]), game_state: data, game_state_lamports: 0 };
    assert!(migrate_v2(&mut ctx, 0).is_ok());
    // a record of the current length is checked too
    let mut long = legacy_record(4);
    long.resize(120, 1);
    let mut ctx = MigrateV2 { authority: Address::new([5u8; 32]), game_state: long.clone(), game_state_lamports: 0 };
    assert_eq!(migrate_v2(&mut ctx, 0), Err(ColonyError::Unauthorized));
    let mut ctx = MigrateV2 { authority: Address::new([4u8; 32]), game_state: long.clone(), game_state_lamports: 0 };
    assert_eq!(migrate_v2(&mut ctx, 500), Ok(Migration::AlreadyCurrent));
    assert_eq!(ctx.game_state, long);
    assert_eq!(ctx.game_state_lamports, 0);
}

#[test]
fn every_rejection_has_its_text() {
    assert_eq!(ColonyError::InvalidAmount.message(), "Amount must be greater than zero");
    assert_eq!(ColonyError::Overflow.message(), "Arithmetic overflow");
    assert_eq!(ColonyError::Unauthorized.message(), "Unauthorized");
    assert_eq!(ColonyError::GameNotActive.message(), "Game is not active");
    assert_eq!(ColonyError::InvalidLandId.message(), "Invalid land ID (must be 1-21000)");
    assert_eq!(ColonyError::MaxLevelReached.message(), "Land is already at maximum level");
    assert_eq!(ColonyError::NoEarnings.message(), "No earnings to claim");
    assert_eq!(ColonyError::InsufficientTreasury.message(), "Insufficient tokens in treasury");
    assert_eq!(ColonyError::InsufficientBalance.message(), "Insufficient balance");
    assert_eq!(ColonyError::NotLandOwner.message(), "You don't own this land");
    assert_eq!(ColonyError::MaxLandsReached.message(), "Maximum lands per user reached");
    assert_eq!(ColonyError::MiningNotStarted.message(), "Mining has not started yet");
    assert_eq!(ColonyError::TokenMintNotSet.message(), "Token mint not set");
    assert_eq!(ColonyError::InvalidTokenMint.message(), "Invalid token mint");
    assert_eq!(ColonyError::UserHasLands.message(), "User still has lands owned");
}

#[test]
fn migrated_record_has_zero_in_the_added_fields() {
    let mut ctx = MigrateV2 {
        authority: Address::new([4u8; 32]),
        game_state: legacy_record(4),
        game_state_lamports: 0,
    };
    assert!(migrate_v2(&mut ctx, 0).is_ok());
    assert!(Address::read(&ctx.game_state, LEGACY_GAME_STATE_LEN).is_zero());
    assert_eq!(ctx.game_state[99], 0);
    assert_eq!(Address::read(&ctx.game_state, AUTHORITY_OFFSET), Address::new([4u8; 32]));
}
