//! The fixed economic schedule: caps, prices, and the per-level tables.

use vstd::prelude::*;

verus! {

/// Number of base units in one token (six decimals).
pub const TOKEN_MULTIPLIER: u64 = 1_000_000;

/// Decimals of the game token.
pub const TOKEN_DECIMALS: u8 = 6;

/// Price of one parcel, in base units; burned on purchase.
pub const LAND_PRICE_TOKENS: u64 = 10_000_000_000;

/// Highest parcel identifier; identifiers start at 1.
pub const MAX_LAND_ID: u16 = 21000;

/// Most parcels one owner may hold.
pub const MAX_LANDS_PER_USER: u8 = 10;

/// Highest level of a parcel; levels start at 1.
pub const MAX_LEVEL: u8 = 10;

/// Length of a day in seconds.
pub const SECONDS_PER_DAY: u64 = 86400;

/// The instant before which nothing accrues.
pub const MINING_START_TIME: i64 = 1771340400;

/// Whether `level` is a level that a parcel can have.
pub open spec fn valid_level(level: u8) -> bool {
    1 <= level <= MAX_LEVEL
}

/// Daily yield of a parcel of the given level, in whole tokens.
pub open spec fn speed_tokens(level: u8) -> int {
    if level == 1 {
        1_000
    } else if level == 2 {
        2_000
    } else if level == 3 {
        3_000
    } else if level == 4 {
        5_000
    } else if level == 5 {
        8_000
    } else if level == 6 {
        13_000
    } else if level == 7 {
        21_000
    } else if level == 8 {
        34_000
    } else if level == 9 {
        45_000
    } else {
        79_000
    }
}

/// Cost of raising a parcel from `level` to the next, in whole tokens.
pub open spec fn cost_tokens(level: u8) -> int {
    if level == 1 {
        1_000
    } else if level == 2 {
        2_000
    } else if level == 3 {
        4_000
    } else if level == 4 {
        8_000
    } else if level == 5 {
        16_000
    } else if level == 6 {
        32_000
    } else if level == 7 {
        64_000
    } else if level == 8 {
        128_000
    } else {
        152_000
    }
}

/// Daily yield of a parcel of the given level, in base units.
pub open spec fn spec_earning_speed(level: u8) -> int {
    speed_tokens(level) * 1_000_000
}

/// Cost of raising a parcel from `level` to the next, in base units.
pub open spec fn spec_upgrade_cost(level: u8) -> int {
    cost_tokens(level) * 1_000_000
}

/// Daily yield of a parcel of the given level, in base units.
pub fn earning_speed(level: u8) -> (speed: u64)
    requires
        valid_level(level),
    ensures
        speed == spec_earning_speed(level),
        0 < speed <= 79_000_000_000,
{
    let speeds: [u64; 10] = [
        1_000_000_000,
        2_000_000_000,
        3_000_000_000,
        5_000_000_000,
        8_000_000_000,
        13_000_000_000,
        21_000_000_000,
        34_000_000_000,
        45_000_000_000,
        79_000_000_000,
    ];
    let index: usize = (level - 1) as usize;
    speeds[index]
}

/// Cost of raising a parcel from `level` to the next, in base units.
pub fn upgrade_cost(level: u8) -> (cost: u64)
    requires
        1 <= level < MAX_LEVEL,
    ensures
        cost == spec_upgrade_cost(level),
{
    let costs: [u64; 9] = [
        1_000_000_000,
        2_000_000_000,
        4_000_000_000,
        8_000_000_000,
        16_000_000_000,
        32_000_000_000,
        64_000_000_000,
        128_000_000_000,
        152_000_000_000,
    ];
    let index: usize = (level - 1) as usize;
    costs[index]
}

} // verus!
