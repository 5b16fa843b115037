//! The accrual function: what a parcel has earned at a given time.

use vstd::prelude::*;
use crate::error::ColonyError;
use crate::schedule::{
    earning_speed, spec_earning_speed, valid_level, MINING_START_TIME, SECONDS_PER_DAY,
};
use crate::state::LandData;

verus! {

/// Reward accrued over `elapsed` seconds at the rate of `level`, rounded down.
pub open spec fn accrued(level: u8, elapsed: int) -> int {
    spec_earning_speed(level) * elapsed / 86400
}

/// Pending reward of `land` at time `now`.
///
/// Before launch it is the frozen earnings, whatever the time. From launch on
/// it is the frozen earnings plus what accrued since the last checkout. A
/// checkout that lies after `now` has no elapsed time to accrue over and is
/// reported as an arithmetic error, as is any product or sum that does not fit
/// in 64 bits.
pub open spec fn spec_pending(land: LandData, now: i64) -> Result<u64, ColonyError> {
    let elapsed = now - land.last_checkout;
    if now < MINING_START_TIME {
        Ok(land.fixed_earnings)
    } else if elapsed < 0 {
        Err(ColonyError::Overflow)
    } else if spec_earning_speed(land.level) * elapsed > u64::MAX {
        Err(ColonyError::Overflow)
    } else if land.fixed_earnings + accrued(land.level, elapsed) > u64::MAX {
        Err(ColonyError::Overflow)
    } else {
        Ok((land.fixed_earnings + accrued(land.level, elapsed)) as u64)
    }
}

/// Computes the pending reward of `land` at time `now`. From launch on the
/// parcel's level has to be one of the schedule.
pub fn calculate_earnings(land: &LandData, now: i64) -> (pending: Result<u64, ColonyError>)
    requires
        now >= MINING_START_TIME ==> valid_level(land.level),
    ensures
        pending == spec_pending(*land, now),
{
    if now < MINING_START_TIME {
        return Ok(land.fixed_earnings);
    }
    if land.last_checkout > now {
        return Err(ColonyError::Overflow);
    }
    let elapsed: u128 = (now as i128 - land.last_checkout as i128) as u128;
    let speed: u128 = earning_speed(land.level) as u128;
    assert(speed * elapsed <= 79_000_000_000 * 0x1_0000_0000_0000_0000) by (nonlinear_arith)
        requires
            0 <= speed <= 79_000_000_000,
            0 <= elapsed <= 0x1_0000_0000_0000_0000,
    ;
    let product: u128 = speed * elapsed;
    if product > u64::MAX as u128 {
        return Err(ColonyError::Overflow);
    }
    let earned: u128 = product / (SECONDS_PER_DAY as u128) + land.fixed_earnings as u128;
    if earned > u64::MAX as u128 {
        return Err(ColonyError::Overflow);
    }
    Ok(earned as u64)
}

/// Before launch the pending reward is the frozen earnings, whatever the time
/// and whatever the last checkout.
pub proof fn lemma_pending_before_launch(land: LandData, now: i64)
    requires
        now < MINING_START_TIME,
    ensures
        spec_pending(land, now) == Ok::<u64, ColonyError>(land.fixed_earnings),
{
}

/// From launch on, the pending reward of an unchanged parcel does not shrink
/// as time advances: if it can be computed at the later time, it can be
/// computed at the earlier one too, and is no larger there.
pub proof fn lemma_pending_monotonic(land: LandData, earlier: i64, later: i64)
    requires
        valid_level(land.level),
        MINING_START_TIME <= earlier <= later,
        land.last_checkout <= earlier,
        spec_pending(land, later) is Ok,
    ensures
        spec_pending(land, earlier) is Ok,
        spec_pending(land, earlier)->Ok_0 <= spec_pending(land, later)->Ok_0,
{
    let speed = spec_earning_speed(land.level);
    let e1 = earlier - land.last_checkout;
    let e2 = later - land.last_checkout;
    assert(0 < speed);
    assert(speed * e1 <= speed * e2) by (nonlinear_arith)
        requires
            0 < speed,
            0 <= e1 <= e2,
    ;
    assert(speed * e1 / 86400 <= speed * e2 / 86400) by (nonlinear_arith)
        requires
            speed * e1 <= speed * e2,
    ;
    assert(0 <= speed * e1 / 86400) by (nonlinear_arith)
        requires
            0 < speed,
            0 <= e1,
    ;
}

/// With no time elapsed since the last checkout, the pending reward is the
/// frozen earnings.
pub proof fn lemma_pending_at_checkout(land: LandData)
    ensures
        spec_pending(land, land.last_checkout) == Ok::<u64, ColonyError>(land.fixed_earnings),
{
    assert(spec_earning_speed(land.level) * 0 == 0);
    assert(0int / 86400 == 0);
}

} // verus!
