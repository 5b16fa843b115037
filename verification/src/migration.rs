//! Growing a configuration record of the earlier, shorter layout.
//!
//! A record of the earlier layout ends after the vault salt. The current
//! layout adds the token registry and the salt of the reward vault. Until a
//! record has been grown, only its raw bytes can be trusted, so the
//! controlling authority is read from them at its fixed place.

use vstd::prelude::*;
use crate::address::{zero_bytes, Address};
use crate::error::ColonyError;

verus! {

/// Where the controlling authority starts in the raw record, after the tag.
pub const AUTHORITY_OFFSET: usize = 8;

/// Where the controlling authority ends in the raw record.
pub const AUTHORITY_END: usize = 40;

/// Length of a raw record of the earlier layout.
pub const LEGACY_GAME_STATE_LEN: usize = 67;

/// Length of a raw record of the current layout: the tag, then 32 + 8 + 8 +
/// 8 + 1 + 1 + 1 + 32 + 1 bytes of fields.
pub const GAME_STATE_LEN: usize = 100;

/// What a migration reads and writes.
#[derive(Clone, Debug, PartialEq, Eq)]
pub struct MigrateV2 {
    /// The caller.
    pub authority: Address,
    /// The raw bytes of the configuration record.
    pub game_state: Vec<u8>,
    /// The storage deposit that the record holds.
    pub game_state_lamports: u64,
}

/// How a migration that was let through ended.
#[derive(Clone, Copy, Debug, PartialEq, Eq, Structural)]
pub enum Migration {
    /// The record already had the current length; nothing was done.
    AlreadyCurrent,
    /// The record was grown; `additional_rent` is to be moved from the
    /// authority to the record, and is part of its deposit from now on.
    Grown { additional_rent: u64 },
}

/// The bytes of the controlling authority in a raw record.
pub open spec fn stored_authority(data: Seq<u8>) -> Seq<u8> {
    data.subrange(8, 40)
}

/// Whether `caller` may migrate the raw record `data`.
pub open spec fn may_migrate(caller: Address, data: Seq<u8>) -> bool {
    caller@ == stored_authority(data)
}

/// A raw record brought to the current length: as it is when it is long
/// enough, else with zero bytes added at its end.
pub open spec fn grown(data: Seq<u8>) -> Seq<u8> {
    if data.len() >= GAME_STATE_LEN {
        data
    } else {
        data + Seq::new((GAME_STATE_LEN - data.len()) as nat, |i: int| 0u8)
    }
}

/// What has to be added to a deposit of `balance` so that it reaches
/// `minimum`.
pub open spec fn shortfall(minimum: u64, balance: u64) -> u64 {
    if minimum > balance {
        (minimum - balance) as u64
    } else {
        0
    }
}

/// What a migration by `caller` reports for the raw record `data` with a
/// deposit of `balance`, when a record of the current length needs a deposit
/// of `minimum`.
pub open spec fn migration_result(caller: Address, data: Seq<u8>, balance: u64, minimum: u64)
    -> Result<Migration, ColonyError> {
    if !may_migrate(caller, data) {
        Err(ColonyError::Unauthorized)
    } else if data.len() >= GAME_STATE_LEN {
        Ok(Migration::AlreadyCurrent)
    } else {
        Ok(Migration::Grown { additional_rent: shortfall(minimum, balance) })
    }
}

/// Brings the configuration record to the current layout.
///
/// Only the authority stored in the raw record may do so. A record that has
/// the current length already is left alone. A shorter one is filled up with
/// zero bytes, which gives the added fields their zero values, and its deposit
/// is raised to `minimum_balance`, the deposit that the store asks for a record
/// of the current length.
pub fn migrate_v2(ctx: &mut MigrateV2, minimum_balance: u64) -> (r: Result<Migration, ColonyError>)
    requires
        old(ctx).game_state@.len() >= AUTHORITY_END,
    ensures
        r == migration_result(
            old(ctx).authority,
            old(ctx).game_state@,
            old(ctx).game_state_lamports,
            minimum_balance,
        ),
        final(ctx).authority == old(ctx).authority,
        match r {
            Err(_) => {
                &&& final(ctx).game_state@ == old(ctx).game_state@
                &&& final(ctx).game_state_lamports == old(ctx).game_state_lamports
            },
            Ok(Migration::AlreadyCurrent) => {
                &&& final(ctx).game_state@ == old(ctx).game_state@
                &&& final(ctx).game_state_lamports == old(ctx).game_state_lamports
            },
            Ok(Migration::Grown { additional_rent }) => {
                &&& final(ctx).game_state@ == grown(old(ctx).game_state@)
                &&& final(ctx).game_state_lamports == old(ctx).game_state_lamports
                    + additional_rent
                &&& final(ctx).game_state_lamports >= minimum_balance
            },
        },
{
    let stored = Address::read(ctx.game_state.as_slice(), AUTHORITY_OFFSET);
    proof {
        crate::address::lemma_address_ext_iff(ctx.authority, stored);
    }
    if ctx.authority != stored {
        return Err(ColonyError::Unauthorized);
    }
    if ctx.game_state.len() >= GAME_STATE_LEN {
        return Ok(Migration::AlreadyCurrent);
    }
    let additional_rent: u64 = minimum_balance.saturating_sub(ctx.game_state_lamports);
    ctx.game_state_lamports = ctx.game_state_lamports + additional_rent;
    while ctx.game_state.len() < GAME_STATE_LEN
        invariant
            old(ctx).game_state@.len() <= ctx.game_state@.len() <= GAME_STATE_LEN,
            ctx.game_state@ == old(ctx).game_state@ + Seq::new(
                (ctx.game_state@.len() - old(ctx).game_state@.len()) as nat,
                |i: int| 0u8,
            ),
            ctx.authority == old(ctx).authority,
            ctx.game_state_lamports == old(ctx).game_state_lamports + additional_rent,
        decreases GAME_STATE_LEN - ctx.game_state@.len(),
    {
        ctx.game_state.push(0);
        assert(ctx.game_state@ =~= old(ctx).game_state@ + Seq::new(
            (ctx.game_state@.len() - old(ctx).game_state@.len()) as nat,
            |i: int| 0u8,
        ));
    }
    Ok(Migration::Grown { additional_rent })
}

/// A migration that went through may be repeated without harm: the record
/// that it leaves still names the same authority, and a further migration of
/// it reports success and finds nothing to do, whatever the deposits.
pub proof fn lemma_migration_idempotent(
    caller: Address,
    data: Seq<u8>,
    balance: u64,
    minimum: u64,
    later_balance: u64,
    later_minimum: u64,
)
    requires
        data.len() >= AUTHORITY_END,
        migration_result(caller, data, balance, minimum) is Ok,
    ensures
        migration_result(caller, grown(data), later_balance, later_minimum) == Ok::<
            Migration,
            ColonyError,
        >(Migration::AlreadyCurrent),
        grown(grown(data)) == grown(data),
{
    assert(stored_authority(grown(data)) =~= stored_authority(data));
}

/// Growing a record of the earlier layout keeps what it held and gives the
/// added fields their zero values: the token registry is the zero identity
/// and the salt of the reward vault is zero.
pub proof fn lemma_added_fields_are_zero(data: Seq<u8>)
    requires
        data.len() == LEGACY_GAME_STATE_LEN,
    ensures
        grown(data).len() == GAME_STATE_LEN,
        grown(data).subrange(0, LEGACY_GAME_STATE_LEN as int) == data,
        grown(data).subrange(LEGACY_GAME_STATE_LEN as int, GAME_STATE_LEN - 1) == zero_bytes(),
        grown(data)[GAME_STATE_LEN - 1] == 0u8,
{
    assert(grown(data).subrange(0, LEGACY_GAME_STATE_LEN as int) =~= data);
    assert(grown(data).subrange(LEGACY_GAME_STATE_LEN as int, GAME_STATE_LEN - 1)
        =~= zero_bytes());
}

} // verus!
