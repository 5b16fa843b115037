//! The three kinds of persisted record.

use vstd::prelude::*;
use crate::address::Address;
use crate::schedule::{valid_level, MAX_LAND_ID, MAX_LANDS_PER_USER};

verus! {

/// The global configuration record; there is one.
#[derive(Clone, Copy, Debug, PartialEq, Eq)]
pub struct GameState {
    /// The controlling authority.
    pub authority: Address,
    /// Reserved; kept so that the layout stays as it was.
    pub treasury_balance: u64,
    /// Number of parcel records that are open.
    pub total_lands_sold: u64,
    /// Reserved; kept so that the layout stays as it was.
    pub total_sol_collected: u64,
    /// Purchases are accepted only while this is set.
    pub is_active: bool,
    /// Salt of the record's own derived address.
    pub bump: u8,
    /// Salt of the native-currency vault.
    pub vault_bump: u8,
    /// The reward token's registry.
    pub token_mint: Address,
    /// Salt of the reward-token vault; zero while there is none.
    pub token_vault_bump: u8,
}

/// One owned parcel.
#[derive(Clone, Copy, Debug, PartialEq, Eq)]
pub struct LandData {
    /// The parcel's identifier.
    pub land_id: u16,
    /// Who owns the parcel.
    pub owner: Address,
    /// The parcel's level, which sets its daily yield.
    pub level: u8,
    /// Reward accrued up to `last_checkout` and not yet claimed.
    pub fixed_earnings: u64,
    /// The instant from which reward accrues at the current level.
    pub last_checkout: i64,
    /// Salt of the record's derived address.
    pub bump: u8,
}

/// The aggregate record of one owner.
#[derive(Clone, Copy, Debug, PartialEq, Eq)]
pub struct UserProfile {
    /// Whose profile this is.
    pub owner: Address,
    /// Number of parcels that the owner holds.
    pub lands_owned: u8,
    /// Reserved; kept so that the layout stays as it was.
    pub token_balance: u64,
    /// Salt of the record's derived address.
    pub bump: u8,
}

impl GameState {
    /// Whether `caller` is the controlling authority.
    pub open spec fn spec_is_authority(&self, caller: Address) -> bool {
        caller == self.authority
    }

    /// The one authorization test of every privileged operation: whether
    /// `caller` is the stored controlling authority.
    pub fn is_authority(&self, caller: &Address) -> (yes: bool)
        ensures
            yes == self.spec_is_authority(*caller),
    {
        *caller == self.authority
    }

    /// Whether `mint` is the configured token registry.
    pub open spec fn spec_accepts_mint(&self, mint: Address) -> bool {
        mint == self.token_mint
    }

    /// Whether `mint` is the configured token registry.
    pub fn accepts_mint(&self, mint: &Address) -> (yes: bool)
        ensures
            yes == self.spec_accepts_mint(*mint),
    {
        *mint == self.token_mint
    }
}

impl LandData {
    /// A parcel record as the store may hold it: identifier within the
    /// inventory, level within the schedule.
    pub open spec fn wf(&self) -> bool {
        &&& 1 <= self.land_id <= MAX_LAND_ID
        &&& valid_level(self.level)
    }
}

impl UserProfile {
    /// A profile as the store may hold it: no more parcels than the cap.
    pub open spec fn wf(&self) -> bool {
        self.lands_owned <= MAX_LANDS_PER_USER
    }
}

} // verus!
