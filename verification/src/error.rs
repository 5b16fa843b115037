//! The ways in which an operation can be rejected.

use vstd::prelude::*;

verus! {

/// Why an operation was rejected. A rejected operation changes no record.
#[derive(Clone, Copy, Debug, PartialEq, Eq, Structural)]
pub enum ColonyError {
    /// An amount was zero where a positive one is needed.
    InvalidAmount,
    /// A checked addition, subtraction or multiplication left its range.
    Overflow,
    /// The caller is not the controlling authority.
    Unauthorized,
    /// The configuration is paused.
    GameNotActive,
    /// The parcel identifier is outside the inventory.
    InvalidLandId,
    /// The parcel is already at the highest level.
    MaxLevelReached,
    /// Nothing has accrued that could be claimed.
    NoEarnings,
    /// The reward vault holds less than what is owed.
    InsufficientTreasury,
    /// The balance does not cover the amount.
    InsufficientBalance,
    /// The caller does not own the parcel.
    NotLandOwner,
    /// The owner already holds the most parcels allowed.
    MaxLandsReached,
    /// The launch time has not come yet.
    MiningNotStarted,
    /// The token registry pointer is the zero identity.
    TokenMintNotSet,
    /// The token registry handed in is not the configured one.
    InvalidTokenMint,
    /// The profile still counts parcels.
    UserHasLands,
}

impl ColonyError {
    /// The text shown to a caller whose operation was rejected.
    pub open spec fn spec_message(self) -> Seq<char> {
        match self {
            ColonyError::InvalidAmount => "Amount must be greater than zero"@,
            ColonyError::Overflow => "Arithmetic overflow"@,
            ColonyError::Unauthorized => "Unauthorized"@,
            ColonyError::GameNotActive => "Game is not active"@,
            ColonyError::InvalidLandId => "Invalid land ID (must be 1-21000)"@,
            ColonyError::MaxLevelReached => "Land is already at maximum level"@,
            ColonyError::NoEarnings => "No earnings to claim"@,
            ColonyError::InsufficientTreasury => "Insufficient tokens in treasury"@,
            ColonyError::InsufficientBalance => "Insufficient balance"@,
            ColonyError::NotLandOwner => "You don't own this land"@,
            ColonyError::MaxLandsReached => "Maximum lands per user reached"@,
            ColonyError::MiningNotStarted => "Mining has not started yet"@,
            ColonyError::TokenMintNotSet => "Token mint not set"@,
            ColonyError::InvalidTokenMint => "Invalid token mint"@,
            ColonyError::UserHasLands => "User still has lands owned"@,
        }
    }

    /// The text shown to a caller whose operation was rejected.
    pub fn message(&self) -> (text: &'static str)
        ensures
            text@ == self.spec_message(),
    {
        match self {
            ColonyError::InvalidAmount => "Amount must be greater than zero",
            ColonyError::Overflow => "Arithmetic overflow",
            ColonyError::Unauthorized => "Unauthorized",
            ColonyError::GameNotActive => "Game is not active",
            ColonyError::InvalidLandId => "Invalid land ID (must be 1-21000)",
            ColonyError::MaxLevelReached => "Land is already at maximum level",
            ColonyError::NoEarnings => "No earnings to claim",
            ColonyError::InsufficientTreasury => "Insufficient tokens in treasury",
            ColonyError::InsufficientBalance => "Insufficient balance",
            ColonyError::NotLandOwner => "You don't own this land",
            ColonyError::MaxLandsReached => "Maximum lands per user reached",
            ColonyError::MiningNotStarted => "Mining has not started yet",
            ColonyError::TokenMintNotSet => "Token mint not set",
            ColonyError::InvalidTokenMint => "Invalid token mint",
            ColonyError::UserHasLands => "User still has lands owned",
        }
    }
}

} // verus!
