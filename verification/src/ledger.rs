//! The configuration, the parcel store and the profile store under one root.
//!
//! The parcel store holds one record per owned parcel and is keyed by the
//! parcel's identifier; the profile store holds one record per owner and is
//! keyed by the owner. A record is created by a purchase and removed only by
//! the controlling authority.

use vstd::prelude::*;
use crate::address::Address;
use crate::admin::{
    admin_close_land, admin_close_user_profile, close_land_error, land_closed, AdminCloseLand,
    AdminCloseUserProfile,
};
use crate::claim::{claim_earnings, claim_error, claimed, ClaimEarnings};
use crate::earnings::{calculate_earnings, spec_pending};
use crate::error::ColonyError;
use crate::purchase::{bought, buy_land, buy_land_error, BuyLand};
use crate::state::{GameState, LandData, UserProfile};
use crate::token::{Burn, Transfer};
use crate::upgrade::{upgrade_error, upgrade_land, upgraded, UpgradeLand};

verus! {

/// Why the ledger did not carry an operation out.
#[derive(Clone, Copy, Debug, PartialEq, Eq, Structural)]
pub enum Refusal {
    /// A record that the operation works on is not in its store.
    NotFound,
    /// The record that the operation creates is in its store already.
    AlreadyExists,
    /// The records are there, and the rules reject the operation.
    Rejected(ColonyError),
}

/// The whole state: the configuration record and the two record stores.
#[derive(Clone, Debug, PartialEq, Eq)]
pub struct Ledger {
    /// The configuration record.
    pub game_state: GameState,
    /// The parcel records that are open.
    pub lands: Vec<LandData>,
    /// The profiles that are open.
    pub profiles: Vec<UserProfile>,
}

/// Whether `lands` holds a record of parcel `land_id`.
pub open spec fn holds_land(lands: Seq<LandData>, land_id: u16) -> bool {
    exists|i: int| 0 <= i < lands.len() && (#[trigger] lands[i]).land_id == land_id
}

/// Whether `profiles` holds the profile of `owner`.
pub open spec fn holds_profile(profiles: Seq<UserProfile>, owner: Address) -> bool {
    exists|i: int| 0 <= i < profiles.len() && (#[trigger] profiles[i]).owner == owner
}

/// Whether index `i` is where `lands` holds parcel `land_id`.
pub open spec fn land_at(lands: Seq<LandData>, land_id: u16, i: int) -> bool {
    0 <= i < lands.len() && lands[i].land_id == land_id
}

/// Whether index `i` is where `profiles` holds the profile of `owner`.
pub open spec fn profile_at(profiles: Seq<UserProfile>, owner: Address, i: int) -> bool {
    0 <= i < profiles.len() && profiles[i].owner == owner
}

/// No two records of `lands` are of the same parcel.
pub open spec fn distinct_lands(lands: Seq<LandData>) -> bool {
    forall|i: int, j: int|
        0 <= i < j < lands.len() ==> (#[trigger] lands[i]).land_id != (#[trigger] lands[j]).land_id
}

/// No two records of `profiles` are of the same owner.
pub open spec fn distinct_profiles(profiles: Seq<UserProfile>) -> bool {
    forall|i: int, j: int|
        0 <= i < j < profiles.len() ==> (#[trigger] profiles[i]).owner != (
        #[trigger] profiles[j]).owner
}

/// Number of records in `lands` that belong to `owner`.
pub open spec fn owned_by(lands: Seq<LandData>, owner: Address) -> nat
    decreases lands.len(),
{
    if lands.len() == 0 {
        0
    } else {
        owned_by(lands.drop_last(), owner) + if lands.last().owner == owner {
            1nat
        } else {
            0nat
        }
    }
}

/// A record more counts for its owner and for nobody else.
pub proof fn lemma_owned_push(lands: Seq<LandData>, land: LandData, owner: Address)
    ensures
        owned_by(lands.push(land), owner) == owned_by(lands, owner) + if land.owner == owner {
            1nat
        } else {
            0nat
        },
{
    assert(lands.push(land).drop_last() =~= lands);
}

/// Changing a record without changing its owner changes nobody's count.
pub proof fn lemma_owned_update(lands: Seq<LandData>, i: int, land: LandData, owner: Address)
    requires
        0 <= i < lands.len(),
        land.owner == lands[i].owner,
    ensures
        owned_by(lands.update(i, land), owner) == owned_by(lands, owner),
    decreases lands.len(),
{
    if i == lands.len() - 1 {
        assert(lands.update(i, land).drop_last() =~= lands.drop_last());
    } else {
        assert(lands.update(i, land).drop_last() =~= lands.drop_last().update(i, land));
        lemma_owned_update(lands.drop_last(), i, land, owner);
    }
}

/// A record less counts one less for its owner and the same for everybody
/// else.
pub proof fn lemma_owned_remove(lands: Seq<LandData>, i: int, owner: Address)
    requires
        0 <= i < lands.len(),
    ensures
        owned_by(lands.remove(i), owner) + (if lands[i].owner == owner {
            1nat
        } else {
            0nat
        }) == owned_by(lands, owner),
    decreases lands.len(),
{
    if i == lands.len() - 1 {
        assert(lands.remove(i) =~= lands.drop_last());
    } else {
        assert(lands.remove(i).drop_last() =~= lands.drop_last().remove(i));
        assert(lands.remove(i).last() == lands.last());
        lemma_owned_remove(lands.drop_last(), i, owner);
    }
}

/// Somebody's count is zero exactly when no record belongs to them.
pub proof fn lemma_owned_zero(lands: Seq<LandData>, owner: Address)
    ensures
        owned_by(lands, owner) == 0 <==> forall|i: int|
            0 <= i < lands.len() ==> (#[trigger] lands[i]).owner != owner,
    decreases lands.len(),
{
    if lands.len() > 0 {
        lemma_owned_zero(lands.drop_last(), owner);
        if owned_by(lands, owner) == 0 {
            assert forall|i: int| 0 <= i < lands.len() implies (#[trigger] lands[i]).owner
                != owner by {
                if i < lands.len() - 1 {
                    assert(lands.drop_last()[i] == lands[i]);
                }
            }
        } else {
            if forall|i: int| 0 <= i < lands.len() ==> (#[trigger] lands[i]).owner != owner {
                assert(lands.last() == lands[lands.len() - 1]);
                assert forall|i: int| 0 <= i < lands.drop_last().len() implies (
                #[trigger] lands.drop_last()[i]).owner != owner by {
                    assert(lands.drop_last()[i] == lands[i]);
                }
            }
        }
    }
}

/// Every record of `lands` belongs to somebody with a profile in `profiles`.
pub open spec fn owners_have_profiles(lands: Seq<LandData>, profiles: Seq<UserProfile>) -> bool {
    forall|i: int| 0 <= i < lands.len() ==> holds_profile(profiles, (#[trigger] lands[i]).owner)
}

/// Every profile of `profiles` counts the records of `lands` that belong to
/// its owner.
pub open spec fn counts_match(lands: Seq<LandData>, profiles: Seq<UserProfile>) -> bool {
    forall|p: int|
        0 <= p < profiles.len() ==> (#[trigger] profiles[p]).lands_owned == owned_by(
            lands,
            profiles[p].owner,
        )
}

/// Changing one record without changing its owner keeps owners and counts in
/// step.
pub proof fn lemma_update_keeps_step(
    lands: Seq<LandData>,
    profiles: Seq<UserProfile>,
    i: int,
    land: LandData,
)
    requires
        0 <= i < lands.len(),
        land.owner == lands[i].owner,
        owners_have_profiles(lands, profiles),
        counts_match(lands, profiles),
    ensures
        owners_have_profiles(lands.update(i, land), profiles),
        counts_match(lands.update(i, land), profiles),
{
    let after = lands.update(i, land);
    assert forall|k: int| 0 <= k < after.len() implies holds_profile(
        profiles,
        (#[trigger] after[k]).owner,
    ) by {
        assert(after[k].owner == lands[k].owner);
    }
    assert forall|p: int| 0 <= p < profiles.len() implies (#[trigger] profiles[p]).lands_owned
        == owned_by(after, profiles[p].owner) by {
        lemma_owned_update(lands, i, land, profiles[p].owner);
    }
}

/// A purchase keeps owners and counts in step: the buyer's profile, stored
/// before or not, counts one more, and the new record is the buyer's.
pub proof fn lemma_purchase_keeps_step(
    lands: Seq<LandData>,
    profiles: Seq<UserProfile>,
    land: LandData,
    profile: UserProfile,
    slot: Option<int>,
)
    requires
        owners_have_profiles(lands, profiles),
        counts_match(lands, profiles),
        distinct_profiles(profiles),
        land.owner == profile.owner,
        match slot {
            Some(p) => profile_at(profiles, profile.owner, p) && profile.lands_owned
                == profiles[p].lands_owned + 1,
            None => !holds_profile(profiles, profile.owner) && profile.lands_owned == 1,
        },
    ensures
        owners_have_profiles(
            lands.push(land),
            match slot {
                Some(p) => profiles.update(p, profile),
                None => profiles.push(profile),
            },
        ),
        counts_match(
            lands.push(land),
            match slot {
                Some(p) => profiles.update(p, profile),
                None => profiles.push(profile),
            },
        ),
{
    let after_lands = lands.push(land);
    let after = match slot {
        Some(p) => profiles.update(p, profile),
        None => profiles.push(profile),
    };
    let place = match slot {
        Some(p) => p,
        None => profiles.len() as int,
    };
    assert(after[place] == profile);
    assert forall|k: int| 0 <= k < after_lands.len() implies holds_profile(
        after,
        (#[trigger] after_lands[k]).owner,
    ) by {
        if k < lands.len() {
            assert(after_lands[k] == lands[k]);
            let w = choose|w: int|
                0 <= w < profiles.len() && (#[trigger] profiles[w]).owner == lands[k].owner;
            assert(after[w].owner == lands[k].owner);
        } else {
            assert(after[place].owner == land.owner);
        }
    }
    if slot is None {
        assert forall|i: int| 0 <= i < lands.len() implies (#[trigger] lands[i]).owner
            != profile.owner by {
            if lands[i].owner == profile.owner {
                assert(holds_profile(profiles, lands[i].owner));
            }
        }
        lemma_owned_zero(lands, profile.owner);
    }
    assert forall|q: int| 0 <= q < after.len() implies (#[trigger] after[q]).lands_owned
        == owned_by(after_lands, after[q].owner) by {
        lemma_owned_push(lands, land, after[q].owner);
        if q != place {
            assert(after[q] == profiles[q]);
            if slot is Some {
                assert(profiles[place].owner == profile.owner);
            }
            assert(profiles[q].owner != profile.owner);
        } else {
            if slot is Some {
                assert(profiles[place].lands_owned == owned_by(lands, profiles[place].owner));
            }
        }
    }
}

/// The forced close of the record at `i`, whose owner's profile at `p` then
/// counts one less, keeps owners and counts in step.
pub proof fn lemma_close_keeps_step(
    lands: Seq<LandData>,
    profiles: Seq<UserProfile>,
    i: int,
    p: int,
    profile: UserProfile,
)
    requires
        owners_have_profiles(lands, profiles),
        counts_match(lands, profiles),
        distinct_profiles(profiles),
        0 <= i < lands.len(),
        profile_at(profiles, lands[i].owner, p),
        profile.owner == profiles[p].owner,
        profile.lands_owned + 1 == profiles[p].lands_owned,
    ensures
        owners_have_profiles(lands.remove(i), profiles.update(p, profile)),
        counts_match(lands.remove(i), profiles.update(p, profile)),
{
    let after_lands = lands.remove(i);
    let after = profiles.update(p, profile);
    assert forall|k: int| 0 <= k < after_lands.len() implies holds_profile(
        after,
        (#[trigger] after_lands[k]).owner,
    ) by {
        let from = if k < i {
            k
        } else {
            k + 1
        };
        assert(after_lands[k] == lands[from]);
        let w = choose|w: int|
            0 <= w < profiles.len() && (#[trigger] profiles[w]).owner == lands[from].owner;
        assert(after[w].owner == lands[from].owner);
    }
    assert forall|q: int| 0 <= q < after.len() implies (#[trigger] after[q]).lands_owned
        == owned_by(after_lands, after[q].owner) by {
        lemma_owned_remove(lands, i, after[q].owner);
        if q != p {
            assert(after[q] == profiles[q]);
            assert(profiles[q].owner != profiles[p].owner);
        } else {
            assert(profiles[p].lands_owned == owned_by(lands, profiles[p].owner));
        }
    }
}

/// Removing a profile that counts nothing keeps owners and counts in step.
pub proof fn lemma_profile_close_keeps_step(
    lands: Seq<LandData>,
    profiles: Seq<UserProfile>,
    p: int,
)
    requires
        owners_have_profiles(lands, profiles),
        counts_match(lands, profiles),
        0 <= p < profiles.len(),
        profiles[p].lands_owned == 0,
    ensures
        owners_have_profiles(lands, profiles.remove(p)),
        counts_match(lands, profiles.remove(p)),
{
    let after = profiles.remove(p);
    lemma_owned_zero(lands, profiles[p].owner);
    assert forall|k: int| 0 <= k < lands.len() implies holds_profile(
        after,
        (#[trigger] lands[k]).owner,
    ) by {
        let w = choose|w: int|
            0 <= w < profiles.len() && (#[trigger] profiles[w]).owner == lands[k].owner;
        assert(w != p);
        let to = if w < p {
            w
        } else {
            w - 1
        };
        assert(after[to] == profiles[w]);
    }
    assert forall|q: int| 0 <= q < after.len() implies (#[trigger] after[q]).lands_owned
        == owned_by(lands, after[q].owner) by {
        let from = if q < p {
            q
        } else {
            q + 1
        };
        assert(after[q] == profiles[from]);
    }
}

/// The profile that the first purchase of `owner` starts from.
pub open spec fn fresh_profile(owner: Address) -> UserProfile {
    UserProfile { owner, lands_owned: 0, token_balance: 0, bump: 0 }
}

/// The record that the store sets aside for a parcel that `owner` is about
/// to buy; the purchase fills in every field.
pub open spec fn fresh_land(owner: Address) -> LandData {
    LandData { land_id: 0, owner, level: 0, fixed_earnings: 0, last_checkout: 0, bump: 0 }
}

/// Whether two ledgers hold the same configuration and the same records.
pub open spec fn same_records(a: Ledger, b: Ledger) -> bool {
    &&& a.game_state == b.game_state
    &&& a.lands@ == b.lands@
    &&& a.profiles@ == b.profiles@
}

/// How a purchase ends that was handed the records `ctx`, with the buyer's
/// profile at `slot` of the profile store, or not yet in it.
pub open spec fn purchase_outcome(
    before: Ledger,
    after: Ledger,
    r: Result<Burn, Refusal>,
    ctx: BuyLand,
    slot: Option<int>,
    land_id: u16,
    now: i64,
) -> bool {
    match buy_land_error(ctx, land_id) {
        Some(e) => r == Err::<Burn, Refusal>(Refusal::Rejected(e)) && same_records(before, after),
        None => {
            &&& r == Ok::<Burn, Refusal>(
                (Burn {
                    amount: crate::schedule::LAND_PRICE_TOKENS,
                    decimals: crate::schedule::TOKEN_DECIMALS,
                }),
            )
            &&& after.game_state == bought(ctx, land_id, now).game_state
            &&& after.lands@ == before.lands@.push(bought(ctx, land_id, now).land_data)
            &&& after.profiles@ == match slot {
                Some(p) => before.profiles@.update(p, bought(ctx, land_id, now).user_profile),
                None => before.profiles@.push(bought(ctx, land_id, now).user_profile),
            }
        },
    }
}

/// How a claim ends that was handed the records `ctx`, with the parcel at
/// index `i` of the parcel store.
pub open spec fn claim_outcome(
    before: Ledger,
    after: Ledger,
    r: Result<Transfer, Refusal>,
    ctx: ClaimEarnings,
    i: int,
    now: i64,
) -> bool {
    match claim_error(ctx, now) {
        Some(e) => r == Err::<Transfer, Refusal>(Refusal::Rejected(e)) && same_records(
            before,
            after,
        ),
        None => {
            &&& r == Ok::<Transfer, Refusal>(
                (Transfer {
                    amount: spec_pending(ctx.land_data, now)->Ok_0,
                    decimals: crate::schedule::TOKEN_DECIMALS,
                }),
            )
            &&& after.game_state == before.game_state
            &&& after.profiles@ == before.profiles@
            &&& after.lands@ == before.lands@.update(i, claimed(ctx, now).land_data)
        },
    }
}

/// How an upgrade ends that was handed the records `ctx`, with the parcel at
/// index `i` of the parcel store.
pub open spec fn upgrade_outcome(
    before: Ledger,
    after: Ledger,
    r: Result<Burn, Refusal>,
    ctx: UpgradeLand,
    i: int,
    now: i64,
) -> bool {
    match upgrade_error(ctx, now) {
        Some(e) => r == Err::<Burn, Refusal>(Refusal::Rejected(e)) && same_records(before, after),
        None => {
            &&& r == Ok::<Burn, Refusal>(
                (Burn {
                    amount: crate::schedule::spec_upgrade_cost(ctx.land_data.level) as u64,
                    decimals: crate::schedule::TOKEN_DECIMALS,
                }),
            )
            &&& after.game_state == before.game_state
            &&& after.profiles@ == before.profiles@
            &&& after.lands@ == before.lands@.update(i, upgraded(ctx, now).land_data)
        },
    }
}

/// How the forced close of the parcel at index `i` ends, with its owner's
/// profile at index `p`.
pub open spec fn close_land_outcome(
    before: Ledger,
    after: Ledger,
    r: Result<(), Refusal>,
    ctx: AdminCloseLand,
    i: int,
    p: int,
) -> bool {
    match close_land_error(ctx) {
        Some(e) => r == Err::<(), Refusal>(Refusal::Rejected(e)) && same_records(before, after),
        None => {
            &&& r is Ok
            &&& after.game_state == land_closed(ctx).game_state
            &&& after.lands@ == before.lands@.remove(i)
            &&& after.profiles@ == before.profiles@.update(p, land_closed(ctx).user_profile)
        },
    }
}

impl Ledger {
    /// What holds of the ledger after every operation: each parcel has at most
    /// one record and each owner at most one profile, every record is within
    /// its bounds, the sold counter is the number of open parcel records, every
    /// parcel's owner has a profile, and every profile counts the parcels
    /// that its owner holds.
    pub open spec fn wf(&self) -> bool {
        &&& self.game_state.total_lands_sold == self.lands@.len()
        &&& distinct_lands(self.lands@)
        &&& distinct_profiles(self.profiles@)
        &&& forall|i: int| 0 <= i < self.lands@.len() ==> (#[trigger] self.lands@[i]).wf()
        &&& forall|i: int| 0 <= i < self.profiles@.len() ==> (#[trigger] self.profiles@[i]).wf()
        &&& owners_have_profiles(self.lands@, self.profiles@)
        &&& counts_match(self.lands@, self.profiles@)
    }

    /// A ledger with the given configuration and no records.
    pub fn new(game_state: GameState) -> (ledger: Ledger)
        ensures
            ledger.game_state == (GameState { total_lands_sold: 0, ..game_state }),
            ledger.lands@.len() == 0,
            ledger.profiles@.len() == 0,
            ledger.wf(),
    {
        let mut game_state = game_state;
        game_state.total_lands_sold = 0;
        Ledger { game_state, lands: Vec::new(), profiles: Vec::new() }
    }

    /// Where the record of parcel `land_id` is, if there is one.
    pub fn find_land(&self, land_id: u16) -> (found: Option<usize>)
        ensures
            match found {
                Some(i) => land_at(self.lands@, land_id, i as int),
                None => !holds_land(self.lands@, land_id),
            },
    {
        let mut i: usize = 0;
        while i < self.lands.len()
            invariant
                i <= self.lands@.len(),
                forall|j: int| 0 <= j < i ==> (#[trigger] self.lands@[j]).land_id != land_id,
            decreases self.lands@.len() - i,
        {
            if self.lands[i].land_id == land_id {
                return Some(i);
            }
            i += 1;
        }
        None
    }

    /// Where the profile of `owner` is, if there is one.
    pub fn find_profile(&self, owner: &Address) -> (found: Option<usize>)
        ensures
            match found {
                Some(i) => profile_at(self.profiles@, *owner, i as int),
                None => !holds_profile(self.profiles@, *owner),
            },
    {
        let mut i: usize = 0;
        while i < self.profiles.len()
            invariant
                i <= self.profiles@.len(),
                forall|j: int| 0 <= j < i ==> (#[trigger] self.profiles@[j]).owner != *owner,
            decreases self.profiles@.len() - i,
        {
            if self.profiles[i].owner == *owner {
                return Some(i);
            }
            i += 1;
        }
        None
    }

    /// The pending reward of parcel `land_id` at time `now`; reads only.
    pub fn get_pending_earnings(&self, land_id: u16, now: i64) -> (r: Result<u64, Refusal>)
        requires
            self.wf(),
        ensures
            !holds_land(self.lands@, land_id) ==> r == Err::<u64, Refusal>(Refusal::NotFound),
            forall|i: int|
                land_at(self.lands@, land_id, i) ==> r == match spec_pending(self.lands@[i], now) {
                    Ok(pending) => Ok::<u64, Refusal>(pending),
                    Err(e) => Err::<u64, Refusal>(Refusal::Rejected(e)),
                },
    {
        match self.find_land(land_id) {
            None => Err(Refusal::NotFound),
            Some(i) => {
                assert(self.lands@[i as int].wf());
                match calculate_earnings(&self.lands[i], now) {
                    Ok(pending) => Ok(pending),
                    Err(e) => Err(Refusal::Rejected(e)),
                }
            },
        }
    }

    /// Buys parcel `land_id` for `user` at time `now`.
    ///
    /// A parcel that has a record cannot be bought again. The buyer's profile
    /// is the stored one, or a fresh one on a first purchase. On success the
    /// new parcel record is added, the profile is stored, and the price is to
    /// be burned from the buyer's balance. Otherwise nothing changes.
    pub fn buy_land(
        &mut self,
        user: Address,
        token_mint: Address,
        land_id: u16,
        now: i64,
        land_bump: u8,
        profile_bump: u8,
    ) -> (r: Result<Burn, Refusal>)
        requires
            old(self).wf(),
        ensures
            final(self).wf(),
            holds_land(old(self).lands@, land_id) ==> r == Err::<Burn, Refusal>(
                Refusal::AlreadyExists,
            ) && same_records(*old(self), *final(self)),
            !holds_land(old(self).lands@, land_id) && !holds_profile(old(self).profiles@, user)
                ==> purchase_outcome(
                *old(self),
                *final(self),
                r,
                (BuyLand {
                    user,
                    game_state: old(self).game_state,
                    land_data: fresh_land(user),
                    user_profile: fresh_profile(user),
                    token_mint,
                    land_data_bump: land_bump,
                    user_profile_bump: profile_bump,
                }),
                None,
                land_id,
                now,
            ),
            !holds_land(old(self).lands@, land_id) ==> forall|p: int|
                profile_at(old(self).profiles@, user, p) ==> purchase_outcome(
                    *old(self),
                    *final(self),
                    r,
                    (BuyLand {
                        user,
                        game_state: old(self).game_state,
                        land_data: fresh_land(user),
                        user_profile: old(self).profiles@[p],
                        token_mint,
                        land_data_bump: land_bump,
                        user_profile_bump: profile_bump,
                    }),
                    Some(p),
                    land_id,
                    now,
                ),
    {
        if self.find_land(land_id).is_some() {
            return Err(Refusal::AlreadyExists);
        }
        let slot = self.find_profile(&user);
        let user_profile = match slot {
            Some(p) => self.profiles[p],
            None => UserProfile { owner: user, lands_owned: 0, token_balance: 0, bump: 0 },
        };
        let mut ctx = BuyLand {
            user,
            game_state: self.game_state,
            land_data: LandData {
                land_id: 0,
                owner: user,
                level: 0,
                fixed_earnings: 0,
                last_checkout: 0,
                bump: 0,
            },
            user_profile,
            token_mint,
            land_data_bump: land_bump,
            user_profile_bump: profile_bump,
        };
        match buy_land(&mut ctx, land_id, now) {
            Err(e) => Err(Refusal::Rejected(e)),
            Ok(burn) => {
                proof {
                    lemma_purchase_keeps_step(
                        self.lands@,
                        self.profiles@,
                        ctx.land_data,
                        ctx.user_profile,
                        match slot {
                            Some(p) => Some(p as int),
                            None => None,
                        },
                    );
                }
                self.game_state = ctx.game_state;
                self.lands.push(ctx.land_data);
                match slot {
                    Some(p) => {
                        self.profiles[p] = ctx.user_profile;
                    },
                    None => {
                        self.profiles.push(ctx.user_profile);
                    },
                }
                Ok(burn)
            },
        }
    }

    /// Claims the pending reward of parcel `land_id` for `user` at time
    /// `now`, with `token_vault_amount` base units in the reward vault.
    pub fn claim_earnings(
        &mut self,
        user: Address,
        token_mint: Address,
        land_id: u16,
        token_vault_amount: u64,
        now: i64,
    ) -> (r: Result<Transfer, Refusal>)
        requires
            old(self).wf(),
        ensures
            final(self).wf(),
            !holds_land(old(self).lands@, land_id) ==> r == Err::<Transfer, Refusal>(
                Refusal::NotFound,
            ) && same_records(*old(self), *final(self)),
            forall|i: int|
                land_at(old(self).lands@, land_id, i) ==> claim_outcome(
                    *old(self),
                    *final(self),
                    r,
                    (ClaimEarnings {
                        user,
                        game_state: old(self).game_state,
                        land_data: old(self).lands@[i],
                        token_mint,
                        token_vault_amount,
                    }),
                    i,
                    now,
                ),
    {
        let i = match self.find_land(land_id) {
            Some(i) => i,
            None => {
                return Err(Refusal::NotFound);
            },
        };
        assert(self.lands@[i as int].wf());
        let mut ctx = ClaimEarnings {
            user,
            game_state: self.game_state,
            land_data: self.lands[i],
            token_mint,
            token_vault_amount,
        };
        match claim_earnings(&mut ctx, now) {
            Err(e) => Err(Refusal::Rejected(e)),
            Ok(transfer) => {
                proof {
                    lemma_update_keeps_step(self.lands@, self.profiles@, i as int, ctx.land_data);
                }
                self.lands[i] = ctx.land_data;
                Ok(transfer)
            },
        }
    }

    /// Raises parcel `land_id` by one level for `user` at time `now`, with
    /// `user_token_amount` base units in the caller's balance.
    pub fn upgrade_land(
        &mut self,
        user: Address,
        token_mint: Address,
        land_id: u16,
        user_token_amount: u64,
        now: i64,
    ) -> (r: Result<Burn, Refusal>)
        requires
            old(self).wf(),
        ensures
            final(self).wf(),
            !holds_land(old(self).lands@, land_id) ==> r == Err::<Burn, Refusal>(
                Refusal::NotFound,
            ) && same_records(*old(self), *final(self)),
            forall|i: int|
                land_at(old(self).lands@, land_id, i) ==> upgrade_outcome(
                    *old(self),
                    *final(self),
                    r,
                    (UpgradeLand {
                        user,
                        game_state: old(self).game_state,
                        land_data: old(self).lands@[i],
                        token_mint,
                        user_token_amount,
                    }),
                    i,
                    now,
                ),
    {
        let i = match self.find_land(land_id) {
            Some(i) => i,
            None => {
                return Err(Refusal::NotFound);
            },
        };
        assert(self.lands@[i as int].wf());
        let mut ctx = UpgradeLand {
            user,
            game_state: self.game_state,
            land_data: self.lands[i],
            token_mint,
            user_token_amount,
        };
        match upgrade_land(&mut ctx, now) {
            Err(e) => Err(Refusal::Rejected(e)),
            Ok(burn) => {
                proof {
                    lemma_update_keeps_step(self.lands@, self.profiles@, i as int, ctx.land_data);
                }
                self.lands[i] = ctx.land_data;
                Ok(burn)
            },
        }
    }

    /// Takes parcel `land_id` away from its owner, on behalf of `authority`:
    /// the record leaves the parcel store, and the owner's count and the
    /// sold counter go down by one. The parcel and its owner's profile have to
    /// be in their stores.
    pub fn admin_close_land(&mut self, authority: Address, land_id: u16) -> (r: Result<
        (),
        Refusal,
    >)
        requires
            old(self).wf(),
        ensures
            final(self).wf(),
            !holds_land(old(self).lands@, land_id) ==> r == Err::<(), Refusal>(Refusal::NotFound)
                && same_records(*old(self), *final(self)),
            forall|i: int|
                land_at(old(self).lands@, land_id, i) && !holds_profile(
                    old(self).profiles@,
                    old(self).lands@[i].owner,
                ) ==> r == Err::<(), Refusal>(Refusal::NotFound) && same_records(
                    *old(self),
                    *final(self),
                ),
            forall|i: int, p: int|
                land_at(old(self).lands@, land_id, i) && profile_at(
                    old(self).profiles@,
                    old(self).lands@[i].owner,
                    p,
                ) ==> close_land_outcome(
                    *old(self),
                    *final(self),
                    r,
                    (AdminCloseLand {
                        authority,
                        game_state: old(self).game_state,
                        land_data: old(self).lands@[i],
                        user_profile: old(self).profiles@[p],
                    }),
                    i,
                    p,
                ),
    {
        let i = match self.find_land(land_id) {
            Some(i) => i,
            None => {
                return Err(Refusal::NotFound);
            },
        };
        let land_data = self.lands[i];
        let p = match self.find_profile(&land_data.owner) {
            Some(p) => p,
            None => {
                return Err(Refusal::NotFound);
            },
        };
        assert(self.profiles@[p as int].wf());
        let mut ctx = AdminCloseLand {
            authority,
            game_state: self.game_state,
            land_data,
            user_profile: self.profiles[p],
        };
        match admin_close_land(&mut ctx) {
            Err(e) => Err(Refusal::Rejected(e)),
            Ok(()) => {
                proof {
                    lemma_close_keeps_step(
                        self.lands@,
                        self.profiles@,
                        i as int,
                        p as int,
                        ctx.user_profile,
                    );
                }
                self.game_state = ctx.game_state;
                self.lands.remove(i);
                self.profiles[p] = ctx.user_profile;
                Ok(())
            },
        }
    }

    /// Removes the profile of `owner`, on behalf of `authority`; only a
    /// profile that counts no parcel can go.
    pub fn admin_close_user_profile(&mut self, authority: Address, owner: Address) -> (r: Result<
        (),
        Refusal,
    >)
        requires
            old(self).wf(),
        ensures
            final(self).wf(),
            final(self).game_state == old(self).game_state,
            final(self).lands@ == old(self).lands@,
            !holds_profile(old(self).profiles@, owner) ==> r == Err::<(), Refusal>(
                Refusal::NotFound,
            ) && final(self).profiles@ == old(self).profiles@,
            forall|p: int|
                profile_at(old(self).profiles@, owner, p) ==> {
                    if !old(self).game_state.spec_is_authority(authority) {
                        r == Err::<(), Refusal>(Refusal::Rejected(ColonyError::Unauthorized))
                            && final(self).profiles@ == old(self).profiles@
                    } else if old(self).profiles@[p].lands_owned != 0 {
                        r == Err::<(), Refusal>(Refusal::Rejected(ColonyError::UserHasLands))
                            && final(self).profiles@ == old(self).profiles@
                    } else {
                        r is Ok && final(self).profiles@ == old(self).profiles@.remove(p)
                    }
                },
    {
        let p = match self.find_profile(&owner) {
            Some(p) => p,
            None => {
                return Err(Refusal::NotFound);
            },
        };
        let ctx = AdminCloseUserProfile {
            authority,
            game_state: self.game_state,
            user_profile: self.profiles[p],
        };
        match admin_close_user_profile(&ctx) {
            Err(e) => Err(Refusal::Rejected(e)),
            Ok(()) => {
                proof {
                    lemma_profile_close_keeps_step(self.lands@, self.profiles@, p as int);
                }
                self.profiles.remove(p);
                Ok(())
            },
        }
    }
}

/// In a ledger that is in step, nobody holds more parcels than the cap, and
/// the sold counter is the number of parcels that are held.
pub proof fn lemma_holdings_within_cap(ledger: Ledger, owner: Address)
    requires
        ledger.wf(),
    ensures
        owned_by(ledger.lands@, owner) <= crate::schedule::MAX_LANDS_PER_USER,
        ledger.game_state.total_lands_sold == ledger.lands@.len(),
{
    if holds_profile(ledger.profiles@, owner) {
        let p = choose|p: int|
            0 <= p < ledger.profiles@.len() && (#[trigger] ledger.profiles@[p]).owner == owner;
        assert(ledger.profiles@[p].wf());
    } else {
        assert forall|i: int| 0 <= i < ledger.lands@.len() implies (
        #[trigger] ledger.lands@[i]).owner != owner by {
            if ledger.lands@[i].owner == owner {
                assert(holds_profile(ledger.profiles@, ledger.lands@[i].owner));
            }
        }
        lemma_owned_zero(ledger.lands@, owner);
    }
}

/// In a ledger that is in step, the forced close of a parcel by the
/// controlling authority never fails on a counter: the owner's profile counts
/// at least this parcel, and so does the sold counter.
pub proof fn lemma_close_finds_counters(ledger: Ledger, authority: Address, i: int, p: int)
    requires
        ledger.wf(),
        0 <= i < ledger.lands@.len(),
        profile_at(ledger.profiles@, ledger.lands@[i].owner, p),
        ledger.game_state.spec_is_authority(authority),
    ensures
        close_land_error(
            (AdminCloseLand {
                authority,
                game_state: ledger.game_state,
                land_data: ledger.lands@[i],
                user_profile: ledger.profiles@[p],
            }),
        ) is None,
{
    let owner = ledger.lands@[i].owner;
    lemma_owned_zero(ledger.lands@, owner);
    assert(ledger.profiles@[p].lands_owned == owned_by(ledger.lands@, ledger.profiles@[p].owner));
}

} // verus!
