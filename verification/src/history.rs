//! The sold counter over a run of purchases and forced closes.

use vstd::prelude::*;
use crate::admin::{close_land_error, land_closed, AdminCloseLand};
use crate::purchase::{bought, buy_land_error, BuyLand};

verus! {

/// One operation that moves the sold counter, with what it was handed.
pub enum Step {
    /// The purchase of parcel `land_id` at time `now`.
    Purchase { records: BuyLand, land_id: u16, now: i64 },
    /// The forced close of a parcel.
    Close { closing: AdminCloseLand },
}

impl Step {
    /// Whether the operation went through.
    pub open spec fn succeeded(self) -> bool {
        match self {
            Step::Purchase { records, land_id, now } => buy_land_error(records, land_id) is None,
            Step::Close { closing } => close_land_error(closing) is None,
        }
    }

    /// The sold counter that the operation found.
    pub open spec fn sold_before(self) -> int {
        match self {
            Step::Purchase { records, land_id, now } => records.game_state.total_lands_sold as int,
            Step::Close { closing } => closing.game_state.total_lands_sold as int,
        }
    }

    /// The sold counter that the operation left.
    pub open spec fn sold_after(self) -> int {
        match self {
            Step::Purchase { records, land_id, now } => bought(
                records,
                land_id,
                now,
            ).game_state.total_lands_sold as int,
            Step::Close { closing } => land_closed(closing).game_state.total_lands_sold as int,
        }
    }
}

/// The sold counter after `steps`, started at `start`.
pub open spec fn sold_at_end(start: int, steps: Seq<Step>) -> int {
    if steps.len() == 0 {
        start
    } else {
        steps.last().sold_after()
    }
}

/// Whether `steps` is a run of operations that all went through, the first of
/// which found the sold counter at `start` and each later one as the one
/// before left it.
pub open spec fn is_run(start: int, steps: Seq<Step>) -> bool
    decreases steps.len(),
{
    if steps.len() == 0 {
        true
    } else {
        &&& is_run(start, steps.drop_last())
        &&& steps.last().succeeded()
        &&& steps.last().sold_before() == sold_at_end(start, steps.drop_last())
    }
}

/// Number of purchases among `steps`.
pub open spec fn purchases(steps: Seq<Step>) -> int
    decreases steps.len(),
{
    if steps.len() == 0 {
        0
    } else {
        purchases(steps.drop_last()) + if steps.last() is Purchase {
            1int
        } else {
            0int
        }
    }
}

/// Number of forced closes among `steps`.
pub open spec fn closes(steps: Seq<Step>) -> int
    decreases steps.len(),
{
    if steps.len() == 0 {
        0
    } else {
        closes(steps.drop_last()) + if steps.last() is Close {
            1int
        } else {
            0int
        }
    }
}

/// After a run of successful purchases and forced closes, the sold counter is
/// where it started, plus the number of purchases, minus the number of
/// closes.
pub proof fn lemma_sold_counter(start: int, steps: Seq<Step>)
    requires
        is_run(start, steps),
    ensures
        sold_at_end(start, steps) == start + purchases(steps) - closes(steps),
    decreases steps.len(),
{
    if steps.len() > 0 {
        lemma_sold_counter(start, steps.drop_last());
    }
}

} // verus!
