//! Where a transaction stands on its way to finality.

use vstd::prelude::*;
use vstd::std_specs::convert::FromSpecImpl;

verus! {

/// Status of a priority operation. One that storage knows as executed is
/// already part of a rollup block, so there is no earlier status.
#[derive(Debug, Clone, Copy, PartialEq, Eq, Structural)]
pub enum L1Status {
    /// Included in a rollup block whose execution the base chain has not
    /// confirmed yet.
    Committed,
    /// Included in a rollup block whose execution the base chain confirmed.
    Finalized,
}

/// Status of a rollup transaction.
///
/// A transaction moves from `Queued` to `Committed` to `Finalized`, or ends in
/// `Rejected` when its execution fails. Nothing leaves `Finalized` or
/// `Rejected`.
#[derive(Debug, Clone, Copy, PartialEq, Eq, Structural)]
pub enum L2Status {
    /// Accepted into the pending pool, not executed yet.
    Queued,
    /// Executed in a rollup block that is not final yet.
    Committed,
    /// Executed in a rollup block whose execution the base chain confirmed.
    Finalized,
    /// Executed and failed.
    Rejected,
}

impl L1Status {
    /// The status of an operation in a block, given whether the block is final.
    pub open spec fn spec_of_finality(finalized: bool) -> L1Status {
        if finalized {
            L1Status::Finalized
        } else {
            L1Status::Committed
        }
    }

    /// The status of an operation in a block, given whether the block is final.
    pub fn of_finality(finalized: bool) -> (status: L1Status)
        ensures
            status == Self::spec_of_finality(finalized),
    {
        if finalized {
            L1Status::Finalized
        } else {
            L1Status::Committed
        }
    }
}

impl L2Status {
    /// The status of an executed transaction: a failed one is rejected
    /// whatever the block's finality, a successful one is as final as its
    /// block.
    pub open spec fn spec_of_execution(success: bool, finalized: bool) -> L2Status {
        if !success {
            L2Status::Rejected
        } else if finalized {
            L2Status::Finalized
        } else {
            L2Status::Committed
        }
    }

    /// The status of an executed transaction.
    pub fn of_execution(success: bool, finalized: bool) -> (status: L2Status)
        ensures
            status == Self::spec_of_execution(success, finalized),
    {
        if success {
            if finalized {
                L2Status::Finalized
            } else {
                L2Status::Committed
            }
        } else {
            L2Status::Rejected
        }
    }

    /// Whether the status says that the transaction is in a rollup block.
    pub open spec fn in_block(self) -> bool {
        self != L2Status::Queued
    }

    /// Position of the status on the way `Queued`, `Committed`, `Finalized`.
    /// `Rejected` is off that way and has no position.
    pub open spec fn progress(self) -> Option<nat> {
        match self {
            L2Status::Queued => Some(0nat),
            L2Status::Committed => Some(1nat),
            L2Status::Finalized => Some(2nat),
            L2Status::Rejected => None,
        }
    }
}

impl From<L1Status> for L2Status {
    fn from(status: L1Status) -> (converted: L2Status) {
        match status {
            L1Status::Committed => L2Status::Committed,
            L1Status::Finalized => L2Status::Finalized,
        }
    }
}

impl FromSpecImpl<L1Status> for L2Status {
    open spec fn obeys_from_spec() -> bool {
        true
    }

    open spec fn from_spec(status: L1Status) -> L2Status {
        match status {
            L1Status::Committed => L2Status::Committed,
            L1Status::Finalized => L2Status::Finalized,
        }
    }
}

} // verus!
