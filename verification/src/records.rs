//! The two kinds of persistent record.

use vstd::prelude::*;
use crate::identity::Identity;

verus! {

/// The ledger: one per deployment.
///
/// `admin` is set when the ledger is created and never changes afterwards.
/// `total_deposits` counts what has been deposited since the last sweep.
#[derive(Clone, Copy, Debug, PartialEq, Eq)]
pub struct Presale {
    pub admin: Identity,
    pub total_deposits: u64,
}

/// What one depositor has put in over the whole life of the deployment.
///
/// The amount only ever grows: a sweep by the administrator empties the
/// custody account and leaves every record as it is.
#[derive(Clone, Copy, Debug, PartialEq, Eq)]
pub struct UserBalance {
    pub amount: u64,
}

} // verus!
